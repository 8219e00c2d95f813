//! Identifiers as callers write them and as the storage layer keeps them.

use vstd::prelude::*;
use vstd::string::*;
use crate::uuid_text::{format_uuid, parse_uuid, uuid_parse, uuid_text};

verus! {

/// The identifier of a stored point: a number or a UUID, the latter as its 128-bit value.
#[derive(Debug, Clone, Copy, PartialEq, Eq, Hash, Structural)]
pub enum PointIdType {
    NumId(u64),
    Uuid(u128),
}

/// An identifier as a caller supplies it, before anything is known of it.
#[derive(Debug, Eq, Hash)]
pub enum PseudoId {
    String(String),
    NumberU64(u64),
    NumberI64(i64),
}

/// What a `PseudoId` holds, with text as a sequence of characters.
pub enum PseudoIdView {
    String(Seq<char>),
    NumberU64(u64),
    NumberI64(i64),
}

impl View for PseudoId {
    type V = PseudoIdView;

    open spec fn view(&self) -> PseudoIdView {
        match self {
            PseudoId::String(s) => PseudoIdView::String(s@),
            PseudoId::NumberU64(n) => PseudoIdView::NumberU64(*n),
            PseudoId::NumberI64(n) => PseudoIdView::NumberI64(*n),
        }
    }
}

impl PartialEq for PseudoId {
    fn eq(&self, other: &PseudoId) -> (r: bool) {
        match self {
            PseudoId::String(a) => match other {
                PseudoId::String(b) => *a == *b,
                _ => false,
            },
            PseudoId::NumberU64(a) => match other {
                PseudoId::NumberU64(b) => *a == *b,
                _ => false,
            },
            PseudoId::NumberI64(a) => match other {
                PseudoId::NumberI64(b) => *a == *b,
                _ => false,
            },
        }
    }
}

impl vstd::std_specs::cmp::PartialEqSpecImpl for PseudoId {
    open spec fn obeys_eq_spec() -> bool {
        true
    }

    open spec fn eq_spec(&self, other: &PseudoId) -> bool {
        self@ == other@
    }
}

/// The point identifier that a caller's identifier stands for, if it stands for one:
/// a number that is not negative, or a text that reads as a UUID.
pub open spec fn canonical(id: PseudoIdView) -> Option<PointIdType> {
    match id {
        PseudoIdView::String(text) => match uuid_parse(text) {
            Some(value) => Some(PointIdType::Uuid(value)),
            None => None,
        },
        PseudoIdView::NumberU64(n) => Some(PointIdType::NumId(n)),
        PseudoIdView::NumberI64(n) => if n >= 0 {
            Some(PointIdType::NumId(n as u64))
        } else {
            None
        },
    }
}

/// The caller-facing form of a point identifier: a number stays a number, a UUID becomes
/// its text.
pub open spec fn pseudo(id: PointIdType) -> PseudoIdView {
    match id {
        PointIdType::NumId(n) => PseudoIdView::NumberU64(n),
        PointIdType::Uuid(value) => PseudoIdView::String(uuid_text(value)),
    }
}

impl Clone for PseudoId {
    fn clone(&self) -> (r: PseudoId)
        ensures
            r@ == self@,
    {
        match self {
            PseudoId::String(text) => PseudoId::String(text.clone()),
            PseudoId::NumberU64(n) => PseudoId::NumberU64(*n),
            PseudoId::NumberI64(n) => PseudoId::NumberI64(*n),
        }
    }
}

/// The point identifier that a text stands for, given what reading the text as a UUID gave:
/// that UUID, or a failure where the text was none.
pub fn point_id_of_text(parsed: Option<u128>) -> (r: Result<PointIdType, ()>)
    ensures
        r == match parsed {
            Some(value) => Ok::<PointIdType, ()>(PointIdType::Uuid(value)),
            None => Err(()),
        },
{
    match parsed {
        Some(value) => Ok(PointIdType::Uuid(value)),
        None => Err(()),
    }
}

impl TryFrom<PseudoId> for PointIdType {
    type Error = ();

    /// Converts a caller's identifier, or fails where it stands for no point identifier.
    fn try_from(value: PseudoId) -> (r: Result<PointIdType, ()>) {
        match value {
            PseudoId::String(text) => point_id_of_text(parse_uuid(text.as_str())),
            PseudoId::NumberU64(n) => Ok(PointIdType::NumId(n)),
            PseudoId::NumberI64(n) => if n >= 0 {
                Ok(PointIdType::NumId(n as u64))
            } else {
                Err(())
            },
        }
    }
}

impl vstd::std_specs::convert::TryFromSpecImpl<PseudoId> for PointIdType {
    open spec fn obeys_try_from_spec() -> bool {
        true
    }

    open spec fn try_from_spec(value: PseudoId) -> Result<PointIdType, ()> {
        match canonical(value@) {
            Some(id) => Ok(id),
            None => Err(()),
        }
    }
}

impl From<PointIdType> for PseudoId {
    /// Gives a point identifier its caller-facing form. The form converts back to the
    /// identifier it was made from.
    fn from(id: PointIdType) -> (r: PseudoId)
        ensures
            r@ == pseudo(id),
            canonical(r@) == Some(id),
    {
        match id {
            PointIdType::NumId(n) => PseudoId::NumberU64(n),
            PointIdType::Uuid(value) => PseudoId::String(format_uuid(value)),
        }
    }
}

impl vstd::std_specs::convert::FromSpecImpl<PointIdType> for PseudoId {
    /// Ghost code can view a text but cannot build one, so what `from` returns is stated
    /// over views, in its own `ensures`.
    open spec fn obeys_from_spec() -> bool {
        false
    }

    open spec fn from_spec(id: PointIdType) -> PseudoId {
        choose|p: PseudoId| p@ == pseudo(id)
    }
}

impl From<u64> for PseudoId {
    fn from(n: u64) -> (r: PseudoId) {
        PseudoId::NumberU64(n)
    }
}

impl vstd::std_specs::convert::FromSpecImpl<u64> for PseudoId {
    open spec fn obeys_from_spec() -> bool {
        true
    }

    open spec fn from_spec(n: u64) -> PseudoId {
        PseudoId::NumberU64(n)
    }
}

impl From<i64> for PseudoId {
    fn from(n: i64) -> (r: PseudoId) {
        PseudoId::NumberI64(n)
    }
}

impl vstd::std_specs::convert::FromSpecImpl<i64> for PseudoId {
    open spec fn obeys_from_spec() -> bool {
        true
    }

    open spec fn from_spec(n: i64) -> PseudoId {
        PseudoId::NumberI64(n)
    }
}

impl From<String> for PseudoId {
    fn from(text: String) -> (r: PseudoId) {
        PseudoId::String(text)
    }
}

impl vstd::std_specs::convert::FromSpecImpl<String> for PseudoId {
    open spec fn obeys_from_spec() -> bool {
        true
    }

    open spec fn from_spec(text: String) -> PseudoId {
        PseudoId::String(text)
    }
}

impl From<&str> for PseudoId {
    fn from(text: &str) -> (r: PseudoId)
        ensures
            r@ == PseudoIdView::String(text@),
    {
        PseudoId::String(String::from_str(text))
    }
}

impl vstd::std_specs::convert::FromSpecImpl<&str> for PseudoId {
    /// See the conversion from a point identifier: stated over views, in `from` itself.
    open spec fn obeys_from_spec() -> bool {
        false
    }

    open spec fn from_spec(text: &str) -> PseudoId {
        choose|p: PseudoId| p@ == PseudoIdView::String(text@)
    }
}

/// A number converts exactly where it is not negative, and then to itself.
pub proof fn lemma_number_converts_iff_not_negative(n: i64)
    ensures
        canonical(PseudoIdView::NumberI64(n)) is Some <==> n >= 0,
        n >= 0 ==> canonical(PseudoIdView::NumberI64(n)) == Some(PointIdType::NumId(n as u64)),
{
}

/// A text converts exactly where it reads as a UUID, and then to that UUID.
pub proof fn lemma_text_converts_iff_uuid(text: Seq<char>)
    ensures
        canonical(PseudoIdView::String(text)) is Some <==> uuid_parse(text) is Some,
        uuid_parse(text) is Some ==> canonical(PseudoIdView::String(text)) == Some(
            PointIdType::Uuid(uuid_parse(text)->Some_0),
        ),
{
}

} // verus!
