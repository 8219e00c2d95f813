//! What a caller asks for, and what is asked of the storage layer in turn.

use vstd::prelude::*;
use crate::id::{PointIdType, PseudoId};

verus! {

/// The shard a read is restricted to.
pub type ShardId = u32;

/// Which fields of a payload to hand out, by name.
#[derive(Debug, Clone, PartialEq)]
pub enum PayloadSelector {
    Include(Vec<String>),
    Exclude(Vec<String>),
}

/// Whether, and how much of, the payload is attached to a returned record.
#[derive(Debug, Clone, PartialEq)]
pub enum WithPayloadInterface {
    Bool(bool),
    Fields(Vec<String>),
    Selector(PayloadSelector),
}

/// Whether, and which of, the vectors are attached to a returned record.
#[derive(Debug, Clone, PartialEq)]
pub enum WithVector {
    Bool(bool),
    Selector(Vec<String>),
}

/// How many replicas have to agree on a read.
#[derive(Debug, Clone, Copy, PartialEq, Eq, Structural)]
pub enum ReadConsistencyType {
    Majority,
    Quorum,
    All,
}

/// The agreement asked of a read: a number of replicas, or a named rule.
#[derive(Debug, Clone, Copy, PartialEq, Eq, Structural)]
pub enum ReadConsistency {
    Factor(usize),
    Type(ReadConsistencyType),
}

impl From<bool> for WithPayloadInterface {
    fn from(all: bool) -> (r: WithPayloadInterface) {
        WithPayloadInterface::Bool(all)
    }
}

impl vstd::std_specs::convert::FromSpecImpl<bool> for WithPayloadInterface {
    open spec fn obeys_from_spec() -> bool {
        true
    }

    open spec fn from_spec(all: bool) -> WithPayloadInterface {
        WithPayloadInterface::Bool(all)
    }
}

impl From<bool> for WithVector {
    fn from(all: bool) -> (r: WithVector) {
        WithVector::Bool(all)
    }
}

impl vstd::std_specs::convert::FromSpecImpl<bool> for WithVector {
    open spec fn obeys_from_spec() -> bool {
        true
    }

    open spec fn from_spec(all: bool) -> WithVector {
        WithVector::Bool(all)
    }
}

/// A batch of identifiers to look up in one named collection.
#[derive(Debug, Clone)]
pub struct LookupRequest {
    pub collection_name: String,
    pub values: Vec<PseudoId>,
    pub with_payload: WithPayloadInterface,
    pub with_vectors: WithVector,
}

/// One batched retrieval, as the storage layer takes it.
#[derive(Debug, Clone, PartialEq)]
pub struct PointRequest {
    pub ids: Vec<PointIdType>,
    pub with_payload: Option<WithPayloadInterface>,
    pub with_vector: WithVector,
}

} // verus!
