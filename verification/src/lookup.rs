//! The lookup itself: which identifiers are asked for, when a retrieval is made, and how
//! what comes back is filed.

use vstd::prelude::*;
use crate::error::{LookupError, missing_collection};
use crate::id::{PointIdType, PseudoId, PseudoIdView, canonical};
use crate::record::{
    LookupResult, Record, keyed_by_id, lemma_rekey_ignores_order, lemma_rekey_keys, rekey,
};
use crate::request::{LookupRequest, PointRequest, ReadConsistency, ShardId};

verus! {

/// The point identifiers that a list of caller's identifiers stands for: those that convert,
/// in the order given.
pub open spec fn normalize(values: Seq<PseudoId>) -> Seq<PointIdType> {
    values.filter_map(|value: PseudoId| canonical(value@))
}

/// The retrieval asks for exactly what the lookup request stands for.
pub open spec fn asks_for(retrieval: PointRequest, request: LookupRequest) -> bool {
    &&& retrieval.ids@ == normalize(request.values@)
    &&& retrieval.with_payload == Some(request.with_payload)
    &&& retrieval.with_vector == request.with_vectors
}

/// Converts the identifiers that convert and drops the others, keeping the order.
pub fn normalize_ids(values: Vec<PseudoId>) -> (ids: Vec<PointIdType>)
    ensures
        ids@ == normalize(values@),
{
    let ghost all = values@;
    let mut ids: Vec<PointIdType> = Vec::new();
    for value in it: values.into_iter()
        invariant
            it.seq() == all,
            ids@ == normalize(all.take(it.index() as int)),
    {
        proof {
            all.lemma_filter_map_take_succ(|value: PseudoId| canonical(value@), it.index() as int);
        }
        match PointIdType::try_from(value) {
            Ok(id) => {
                ids.push(id);
            },
            Err(_) => {},
        }
    }
    proof {
        assert(all.take(all.len() as int) =~= all);
    }
    ids
}

/// Normalizing never adds an identifier: an identifier is asked for exactly where one of
/// the caller's identifiers converts to it, and nothing is asked for exactly where none
/// converts, as for an empty list.
pub proof fn lemma_normalize_members(values: Seq<PseudoId>)
    ensures
        normalize(values).len() <= values.len(),
        forall|id: PointIdType| #[trigger]
            normalize(values).contains(id) <==> exists|i: int|
                0 <= i < values.len() && canonical((#[trigger] values[i])@) == Some(id),
        normalize(values).len() == 0 <==> forall|i: int|
            0 <= i < values.len() ==> canonical((#[trigger] values[i])@) is None,
    decreases values.len(),
{
    let convert = |value: PseudoId| canonical(value@);
    if values.len() > 0 {
        let rest = values.drop_last();
        let last = values.last();
        lemma_normalize_members(rest);
        assert(normalize(values) == match convert(last) {
            Some(id) => normalize(rest) + seq![id],
            None => normalize(rest),
        });
        assert forall|id: PointIdType| #[trigger]
            normalize(values).contains(id) <==> exists|i: int|
                0 <= i < values.len() && canonical((#[trigger] values[i])@) == Some(id) by {
            if normalize(values).contains(id) {
                if normalize(rest).contains(id) {
                    let i = choose|i: int|
                        0 <= i < rest.len() && canonical((#[trigger] rest[i])@) == Some(id);
                    assert(canonical(values[i]@) == Some(id));
                } else {
                    let at = choose|at: int|
                        0 <= at < normalize(values).len() && normalize(values)[at] == id;
                    if at < normalize(rest).len() {
                        assert(normalize(rest)[at] == id);
                    }
                    assert(canonical(values[values.len() - 1]@) == Some(id));
                }
            }
            if exists|i: int|
                0 <= i < values.len() && canonical((#[trigger] values[i])@) == Some(id) {
                let i = choose|i: int|
                    0 <= i < values.len() && canonical((#[trigger] values[i])@) == Some(id);
                if i < rest.len() {
                    assert(canonical(rest[i]@) == Some(id));
                    assert(normalize(rest).contains(id));
                    let at = choose|at: int|
                        0 <= at < normalize(rest).len() && normalize(rest)[at] == id;
                    assert(normalize(values)[at] == id);
                } else {
                    assert(normalize(values)[normalize(values).len() - 1] == id);
                }
            }
        }
        if normalize(values).len() == 0 {
            assert forall|i: int| 0 <= i < values.len() implies canonical(
                (#[trigger] values[i])@,
            ) is None by {
                if i < rest.len() {
                    assert(canonical(rest[i]@) is None);
                }
            }
        }
        if forall|i: int| 0 <= i < values.len() ==> canonical((#[trigger] values[i])@) is None {
            assert(canonical(values[values.len() - 1]@) is None);
            assert forall|i: int| 0 <= i < rest.len() implies canonical(
                (#[trigger] rest[i])@,
            ) is None by {
                assert(canonical(values[i]@) is None);
            }
        }
    }
}

/// What is to be done once the resolver has answered.
pub enum LookupStep<H, P, V, E> {
    /// The lookup is over with this outcome, and no retrieval is made.
    Finished(Result<LookupResult<P, V>, LookupError<E>>),
    /// One retrieval is to be made against the collection, with this request and these
    /// directives.
    Retrieve {
        collection: H,
        request: PointRequest,
        read_consistency: Option<ReadConsistency>,
        shard_selection: Option<ShardId>,
    },
}

/// The lookup failed because the named collection was not there.
pub open spec fn is_not_found<P, V, E>(
    result: Result<LookupResult<P, V>, LookupError<E>>,
    collection_name: Seq<char>,
) -> bool {
    result matches Err(LookupError::NotFound { what }) && what@ == missing_collection(
        collection_name,
    )
}

/// The lookup ended as the retrieval's outcome has it end: the records filed under their
/// caller-facing identifiers, or the retrieval's error handed on.
pub open spec fn ends_with<P, V, E>(
    result: Result<LookupResult<P, V>, LookupError<E>>,
    outcome: Result<Vec<Record<P, V>>, E>,
) -> bool {
    match outcome {
        Ok(records) => result matches Ok(found) && found@ == rekey(records@) && keyed_by_id(
            found@,
        ),
        Err(cause) => result == Err::<LookupResult<P, V>, LookupError<E>>(
            LookupError::RetrievalFailed(cause),
        ),
    }
}

/// The lookup is over, with a mapping that holds nothing, and no retrieval is made.
pub open spec fn finished_empty<H, P, V, E>(step: LookupStep<H, P, V, E>) -> bool {
    step matches LookupStep::Finished(Ok(nothing)) && nothing@ == Map::<
        PseudoIdView,
        Record<P, V>,
    >::empty()
}

/// Takes the resolver's answer: the collection if there is one, else `NotFound` with the
/// collection's name.
pub fn acquire<H, E>(collection_name: &str, found: Option<H>) -> (r: Result<H, LookupError<E>>)
    ensures
        match found {
            Some(collection) => r == Ok::<H, LookupError<E>>(collection),
            None => r matches Err(LookupError::NotFound { what }) && what@ == missing_collection(
                collection_name@,
            ),
        },
{
    match found {
        Some(collection) => Ok(collection),
        None => Err(LookupError::collection_not_found(collection_name)),
    }
}

/// The one retrieval that answers the request, or `None` where no identifier of the
/// request converts, so that there is nothing to retrieve.
pub fn retrieval_request(request: LookupRequest) -> (r: Option<PointRequest>)
    ensures
        match r {
            Some(retrieval) => asks_for(retrieval, request) && retrieval.ids@.len() > 0,
            None => normalize(request.values@).len() == 0,
        },
{
    let ids = normalize_ids(request.values);
    if ids.len() == 0 {
        None
    } else {
        Some(
            PointRequest {
                ids,
                with_payload: Some(request.with_payload),
                with_vector: request.with_vectors,
            },
        )
    }
}

/// Files each record under the caller-facing form of its own identifier.
pub fn join_records<P, V>(records: Vec<Record<P, V>>) -> (r: LookupResult<P, V>)
    ensures
        r@ == rekey(records@),
        keyed_by_id(r@),
{
    let ghost all = records@;
    let mut joined: LookupResult<P, V> = LookupResult::new();
    for record in it: records.into_iter()
        invariant
            it.seq() == all,
            joined@ == rekey(all.take(it.index() as int)),
            keyed_by_id(joined@),
    {
        proof {
            assert(all.take(it.index() + 1).drop_last() =~= all.take(it.index() as int));
        }
        let key = PseudoId::from(record.id);
        joined.insert(key, record);
    }
    proof {
        assert(all.take(all.len() as int) =~= all);
    }
    joined
}

/// Decides what follows the resolver's answer. Without a collection the lookup fails; with
/// one and nothing to retrieve it ends with an empty mapping; else one retrieval is due.
pub fn after_resolution<H, P, V, E>(
    request: LookupRequest,
    found: Option<H>,
    read_consistency: Option<ReadConsistency>,
    shard_selection: Option<ShardId>,
) -> (step: LookupStep<H, P, V, E>)
    ensures
        match found {
            None => step matches LookupStep::Finished(result) && is_not_found(
                result,
                request.collection_name@,
            ),
            Some(resolved) => if normalize(request.values@).len() == 0 {
                finished_empty(step)
            } else {
                &&& step matches LookupStep::Retrieve {
                    collection,
                    request: retrieval,
                    read_consistency: consistency,
                    shard_selection: shard,
                }
                &&& collection == resolved
                &&& asks_for(retrieval, request)
                &&& consistency == read_consistency
                &&& shard == shard_selection
            },
        },
        found is Some && request.values@.len() == 0 ==> finished_empty(step),
{
    match acquire::<H, E>(request.collection_name.as_str(), found) {
        Err(error) => LookupStep::Finished(Err(error)),
        Ok(collection) => match retrieval_request(request) {
            None => LookupStep::Finished(Ok(LookupResult::new())),
            Some(retrieval) => LookupStep::Retrieve {
                collection,
                request: retrieval,
                read_consistency,
                shard_selection,
            },
        },
    }
}

/// Ends the lookup with what the retrieval gave.
pub fn after_retrieval<P, V, E>(outcome: Result<Vec<Record<P, V>>, E>) -> (result: Result<
    LookupResult<P, V>,
    LookupError<E>,
>)
    ensures
        ends_with(result, outcome),
{
    match outcome {
        Ok(records) => Ok(join_records(records)),
        Err(cause) => Err(LookupError::RetrievalFailed(cause)),
    }
}

/// Nothing comes back unasked: where the retrieval returned only records it was asked for,
/// every key of the mapping stands for the same point as one of the caller's identifiers.
pub proof fn lemma_keys_answer_the_request<P, V>(
    request: LookupRequest,
    retrieval: PointRequest,
    records: Seq<Record<P, V>>,
    found: Map<PseudoIdView, Record<P, V>>,
    key: PseudoIdView,
)
    requires
        asks_for(retrieval, request),
        forall|j: int| 0 <= j < records.len() ==> retrieval.ids@.contains(#[trigger] records[j].id),
        found == rekey(records),
        keyed_by_id(found),
        found.contains_key(key),
    ensures
        exists|i: int|
            0 <= i < request.values@.len() && canonical((#[trigger] request.values@[i])@)
                == canonical(key),
{
    lemma_rekey_keys(records);
    lemma_normalize_members(request.values@);
    let record = found[key];
    let j = choose|j: int| 0 <= j < records.len() && records[j] == record;
    assert(retrieval.ids@.contains(records[j].id));
    assert(normalize(request.values@).contains(record.id));
}

/// A lookup can be repeated: where two retrievals succeeded with the same records, in
/// whatever order, and no identifier twice, the two lookups end with equal mappings.
pub proof fn lemma_lookup_is_repeatable<P, V, E>(
    first_outcome: Result<Vec<Record<P, V>>, E>,
    second_outcome: Result<Vec<Record<P, V>>, E>,
    first: Result<LookupResult<P, V>, LookupError<E>>,
    second: Result<LookupResult<P, V>, LookupError<E>>,
)
    requires
        ends_with(first, first_outcome),
        ends_with(second, second_outcome),
        first_outcome is Ok,
        second_outcome is Ok,
        first_outcome->Ok_0@.to_multiset() == second_outcome->Ok_0@.to_multiset(),
        forall|i: int, j: int|
            0 <= i < j < first_outcome->Ok_0@.len() ==> first_outcome->Ok_0@[i].id
                != first_outcome->Ok_0@[j].id,
    ensures
        first is Ok,
        second is Ok,
        first->Ok_0@ == second->Ok_0@,
{
    lemma_rekey_ignores_order(first_outcome->Ok_0@, second_outcome->Ok_0@);
}

/// The lookup ended as it has to, given the resolver's answer: `NotFound` without a
/// collection; an empty mapping where no identifier converts; else whatever one retrieval
/// of the identifiers that convert leads to.
pub open spec fn lookup_ended<H, P, V, E, R>(
    request: LookupRequest,
    found: Option<H>,
    retrieve: R,
    read_consistency: Option<ReadConsistency>,
    shard_selection: Option<ShardId>,
    result: Result<LookupResult<P, V>, LookupError<E>>,
) -> bool where
    R: FnOnce(H, PointRequest, Option<ReadConsistency>, Option<ShardId>) -> Result<
        Vec<Record<P, V>>,
        E,
    >,
 {
    match found {
        None => is_not_found(result, request.collection_name@),
        Some(collection) => if normalize(request.values@).len() == 0 {
            result matches Ok(nothing) && nothing@ == Map::<PseudoIdView, Record<P, V>>::empty()
        } else {
            exists|retrieval: PointRequest, outcome: Result<Vec<Record<P, V>>, E>|
                {
                    &&& asks_for(retrieval, request)
                    &&& #[trigger] call_ensures(
                        retrieve,
                        (collection, retrieval, read_consistency, shard_selection),
                        outcome,
                    )
                    &&& ends_with(result, outcome)
                }
        },
    }
}

/// A request without identifiers, for a collection that is there, ends with a mapping that
/// holds nothing, whatever a retrieval would have given.
pub proof fn lemma_no_identifiers_no_records<H, P, V, E, R>(
    request: LookupRequest,
    found: Option<H>,
    retrieve: R,
    read_consistency: Option<ReadConsistency>,
    shard_selection: Option<ShardId>,
    result: Result<LookupResult<P, V>, LookupError<E>>,
) where
    R: FnOnce(H, PointRequest, Option<ReadConsistency>, Option<ShardId>) -> Result<
        Vec<Record<P, V>>,
        E,
    >,

    requires
        lookup_ended(request, found, retrieve, read_consistency, shard_selection, result),
        found is Some,
        request.values@.len() == 0,
    ensures
        result is Ok,
        result->Ok_0@ == Map::<PseudoIdView, Record<P, V>>::empty(),
{
}

/// Looks the request's identifiers up in the collection that the resolver finds under the
/// request's name. The resolver is called once. The retrieval is called once, with the
/// identifiers that convert and the directives as given, unless the collection is missing
/// or no identifier converts: then it is not called.
pub fn lookup_ids<H, P, V, E, F, R>(
    request: LookupRequest,
    collection_by_name: F,
    retrieve: R,
    read_consistency: Option<ReadConsistency>,
    shard_selection: Option<ShardId>,
) -> (result: Result<LookupResult<P, V>, LookupError<E>>) where
    F: FnOnce(String) -> Option<H>,
    R: FnOnce(H, PointRequest, Option<ReadConsistency>, Option<ShardId>) -> Result<
        Vec<Record<P, V>>,
        E,
    >,

    requires
        call_requires(collection_by_name, (request.collection_name,)),
        forall|collection: H, retrieval: PointRequest|
            call_ensures(collection_by_name, (request.collection_name,), Some(collection))
                && asks_for(retrieval, request) && retrieval.ids@.len() > 0
                ==> #[trigger] call_requires(
                retrieve,
                (collection, retrieval, read_consistency, shard_selection),
            ),
    ensures
        exists|found: Option<H>|
            {
                &&& #[trigger] call_ensures(
                    collection_by_name,
                    (request.collection_name,),
                    found,
                )
                &&& lookup_ended(
                    request,
                    found,
                    retrieve,
                    read_consistency,
                    shard_selection,
                    result,
                )
            },
{
    let found = collection_by_name(request.collection_name.clone());
    match after_resolution::<H, P, V, E>(request, found, read_consistency, shard_selection) {
        LookupStep::Finished(result) => result,
        LookupStep::Retrieve { collection, request: retrieval, read_consistency, shard_selection } => {
            after_retrieval(retrieve(collection, retrieval, read_consistency, shard_selection))
        },
    }
}

} // verus!
