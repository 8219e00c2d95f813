//! The settings of a segment, in their current form.

use vstd::prelude::*;

verus! {

/// The sequence number of an update.
pub type SeqNumberType = u64;

/// How the distance between two vectors is measured.
#[derive(Debug, Clone, Copy, PartialEq, Eq, Hash, Structural)]
pub enum Distance {
    Cosine,
    Euclid,
    Dot,
}

/// Where payloads are kept.
#[derive(Debug, Clone, Copy, PartialEq, Eq, Hash, Structural)]
pub enum PayloadStorageType {
    InMemory,
    OnDisk,
}

impl Default for PayloadStorageType {
    fn default() -> (r: PayloadStorageType)
        ensures
            r == PayloadStorageType::InMemory,
    {
        PayloadStorageType::InMemory
    }
}

/// The settings of an HNSW index.
#[derive(Debug, Clone, Copy, PartialEq, Eq, Hash, Structural)]
pub struct HnswConfig {
    pub m: usize,
    pub ef_construct: usize,
    pub full_scan_threshold: usize,
    pub max_indexing_threads: usize,
    pub on_disk: Option<bool>,
    pub payload_m: Option<usize>,
}

/// The index kept over the vectors.
#[derive(Debug, Clone, Copy, PartialEq, Eq, Hash, Structural)]
pub enum Indexes {
    Plain {},
    Hnsw(HnswConfig),
}

impl Default for Indexes {
    fn default() -> (r: Indexes)
        ensures
            r == (Indexes::Plain {}),
    {
        Indexes::Plain {}
    }
}

/// The settings of one named vector. `Q` is the type of the quantization settings, which
/// are carried along and never looked into.
#[derive(Debug, Clone, PartialEq)]
pub struct VectorDataConfig<Q> {
    pub size: usize,
    pub distance: Distance,
    pub index: Indexes,
    pub quantization_config: Option<Q>,
    pub on_disk: bool,
}

/// The settings of a segment. The vectors are listed by name, no name twice.
#[derive(Debug, Clone, PartialEq)]
pub struct SegmentConfig<Q> {
    pub vector_data: Vec<(String, VectorDataConfig<Q>)>,
    pub appendable: bool,
    pub payload_storage_type: PayloadStorageType,
}

/// A segment's settings with the last update it has seen.
#[derive(Debug, Clone, PartialEq)]
pub struct SegmentState<Q> {
    pub version: Option<SeqNumberType>,
    pub config: SegmentConfig<Q>,
}

/// No name occurs twice in the list.
pub open spec fn names_distinct<T>(entries: Seq<(String, T)>) -> bool {
    forall|i: int, j: int| 0 <= i < j < entries.len() ==> entries[i].0@ != entries[j].0@
}

} // verus!
