//! The settings of a segment as earlier versions stored them, and how they are read today.

use vstd::prelude::*;
use crate::types::{
    Distance, HnswConfig, Indexes, PayloadStorageType, SegmentConfig, SegmentState,
    SeqNumberType, VectorDataConfig, names_distinct,
};

verus! {

/// Where vectors were kept.
#[derive(Debug, Clone, Copy, PartialEq, Eq, Structural)]
pub enum StorageTypeV5 {
    /// In memory, written out only when vectors change.
    InMemory,
    /// In memory-mapped files: a little slower, with little memory taken.
    Mmap,
}

impl Default for StorageTypeV5 {
    fn default() -> (r: StorageTypeV5)
        ensures
            r == StorageTypeV5::InMemory,
    {
        StorageTypeV5::InMemory
    }
}

/// The settings of one named vector, as they were. `Q` is the type of the quantization
/// settings.
#[derive(Debug, Clone)]
pub struct VectorDataConfigV5<Q> {
    /// The number of components of a vector.
    pub size: usize,
    /// How the distance between two vectors is measured.
    pub distance: Distance,
    /// HNSW settings of this vector, in place of the segment's index.
    pub hnsw_config: Option<HnswConfig>,
    /// Quantization settings of this vector.
    pub quantization_config: Option<Q>,
    /// Whether the vectors are kept on disk; `None` leaves it to the segment's storage type.
    pub on_disk: Option<bool>,
}

/// The settings of a segment, as they were. The vectors are listed by name, no name twice.
#[derive(Debug, Clone)]
pub struct SegmentConfigV5<Q> {
    pub vector_data: Vec<(String, VectorDataConfigV5<Q>)>,
    /// The index used for search.
    pub index: Indexes,
    /// Where vectors are kept.
    pub storage_type: StorageTypeV5,
    /// Where payloads are kept.
    pub payload_storage_type: PayloadStorageType,
    /// Quantization settings; `None` switches quantization off for the whole segment.
    pub quantization_config: Option<Q>,
}

/// A segment's settings, as they were, with the last update it has seen.
#[derive(Debug, Clone)]
pub struct SegmentStateV5<Q> {
    pub version: Option<SeqNumberType>,
    pub config: SegmentConfigV5<Q>,
}

/// One vector's settings in today's form. Its own HNSW settings become its index, else the
/// segment's index does. Its quantization settings stay only where the segment has
/// quantization settings too. It is on disk where it said so, and where it said nothing
/// and the segment kept its vectors memory-mapped.
pub open spec fn migrated_vector<Q>(
    old: VectorDataConfigV5<Q>,
    segment_index: Indexes,
    segment_quantized: bool,
    storage_type: StorageTypeV5,
) -> VectorDataConfig<Q> {
    VectorDataConfig {
        size: old.size,
        distance: old.distance,
        index: match old.hnsw_config {
            Some(hnsw_config) => Indexes::Hnsw(hnsw_config),
            None => segment_index,
        },
        quantization_config: if segment_quantized {
            old.quantization_config
        } else {
            None
        },
        on_disk: match old.on_disk {
            Some(on_disk) => on_disk,
            None => storage_type == StorageTypeV5::Mmap,
        },
    }
}

/// `new` is `old` in today's form: the same vectors under the same names in the same
/// order, each migrated; appendable where the vectors were kept in memory; the payload
/// storage unchanged.
pub open spec fn migrates_to<Q>(old: SegmentConfigV5<Q>, new: SegmentConfig<Q>) -> bool {
    &&& new.vector_data@.len() == old.vector_data@.len()
    &&& forall|i: int|
        0 <= i < old.vector_data@.len() ==> {
            &&& (#[trigger] new.vector_data@[i]).0 == old.vector_data@[i].0
            &&& new.vector_data@[i].1 == migrated_vector(
                old.vector_data@[i].1,
                old.index,
                old.quantization_config is Some,
                old.storage_type,
            )
        }
    &&& new.appendable == (old.storage_type == StorageTypeV5::InMemory)
    &&& new.payload_storage_type == old.payload_storage_type
}

impl<Q> Default for SegmentConfigV5<Q> {
    fn default() -> (r: SegmentConfigV5<Q>)
        ensures
            r.vector_data@.len() == 0,
            r.index == (Indexes::Plain {}),
            r.storage_type == StorageTypeV5::InMemory,
            r.payload_storage_type == PayloadStorageType::InMemory,
            r.quantization_config is None,
    {
        SegmentConfigV5 {
            vector_data: Vec::new(),
            index: Indexes::default(),
            storage_type: StorageTypeV5::default(),
            payload_storage_type: PayloadStorageType::default(),
            quantization_config: None,
        }
    }
}

impl<Q> From<SegmentConfigV5<Q>> for SegmentConfig<Q> {
    /// Reads settings of the earlier form as settings of today's.
    fn from(old_segment: SegmentConfigV5<Q>) -> (r: SegmentConfig<Q>)
        ensures
            migrates_to(old_segment, r),
    {
        let SegmentConfigV5 {
            vector_data: old_vectors,
            index,
            storage_type,
            payload_storage_type,
            quantization_config,
        } = old_segment;
        let segment_quantized = quantization_config.is_some();
        let ghost all = old_vectors@;
        let mut vector_data: Vec<(String, VectorDataConfig<Q>)> = Vec::new();
        for entry in it: old_vectors.into_iter()
            invariant
                it.seq() == all,
                vector_data@.len() == it.index(),
                forall|i: int|
                    0 <= i < vector_data@.len() ==> {
                        &&& (#[trigger] vector_data@[i]).0 == all[i].0
                        &&& vector_data@[i].1 == migrated_vector(
                            all[i].1,
                            index,
                            segment_quantized,
                            storage_type,
                        )
                    },
        {
            let (vector_name, old_data) = entry;
            let new_data = VectorDataConfig {
                size: old_data.size,
                distance: old_data.distance,
                index: match old_data.hnsw_config {
                    Some(hnsw_config) => Indexes::Hnsw(hnsw_config),
                    None => index,
                },
                quantization_config: if segment_quantized {
                    old_data.quantization_config
                } else {
                    None
                },
                on_disk: match old_data.on_disk {
                    Some(on_disk) => on_disk,
                    None => storage_type == StorageTypeV5::Mmap,
                },
            };
            vector_data.push((vector_name, new_data));
        }
        let appendable = storage_type == StorageTypeV5::InMemory;
        SegmentConfig { vector_data, appendable, payload_storage_type }
    }
}

impl<Q> vstd::std_specs::convert::FromSpecImpl<SegmentConfigV5<Q>> for SegmentConfig<Q> {
    /// Ghost code can view a list but cannot build one, so what `from` returns is stated
    /// over views, in its own `ensures`.
    open spec fn obeys_from_spec() -> bool {
        false
    }

    open spec fn from_spec(old_segment: SegmentConfigV5<Q>) -> SegmentConfig<Q> {
        choose|new: SegmentConfig<Q>| migrates_to(old_segment, new)
    }
}

impl<Q> From<SegmentStateV5<Q>> for SegmentState<Q> {
    /// Reads a state of the earlier form as a state of today's.
    fn from(old: SegmentStateV5<Q>) -> (r: SegmentState<Q>)
        ensures
            r.version == old.version,
            migrates_to(old.config, r.config),
    {
        SegmentState { version: old.version, config: SegmentConfig::from(old.config) }
    }
}

impl<Q> vstd::std_specs::convert::FromSpecImpl<SegmentStateV5<Q>> for SegmentState<Q> {
    /// See `SegmentConfig`: what `from` returns is stated in its own `ensures`.
    open spec fn obeys_from_spec() -> bool {
        false
    }

    open spec fn from_spec(old: SegmentStateV5<Q>) -> SegmentState<Q> {
        choose|new: SegmentState<Q>|
            new.version == old.version && migrates_to(old.config, new.config)
    }
}

/// Migration keeps the names apart: where no name occurred twice, none does afterwards.
pub proof fn lemma_migration_keeps_names_distinct<Q>(
    old: SegmentConfigV5<Q>,
    new: SegmentConfig<Q>,
)
    requires
        migrates_to(old, new),
        names_distinct(old.vector_data@),
    ensures
        names_distinct(new.vector_data@),
{
    assert forall|i: int, j: int| 0 <= i < j < new.vector_data@.len() implies new.vector_data@[i].0@
        != new.vector_data@[j].0@ by {
        assert(new.vector_data@[i].0 == old.vector_data@[i].0);
        assert(new.vector_data@[j].0 == old.vector_data@[j].0);
    }
}

} // verus!
