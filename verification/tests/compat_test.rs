use collection_lookup::compat::{
    SegmentConfigV5, SegmentStateV5, StorageTypeV5, VectorDataConfigV5,
};
use collection_lookup::types::{
    Distance, HnswConfig, Indexes, PayloadStorageType, SegmentConfig, SegmentState,
    VectorDataConfig,
};

fn hnsw(m: usize) -> HnswConfig {
    HnswConfig {
        m,
        ef_construct: 100,
        full_scan_threshold: 10_000,
        max_indexing_threads: 0,
        on_disk: None,
        payload_m: None,
    }
}

fn vector(
    hnsw_config: Option<HnswConfig>,
    quantization_config: Option<f32>,
    on_disk: Option<bool>,
) -> VectorDataConfigV5<f32> {
    VectorDataConfigV5 { size: 4, distance: Distance::Dot, hnsw_config, quantization_config, on_disk }
}

fn segment(
    vectors: Vec<(&str, VectorDataConfigV5<f32>)>,
    index: Indexes,
    storage_type: StorageTypeV5,
    quantization_config: Option<f32>,
) -> SegmentConfigV5<f32> {
    SegmentConfigV5 {
        vector_data: vectors.into_iter().map(|(name, data)| (name.to_string(), data)).collect(),
        index,
        storage_type,
        payload_storage_type: PayloadStorageType::OnDisk,
        quantization_config,
    }
}

#[test]
fn an_empty_segment_migrates() {
    let new: SegmentConfig<f32> = SegmentConfigV5::default().into();
    assert_eq!(
        new,
        SegmentConfig {
            vector_data: vec![],
            appendable: true,
            payload_storage_type: PayloadStorageType::InMemory,
        }
    );
}

#[test]
fn defaults_of_the_earlier_form() {
    assert_eq!(StorageTypeV5::default(), StorageTypeV5::InMemory);
    assert_eq!(Indexes::default(), Indexes::Plain {});
    assert_eq!(PayloadStorageType::default(), PayloadStorageType::InMemory);
    let old: SegmentConfigV5<f32> = SegmentConfigV5::default();
    assert!(old.vector_data.is_empty());
    assert_eq!(old.index, Indexes::Plain {});
    assert_eq!(old.storage_type, StorageTypeV5::InMemory);
    assert_eq!(old.quantization_config, None);
}

#[test]
fn a_vector_takes_its_own_hnsw_settings_or_the_segment_index() {
    let old = segment(
        vec![("own", vector(Some(hnsw(16)), None, None)), ("none", vector(None, None, None))],
        Indexes::Hnsw(hnsw(32)),
        StorageTypeV5::InMemory,
        None,
    );
    let new = SegmentConfig::from(old);
    assert_eq!(new.vector_data.len(), 2);
    assert_eq!(new.vector_data[0].0, "own");
    assert_eq!(new.vector_data[0].1.index, Indexes::Hnsw(hnsw(16)));
    assert_eq!(new.vector_data[1].0, "none");
    assert_eq!(new.vector_data[1].1.index, Indexes::Hnsw(hnsw(32)));

    let plain = segment(
        vec![("none", vector(None, None, None))],
        Indexes::Plain {},
        StorageTypeV5::InMemory,
        None,
    );
    assert_eq!(SegmentConfig::from(plain).vector_data[0].1.index, Indexes::Plain {});
}

#[test]
fn quantization_of_a_vector_stays_only_with_quantization_of_the_segment() {
    let vectors =
        || vec![("a", vector(None, Some(0.5), None)), ("b", vector(None, None, None))];
    let without = SegmentConfig::from(segment(
        vectors(),
        Indexes::Plain {},
        StorageTypeV5::InMemory,
        None,
    ));
    assert_eq!(without.vector_data[0].1.quantization_config, None);
    assert_eq!(without.vector_data[1].1.quantization_config, None);

    let with = SegmentConfig::from(segment(
        vectors(),
        Indexes::Plain {},
        StorageTypeV5::InMemory,
        Some(0.99),
    ));
    assert_eq!(with.vector_data[0].1.quantization_config, Some(0.5));
    assert_eq!(with.vector_data[1].1.quantization_config, None);
}

#[test]
fn on_disk_follows_the_flag_and_else_the_storage_type() {
    let vectors = || {
        vec![
            ("unset", vector(None, None, None)),
            ("yes", vector(None, None, Some(true))),
            ("no", vector(None, None, Some(false))),
        ]
    };
    let mmap =
        SegmentConfig::from(segment(vectors(), Indexes::Plain {}, StorageTypeV5::Mmap, None));
    assert!(!mmap.appendable);
    assert_eq!(
        mmap.vector_data.iter().map(|(_, data)| data.on_disk).collect::<Vec<_>>(),
        vec![true, true, false]
    );
    let in_memory =
        SegmentConfig::from(segment(vectors(), Indexes::Plain {}, StorageTypeV5::InMemory, None));
    assert!(in_memory.appendable);
    assert_eq!(
        in_memory.vector_data.iter().map(|(_, data)| data.on_disk).collect::<Vec<_>>(),
        vec![false, true, false]
    );
}

#[test]
fn a_whole_segment_migrates() {
    let old = segment(
        vec![("image", vector(Some(hnsw(8)), Some(0.25), None)), ("", vector(None, None, None))],
        Indexes::Plain {},
        StorageTypeV5::Mmap,
        Some(0.75),
    );
    assert_eq!(
        SegmentConfig::from(old),
        SegmentConfig {
            vector_data: vec![
                (
                    "image".to_string(),
                    VectorDataConfig {
                        size: 4,
                        distance: Distance::Dot,
                        index: Indexes::Hnsw(hnsw(8)),
                        quantization_config: Some(0.25),
                        on_disk: true,
                    }
                ),
                (
                    "".to_string(),
                    VectorDataConfig {
                        size: 4,
                        distance: Distance::Dot,
                        index: Indexes::Plain {},
                        quantization_config: None,
                        on_disk: true,
                    }
                ),
            ],
            appendable: false,
            payload_storage_type: PayloadStorageType::OnDisk,
        }
    );
}

#[test]
fn a_state_keeps_its_version() {
    let old = SegmentStateV5 {
        version: Some(17),
        config: segment(
            vec![("v", vector(None, None, None))],
            Indexes::Plain {},
            StorageTypeV5::InMemory,
            None,
        ),
    };
    let expected = SegmentConfig::from(old.config.clone());
    let new = SegmentState::from(old);
    assert_eq!(new.version, Some(17));
    assert_eq!(new.config, expected);

    let fresh: SegmentState<f32> =
        SegmentStateV5 { version: None, config: SegmentConfigV5::default() }.into();
    assert_eq!(fresh.version, None);
    assert!(fresh.config.appendable);
}
