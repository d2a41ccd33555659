use basin_admin::{
    AppendRecord, BasinConfig, CanonicalAppendRecord, CanonicalBasinConfig, CanonicalHeader,
    CanonicalRetentionPolicy, CanonicalStorageClass, CanonicalStreamConfig, Duration, Header,
    RetentionPolicy, StorageClass, StreamConfig,
};

const USER_CLASSES: [StorageClass; 3] =
    [StorageClass::Unspecified, StorageClass::Standard, StorageClass::Express];

const CANONICAL_CLASSES: [CanonicalStorageClass; 3] = [
    CanonicalStorageClass::Unspecified,
    CanonicalStorageClass::Standard,
    CanonicalStorageClass::Express,
];

#[test]
fn storage_class_maps_by_name() {
    assert_eq!(
        CanonicalStorageClass::from(StorageClass::Unspecified),
        CanonicalStorageClass::Unspecified
    );
    assert_eq!(CanonicalStorageClass::from(StorageClass::Standard), CanonicalStorageClass::Standard);
    assert_eq!(CanonicalStorageClass::from(StorageClass::Express), CanonicalStorageClass::Express);
    assert_eq!(StorageClass::from(CanonicalStorageClass::Unspecified), StorageClass::Unspecified);
    assert_eq!(StorageClass::from(CanonicalStorageClass::Standard), StorageClass::Standard);
    assert_eq!(StorageClass::from(CanonicalStorageClass::Express), StorageClass::Express);
}

#[test]
fn storage_class_round_trips_both_ways() {
    for class in USER_CLASSES {
        assert_eq!(StorageClass::from(CanonicalStorageClass::from(class)), class);
    }
    for class in CANONICAL_CLASSES {
        assert_eq!(CanonicalStorageClass::from(StorageClass::from(class)), class);
    }
}

#[test]
fn storage_class_conversion_hits_every_canonical_value_once() {
    let images: Vec<CanonicalStorageClass> =
        USER_CLASSES.iter().map(|class| CanonicalStorageClass::from(*class)).collect();
    for class in CANONICAL_CLASSES {
        assert_eq!(images.iter().filter(|image| **image == class).count(), 1);
    }
}

#[test]
fn basin_config_without_default_stays_without() {
    let canonical = CanonicalBasinConfig::from(BasinConfig { default_stream_config: None });
    assert_eq!(canonical, CanonicalBasinConfig { default_stream_config: None });
    assert_eq!(canonical.default_stream_config, None);
}

#[test]
fn basin_config_with_default_carries_its_canonical_form() {
    let stream = StreamConfig {
        storage_class: Some(StorageClass::Express),
        retention_policy: Some(RetentionPolicy::Age(Duration::from_secs(3_600))),
    };
    let canonical = CanonicalBasinConfig::from(BasinConfig { default_stream_config: Some(stream) });
    assert_eq!(canonical.default_stream_config, Some(CanonicalStreamConfig::from(stream)));
    assert_eq!(
        canonical.default_stream_config,
        Some(CanonicalStreamConfig {
            storage_class: CanonicalStorageClass::Express,
            retention_policy: Some(CanonicalRetentionPolicy::Age(Duration {
                secs: 3_600,
                nanos: 0
            })),
        })
    );
}

#[test]
fn basin_config_with_empty_default_is_not_the_same_as_none() {
    let empty = StreamConfig { storage_class: None, retention_policy: None };
    let with_empty =
        CanonicalBasinConfig::from(BasinConfig { default_stream_config: Some(empty) });
    let without = CanonicalBasinConfig::from(BasinConfig { default_stream_config: None });
    assert_ne!(with_empty, without);
    assert_eq!(
        with_empty.default_stream_config,
        Some(CanonicalStreamConfig {
            storage_class: CanonicalStorageClass::Unspecified,
            retention_policy: None,
        })
    );
}

#[test]
fn basin_config_from_canonical() {
    let canonical = CanonicalBasinConfig {
        default_stream_config: Some(CanonicalStreamConfig {
            storage_class: CanonicalStorageClass::Standard,
            retention_policy: None,
        }),
    };
    assert_eq!(
        BasinConfig::from(canonical),
        BasinConfig {
            default_stream_config: Some(StreamConfig {
                storage_class: Some(StorageClass::Standard),
                retention_policy: None,
            }),
        }
    );
    assert_eq!(CanonicalBasinConfig::from(BasinConfig::from(canonical)), canonical);
    assert_eq!(
        BasinConfig::from(CanonicalBasinConfig { default_stream_config: None }),
        BasinConfig { default_stream_config: None }
    );
}

#[test]
fn absent_storage_class_resolves_to_unspecified() {
    for retention_policy in [None, Some(RetentionPolicy::Age(Duration::from_secs(60)))] {
        let canonical =
            CanonicalStreamConfig::from(StreamConfig { storage_class: None, retention_policy });
        assert_eq!(canonical.storage_class, CanonicalStorageClass::Unspecified);
        assert_ne!(canonical.storage_class, CanonicalStorageClass::Standard);
        assert_ne!(canonical.storage_class, CanonicalStorageClass::Express);
    }
}

#[test]
fn absent_retention_policy_stays_absent() {
    let canonical = CanonicalStreamConfig::from(StreamConfig {
        storage_class: Some(StorageClass::Standard),
        retention_policy: None,
    });
    assert_eq!(
        canonical,
        CanonicalStreamConfig {
            storage_class: CanonicalStorageClass::Standard,
            retention_policy: None
        }
    );
}

#[test]
fn stream_config_from_canonical_always_shows_a_storage_class() {
    for class in CANONICAL_CLASSES {
        let shown = StreamConfig::from(CanonicalStreamConfig {
            storage_class: class,
            retention_policy: None,
        });
        assert_eq!(shown.storage_class, Some(StorageClass::from(class)));
        assert_eq!(shown.retention_policy, None);
    }
    let shown = StreamConfig::from(CanonicalStreamConfig {
        storage_class: CanonicalStorageClass::Unspecified,
        retention_policy: Some(CanonicalRetentionPolicy::Age(Duration { secs: 7, nanos: 5 })),
    });
    assert_eq!(
        shown,
        StreamConfig {
            storage_class: Some(StorageClass::Unspecified),
            retention_policy: Some(RetentionPolicy::Age(Duration { secs: 7, nanos: 5 })),
        }
    );
}

#[test]
fn stream_config_round_trip_changes_only_an_absent_storage_class() {
    let policy = Some(RetentionPolicy::Age(Duration { secs: 86_400, nanos: 0 }));
    let absent = StreamConfig { storage_class: None, retention_policy: policy };
    assert_eq!(
        StreamConfig::from(CanonicalStreamConfig::from(absent)),
        StreamConfig { storage_class: Some(StorageClass::Unspecified), retention_policy: policy }
    );
    for class in USER_CLASSES {
        let config = StreamConfig { storage_class: Some(class), retention_policy: policy };
        assert_eq!(StreamConfig::from(CanonicalStreamConfig::from(config)), config);
    }
    for class in CANONICAL_CLASSES {
        let canonical = CanonicalStreamConfig { storage_class: class, retention_policy: None };
        assert_eq!(CanonicalStreamConfig::from(StreamConfig::from(canonical)), canonical);
    }
}

#[test]
fn retention_policy_keeps_its_duration_both_ways() {
    let age = Duration { secs: 86_400, nanos: 250 };
    assert_eq!(
        CanonicalRetentionPolicy::from(RetentionPolicy::Age(age)),
        CanonicalRetentionPolicy::Age(age)
    );
    assert_eq!(
        RetentionPolicy::from(CanonicalRetentionPolicy::Age(age)),
        RetentionPolicy::Age(age)
    );
    assert_eq!(
        RetentionPolicy::from(CanonicalRetentionPolicy::from(RetentionPolicy::Age(age))),
        RetentionPolicy::Age(age)
    );
}

#[test]
fn header_keeps_name_and_value() {
    let canonical = CanonicalHeader::from(Header { name: b"k".to_vec(), value: vec![0, 255, 7] });
    assert_eq!(canonical, CanonicalHeader { name: vec![b'k'], value: vec![0, 255, 7] });
}

#[test]
fn record_keeps_headers_in_order_and_body() {
    let record = AppendRecord {
        headers: vec![
            Header { name: b"first".to_vec(), value: b"1".to_vec() },
            Header { name: b"second".to_vec(), value: Vec::new() },
            Header { name: b"first".to_vec(), value: b"again".to_vec() },
        ],
        body: b"payload".to_vec(),
    };
    let canonical = CanonicalAppendRecord::from(record);
    assert_eq!(
        canonical,
        CanonicalAppendRecord {
            headers: vec![
                CanonicalHeader { name: b"first".to_vec(), value: b"1".to_vec() },
                CanonicalHeader { name: b"second".to_vec(), value: Vec::new() },
                CanonicalHeader { name: b"first".to_vec(), value: b"again".to_vec() },
            ],
            body: b"payload".to_vec(),
        }
    );
}

#[test]
fn record_without_headers_or_body_converts_as_it_is() {
    let canonical = CanonicalAppendRecord::from(AppendRecord { headers: vec![], body: vec![] });
    assert_eq!(canonical, CanonicalAppendRecord { headers: vec![], body: vec![] });
}

#[test]
fn record_conversion_checks_nothing() {
    let body = vec![0u8; 70_000];
    let canonical = CanonicalAppendRecord::from(AppendRecord {
        headers: vec![Header { name: Vec::new(), value: vec![0xff, 0xfe] }],
        body: body.clone(),
    });
    assert_eq!(canonical.body, body);
    assert_eq!(canonical.headers, vec![CanonicalHeader { name: vec![], value: vec![0xff, 0xfe] }]);
}
