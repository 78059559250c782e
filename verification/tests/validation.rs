//! Tests for the pure boundary components: the byte bridge, the error
//! translator, the configuration builder, the resource registry and
//! the scheduling classes.

use sled_nif::bytes::{bin_from_vec, decode, encode};
use sled_nif::config::{config_new, ConfigOption, OptionValue};
use sled_nif::errors::{translate, translate_result, BoundaryError, ConfigError, NativeError};
use sled_nif::facade::{finish_fetch, schedule_class, Operation, ScheduleClass};
use sled_nif::registry::{Registry, ResourceKind};

fn opt(key: &str, value: OptionValue) -> ConfigOption {
    ConfigOption { key: key.to_string(), value }
}

#[test]
fn round_trip_bytes() {
    let input: Vec<u8> = vec![0, 1, 2, 254, 255, 42];
    let term = encode(input.as_slice());
    assert_eq!(decode(&term), input.as_slice());
}

#[test]
fn round_trip_empty() {
    let input: Vec<u8> = Vec::new();
    let term = encode(input.as_slice());
    assert_eq!(decode(&term), &[] as &[u8]);
    assert_eq!(decode(&term).len(), 0);
}

#[test]
fn bin_from_vec_keeps_bytes() {
    let term = bin_from_vec(vec![9, 8, 7]);
    assert_eq!(decode(&term), &[9, 8, 7]);
}

#[test]
fn translate_maps_each_native_kind() {
    assert_eq!(
        translate(NativeError::Io("disk gone".to_string())),
        BoundaryError::Io("disk gone".to_string())
    );
    assert_eq!(
        translate(NativeError::Corruption("bad page".to_string())),
        BoundaryError::Corruption("bad page".to_string())
    );
    assert_eq!(
        translate(NativeError::CollectionNotFound(vec![116])),
        BoundaryError::Collision(vec![116])
    );
    assert_eq!(
        translate(NativeError::ReportableBug("oops".to_string())),
        BoundaryError::InternalBug("oops".to_string())
    );
    assert_eq!(
        translate(NativeError::Unsupported("nope".to_string())),
        BoundaryError::Unsupported("nope".to_string())
    );
}

#[test]
fn translate_result_passes_success_through() {
    let ok: Result<u32, NativeError> = Ok(7);
    assert_eq!(translate_result(ok), Ok(7));
    let err: Result<u32, NativeError> = Err(NativeError::Unsupported("n".to_string()));
    assert_eq!(
        translate_result(err),
        Err(BoundaryError::Unsupported("n".to_string()))
    );
}

#[test]
fn finish_fetch_keeps_absence_distinct_from_error() {
    let present: Result<Option<Vec<u8>>, NativeError> = Ok(Some(vec![1, 2]));
    match finish_fetch(present) {
        Ok(Some(b)) => assert_eq!(decode(&b), &[1, 2]),
        other => panic!("expected a present value, got {:?}", other),
    }
    let absent: Result<Option<Vec<u8>>, NativeError> = Ok(None);
    assert_eq!(finish_fetch(absent), Ok(None));
    let failed: Result<Option<Vec<u8>>, NativeError> =
        Err(NativeError::Io("boom".to_string()));
    assert_eq!(
        finish_fetch(failed),
        Err(BoundaryError::Io("boom".to_string()))
    );
}

#[test]
fn config_rejects_unknown_key() {
    let opts = vec![opt("bogus_option", OptionValue::UInt(1))];
    assert_eq!(
        config_new(&opts),
        Err(ConfigError::UnknownKey("bogus_option".to_string()))
    );
}

#[test]
fn config_errors_carry_their_own_boundary_tag() {
    let err = ConfigError::UnknownKey("bogus_option".to_string());
    assert_eq!(
        err.clone().into_boundary(),
        BoundaryError::ConfigValidation(err)
    );
}

#[test]
fn config_rejects_wrong_type() {
    let opts = vec![opt("path", OptionValue::UInt(3))];
    assert_eq!(
        config_new(&opts),
        Err(ConfigError::WrongType("path".to_string()))
    );
}

#[test]
fn config_rejects_out_of_range_compression() {
    let opts = vec![
        opt("path", OptionValue::Text("/tmp/sled_nif_range".to_string())),
        opt("compression_factor", OptionValue::UInt(23)),
    ];
    assert_eq!(
        config_new(&opts),
        Err(ConfigError::OutOfRange("compression_factor".to_string()))
    );
}

#[test]
fn config_unknown_key_wins_over_missing_path() {
    let opts = vec![
        opt("cache_capacity", OptionValue::UInt(1024)),
        opt("bogus_option", OptionValue::UInt(1)),
    ];
    assert_eq!(
        config_new(&opts),
        Err(ConfigError::UnknownKey("bogus_option".to_string()))
    );
}

#[test]
fn config_rejects_out_of_range_segment_size() {
    let opts = vec![
        opt("path", OptionValue::Text("/tmp/sled_nif_segment".to_string())),
        opt("segment_size", OptionValue::UInt(1000)),
    ];
    assert_eq!(
        config_new(&opts),
        Err(ConfigError::OutOfRange("segment_size".to_string()))
    );
    let too_small = vec![
        opt("path", OptionValue::Text("/tmp/sled_nif_segment".to_string())),
        opt("segment_size", OptionValue::UInt(128)),
    ];
    assert_eq!(
        config_new(&too_small),
        Err(ConfigError::OutOfRange("segment_size".to_string()))
    );
}

#[test]
fn config_requires_a_path() {
    let opts = vec![opt("cache_capacity", OptionValue::UInt(1024))];
    assert_eq!(config_new(&opts), Err(ConfigError::MissingPath));
}

#[test]
fn config_stores_every_recognized_option() {
    let opts = vec![
        opt("path", OptionValue::Text("/tmp/sled_nif_full".to_string())),
        opt("cache_capacity", OptionValue::UInt(4096)),
        opt("flush_every_ms", OptionValue::UInt(250)),
        opt("use_compression", OptionValue::Bool(false)),
        opt("compression_factor", OptionValue::UInt(3)),
        opt("segment_size", OptionValue::UInt(1 << 20)),
        opt("create_new", OptionValue::Bool(true)),
        opt("temporary", OptionValue::Bool(true)),
        opt("print_profile_on_drop", OptionValue::Bool(false)),
    ];
    let c = config_new(&opts).expect("all options are valid");
    assert_eq!(c.path, "/tmp/sled_nif_full");
    assert_eq!(c.cache_capacity, Some(4096));
    assert_eq!(c.flush_every_ms, Some(250));
    assert_eq!(c.use_compression, Some(false));
    assert_eq!(c.compression_factor, Some(3));
    assert_eq!(c.segment_size, Some(1 << 20));
    assert_eq!(c.create_new, Some(true));
    assert_eq!(c.temporary, Some(true));
    assert_eq!(c.print_profile_on_drop, Some(false));
}

#[test]
fn config_later_entry_overrides_earlier() {
    let opts = vec![
        opt("path", OptionValue::Text("/tmp/sled_nif_first".to_string())),
        opt("cache_capacity", OptionValue::UInt(1)),
        opt("path", OptionValue::Text("/tmp/sled_nif_second".to_string())),
        opt("cache_capacity", OptionValue::UInt(2)),
    ];
    let c = config_new(&opts).expect("valid options");
    assert_eq!(c.path, "/tmp/sled_nif_second");
    assert_eq!(c.cache_capacity, Some(2));
    assert_eq!(c.flush_every_ms, None);
}

#[test]
fn registry_registers_kinds_exactly_once() {
    let mut reg = Registry::new();
    assert!(reg.register_kinds());
    assert!(!reg.register_kinds());
}

#[test]
fn registry_wrap_unwrap_checks_kinds() {
    let mut reg = Registry::new();
    assert!(reg.register_kinds());
    let db_token = reg.wrap(ResourceKind::Database);
    let tree_token = reg.wrap(ResourceKind::Tree);
    assert_eq!(reg.unwrap(db_token, ResourceKind::Database), Ok(()));
    assert_eq!(reg.unwrap(tree_token, ResourceKind::Tree), Ok(()));
    assert_eq!(
        reg.unwrap(db_token, ResourceKind::Config),
        Err(BoundaryError::WrongResourceKind {
            expected: ResourceKind::Config,
            found: Some(ResourceKind::Database),
        })
    );
    assert_eq!(
        reg.unwrap(99, ResourceKind::Database),
        Err(BoundaryError::WrongResourceKind {
            expected: ResourceKind::Database,
            found: None,
        })
    );
}

#[test]
fn registry_release_frees_on_last_reference() {
    let mut reg = Registry::new();
    assert!(reg.register_kinds());
    let token = reg.wrap(ResourceKind::Tree);
    assert!(reg.retain(token));
    assert!(reg.release(token));
    assert_eq!(reg.unwrap(token, ResourceKind::Tree), Ok(()));
    assert!(reg.release(token));
    assert_eq!(
        reg.unwrap(token, ResourceKind::Tree),
        Err(BoundaryError::WrongResourceKind {
            expected: ResourceKind::Tree,
            found: None,
        })
    );
    assert!(!reg.release(token));
    assert!(!reg.retain(token));
}

#[test]
fn only_config_building_runs_on_host_threads() {
    assert_eq!(schedule_class(Operation::ConfigNew), ScheduleClass::Host);
    let blocking = [
        Operation::ConfigOpen,
        Operation::Open,
        Operation::DbChecksum,
        Operation::SizeOnDisk,
        Operation::WasRecovered,
        Operation::TreeOpen,
        Operation::TreeDrop,
        Operation::TreeNames,
        Operation::TreeChecksum,
        Operation::Flush,
        Operation::Insert,
        Operation::Get,
        Operation::Remove,
    ];
    for op in blocking {
        assert_eq!(schedule_class(op), ScheduleClass::BlockingIo);
    }
}
