use soy_native::error::Error;
use soy_native::open_opts::{CompactionStyle, SoyOpenOpts};
use soy_native::read_opts::SoyReadOpts;
use soy_native::write_opts::SoyWriteOpts;
use soy_native::{
    checkpoint_allowed, db_checkpoint, db_create_new_cf, db_opened, do_get_property,
    do_get_string_property, get_cf_handle, ok_or_err, path_open_db, OpenPlan, Prop, PropStep,
    SoyResource, SoyResourceKind,
};

#[test]
fn a_found_column_family_is_handed_on() {
    assert_eq!(get_cf_handle(Some(7u32), "idx"), Ok(7u32));
    assert_eq!(get_cf_handle(Some("handle"), ""), Ok("handle"));
}

#[test]
fn a_missing_column_family_is_named_in_the_error() {
    assert_eq!(
        get_cf_handle(None::<u32>, "idx"),
        Err(Error::ColumnFamilyDoesNotExist("idx".to_string()))
    );
    assert_eq!(
        get_cf_handle(None::<u32>, ""),
        Err(Error::ColumnFamilyDoesNotExist(String::new()))
    );
}

#[test]
fn a_column_family_is_created_only_where_none_is_open() {
    assert_eq!(db_create_new_cf(false, "idx"), Ok(()));
    assert_eq!(
        db_create_new_cf(true, "idx"),
        Err(Error::ColumnFamilyAlreadyExists("idx".to_string()))
    );
}

#[test]
fn a_write_outcome_becomes_a_write_error() {
    assert_eq!(ok_or_err(Ok(())), Ok(()));
    assert_eq!(
        ok_or_err(Err("Corruption: bad block".to_string())),
        Err(Error::WriteError("Corruption: bad block".to_string()))
    );
}

#[test]
fn known_column_families_are_opened_with_the_database() {
    let names = vec!["default".to_string(), "idx".to_string()];
    assert_eq!(path_open_db::<()>(Ok(names.clone())), OpenPlan::WithColumnFamilies(names));
    assert_eq!(path_open_db::<()>(Ok(Vec::new())), OpenPlan::WithColumnFamilies(Vec::new()));
    assert_eq!(path_open_db(Err("no such database")), OpenPlan::DefaultOnly);
}

#[test]
fn an_open_outcome_becomes_an_open_error() {
    assert_eq!(db_opened(Ok(5u8)), Ok(5u8));
    assert_eq!(
        db_opened::<u8>(Err("IO error: no such directory".to_string())),
        Err(Error::OpenError("IO error: no such directory".to_string()))
    );
}

#[test]
fn a_checkpoint_at_the_database_path_is_refused() {
    assert_eq!(db_checkpoint("/data/db", "/data/db"), Err(Error::CheckpointInvalidArgument));
    assert_eq!(db_checkpoint("", ""), Err(Error::CheckpointInvalidArgument));
    assert_eq!(checkpoint_allowed(true), Err(Error::CheckpointInvalidArgument));
}

#[test]
fn a_checkpoint_elsewhere_is_allowed() {
    assert_eq!(db_checkpoint("/data/db", "/data/backup"), Ok(()));
    assert_eq!(db_checkpoint("/data/db", "/data/db2"), Ok(()));
    assert_eq!(db_checkpoint("/data/db", "data/db"), Ok(()));
    assert_eq!(checkpoint_allowed(false), Ok(()));
}

#[test]
fn checkpoint_paths_are_compared_as_paths() {
    assert_eq!(db_checkpoint("/data/db", "/data/db/"), Err(Error::CheckpointInvalidArgument));
    assert_eq!(db_checkpoint("/data//db", "/data/db"), Err(Error::CheckpointInvalidArgument));
    assert_eq!(db_checkpoint("/data/./db", "/data/db"), Err(Error::CheckpointInvalidArgument));
    assert_eq!(db_checkpoint("/data/db", "/DATA/db"), Ok(()));
}

#[test]
fn an_integer_property_is_settled_at_once() {
    assert_eq!(do_get_property::<()>(Ok(Some(42))), PropStep::Done(Some(Prop::Int(42))));
    assert_eq!(do_get_property::<()>(Ok(Some(0))), PropStep::Done(Some(Prop::Int(0))));
    assert_eq!(do_get_property::<()>(Ok(None)), PropStep::Done(None));
}

#[test]
fn a_property_that_is_no_integer_is_asked_as_a_string() {
    assert_eq!(do_get_property(Err("not an integer")), PropStep::AskString);
    assert_eq!(
        do_get_string_property(Some("level 0: 3 files".to_string())),
        Some(Prop::String("level 0: 3 files".to_string()))
    );
    assert_eq!(do_get_string_property(None), None);
}

#[test]
fn every_error_has_its_message() {
    assert_eq!(
        Error::ColumnFamilyDoesNotExist("idx".to_string()).message(),
        "column family does not exist: idx"
    );
    assert_eq!(
        Error::ColumnFamilyAlreadyExists("idx".to_string()).message(),
        "column family already exists: idx"
    );
    assert_eq!(
        Error::OpenError("lock held".to_string()).message(),
        "failed to open database: lock held"
    );
    assert_eq!(
        Error::WalIteratorCreationError("too old".to_string()).message(),
        "failed to create wal iterator: too old"
    );
    assert_eq!(Error::WriteError("disk full".to_string()).message(), "write failed: disk full");
    assert_eq!(
        Error::CheckpointInvalidArgument.message(),
        "checkpoint path cannot be the same as the db path"
    );
    assert_eq!(Error::DecodeError.message(), "invalid integer operand");
}

#[test]
fn default_read_options() {
    let opts = SoyReadOpts::default();
    assert_eq!(opts.fill_cache, Some(true));
    assert_eq!(opts.set_background_purge_on_iterator_cleanup, Some(false));
    assert_eq!(opts.set_ignore_range_deletions, Some(false));
    assert_eq!(opts.set_iterate_lower_bound, None);
    assert_eq!(opts.set_iterate_upper_bound, None);
    assert_eq!(opts.set_max_skippable_internal_keys, Some(0));
    assert_eq!(opts.set_pin_data, Some(false));
    assert_eq!(opts.set_prefix_same_as_start, Some(false));
    assert_eq!(opts.set_readahead_size, Some(0));
    assert_eq!(opts.set_tailing, None);
    assert_eq!(opts.set_total_order_seek, None);
    assert_eq!(opts.set_verify_checksums, Some(true));
}

#[test]
fn default_write_options() {
    let opts = SoyWriteOpts::default();
    assert_eq!(
        opts,
        SoyWriteOpts {
            disable_wal: false,
            set_ignore_missing_column_families: false,
            set_low_pri: false,
            set_memtable_insert_hint_per_batch: false,
            set_no_slowdown: false,
            set_sync: false,
        }
    );
}

#[test]
fn open_options_hold_what_they_are_given() {
    let opts = SoyOpenOpts {
        create_if_missing: Some(true),
        create_missing_column_families: None,
        set_max_open_files: Some(-1),
        set_use_fsync: None,
        set_bytes_per_sync: None,
        optimize_for_point_lookup: None,
        set_table_cache_num_shard_bits: None,
        set_max_write_buffer_number: None,
        set_write_buffer_size: None,
        set_target_file_size_base: None,
        set_min_write_buffer_number_to_merge: None,
        set_level_zero_stop_writes_trigger: None,
        set_level_zero_slowdown_writes_trigger: Some(20),
        set_disable_auto_compactions: None,
        set_compaction_style: Some(CompactionStyle::Level),
        set_merge_operator_associative: None,
        prefix_length: Some(4),
    };
    assert_eq!(opts.create_if_missing, Some(true));
    assert_eq!(opts.set_level_zero_slowdown_writes_trigger, Some(20));
    assert_eq!(opts.set_compaction_style, Some(CompactionStyle::Level));
    assert_eq!(opts.prefix_length, Some(4));
}

#[test]
fn a_resource_knows_its_kind() {
    type Resource = SoyResource<u8, u16, u32, u64>;
    assert_eq!(Resource::Db(1).kind(), SoyResourceKind::Db);
    assert_eq!(Resource::DbCf(2).kind(), SoyResourceKind::DbCf);
    assert_eq!(Resource::Ss(3).kind(), SoyResourceKind::Ss);
    assert_eq!(Resource::SsCf(4).kind(), SoyResourceKind::SsCf);
}

#[test]
fn resource_kinds_are_distinct() {
    let kinds = [
        SoyResourceKind::Db,
        SoyResourceKind::DbCf,
        SoyResourceKind::Ss,
        SoyResourceKind::SsCf,
    ];
    for (i, a) in kinds.iter().enumerate() {
        for (j, b) in kinds.iter().enumerate() {
            assert_eq!(a == b, i == j);
        }
    }
}
