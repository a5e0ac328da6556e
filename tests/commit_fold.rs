use lakesoul_metadata::commit::{fold_commit, partition_desc_list, table_domain};
use lakesoul_metadata::entity::{CommitOp, MetaInfo, PartitionInfo, TableInfo, Uuid};
use lakesoul_metadata::error::MetaError;
use lakesoul_metadata::ingest::{
    commit_op_of, plan_commit_info, single_commit_meta_info, CommitInfoPlan,
};
use lakesoul_metadata::entity::{DataCommitInfo, DataFileOp};

fn table(id: &str) -> TableInfo {
    TableInfo {
        table_id: id.to_string(),
        table_namespace: "default".to_string(),
        table_name: "t".to_string(),
        table_path: "s3://bucket/t".to_string(),
        table_schema: "{}".to_string(),
        properties: "{}".to_string(),
        partitions: "date".to_string(),
        domain: "public".to_string(),
    }
}

fn id(n: u64) -> Uuid {
    Uuid { high: n, low: n + 100 }
}

fn partition(table_id: &str, desc: &str, version: i32, snapshot: Vec<Uuid>, expr: &str) -> PartitionInfo {
    PartitionInfo {
        table_id: table_id.to_string(),
        partition_desc: desc.to_string(),
        version,
        commit_op: 1,
        timestamp: 42,
        snapshot,
        expression: expr.to_string(),
        domain: "other".to_string(),
    }
}

fn meta(table_id: &str, parts: Vec<PartitionInfo>) -> MetaInfo {
    MetaInfo { list_partition: parts, table_info: Some(table(table_id)), read_partition_info: vec![] }
}

fn commit(committed: bool, op: i32) -> DataCommitInfo {
    DataCommitInfo {
        table_id: "tid".to_string(),
        partition_desc: "date=1".to_string(),
        commit_id: id(7),
        file_ops: vec![DataFileOp {
            path: "a/1".to_string(),
            file_op: 0,
            size: 10,
            file_exist_cols: String::new(),
        }],
        commit_op: op,
        timestamp: 5,
        committed,
        domain: "public".to_string(),
    }
}

#[test]
fn append_into_existing_partition_advances_version() {
    let current = vec![partition("tid", "date=1", 4, vec![id(1), id(2)], "old")];
    let m = meta("tid", vec![partition("tid", "date=1", 0, vec![id(3)], "new")]);
    let out = fold_commit(&m, &current, CommitOp::AppendCommit).unwrap();
    assert_eq!(out.len(), 1);
    assert_eq!(out[0].version, 5);
    assert_eq!(out[0].snapshot, vec![id(1), id(2), id(3)]);
    assert_eq!(out[0].commit_op, 1);
    assert_eq!(out[0].expression, "new");
    assert_eq!(out[0].domain, "public");
    assert_eq!(out[0].timestamp, 42);
}

#[test]
fn merge_into_new_partition_starts_at_version_zero() {
    let m = meta("tid", vec![partition("other", "date=2", 9, vec![id(3), id(4)], "e")]);
    let out = fold_commit(&m, &vec![], CommitOp::MergeCommit).unwrap();
    assert_eq!(out.len(), 1);
    assert_eq!(out[0].table_id, "tid");
    assert_eq!(out[0].partition_desc, "date=2");
    assert_eq!(out[0].version, 0);
    assert_eq!(out[0].snapshot, vec![id(3), id(4)]);
    assert_eq!(out[0].commit_op, 2);
    assert_eq!(out[0].timestamp, 0);
    assert_eq!(out[0].domain, "public");
}

#[test]
fn consecutive_appends_keep_call_order() {
    let m1 = meta("tid", vec![partition("tid", "p", 0, vec![id(1)], "")]);
    let first = fold_commit(&m1, &vec![], CommitOp::AppendCommit).unwrap();
    let m2 = meta("tid", vec![partition("tid", "p", 0, vec![id(2)], "")]);
    let second = fold_commit(&m2, &first, CommitOp::AppendCommit).unwrap();
    let m3 = meta("tid", vec![partition("tid", "p", 0, vec![id(3), id(4)], "")]);
    let third = fold_commit(&m3, &second, CommitOp::AppendCommit).unwrap();
    assert_eq!(first[0].version, 0);
    assert_eq!(second[0].version, 1);
    assert_eq!(third[0].version, 2);
    assert_eq!(third[0].snapshot, vec![id(1), id(2), id(3), id(4)]);
}

#[test]
fn later_current_record_wins() {
    let current = vec![
        partition("tid", "p", 1, vec![id(1)], ""),
        partition("tid", "q", 8, vec![id(9)], ""),
        partition("tid", "p", 3, vec![id(2)], ""),
    ];
    let m = meta("tid", vec![partition("tid", "p", 0, vec![id(5)], ""), partition("tid", "r", 0, vec![id(6)], "")]);
    let out = fold_commit(&m, &current, CommitOp::AppendCommit).unwrap();
    assert_eq!(out.len(), 2);
    assert_eq!(out[0].version, 4);
    assert_eq!(out[0].snapshot, vec![id(2), id(5)]);
    assert_eq!(out[1].version, 0);
    assert_eq!(out[1].snapshot, vec![id(6)]);
}

#[test]
fn duplicate_snapshot_entries_are_kept() {
    let current = vec![partition("tid", "p", 0, vec![id(1)], "")];
    let m = meta("tid", vec![partition("tid", "p", 0, vec![id(1)], "")]);
    let out = fold_commit(&m, &current, CommitOp::AppendCommit).unwrap();
    assert_eq!(out[0].snapshot, vec![id(1), id(1)]);
}

#[test]
fn other_commit_operations_are_refused() {
    let m = meta("tid", vec![partition("tid", "p", 0, vec![id(1)], "")]);
    for op in [CommitOp::CompactionCommit, CommitOp::UpdateCommit, CommitOp::DeleteCommit] {
        match fold_commit(&m, &vec![], op) {
            Err(MetaError::Unsupported(o)) => assert_eq!(o, op),
            other => panic!("unexpected {:?}", other),
        }
    }
}

#[test]
fn version_at_maximum_is_an_error() {
    let current = vec![partition("tid", "p", i32::MAX, vec![id(1)], "")];
    let m = meta("tid", vec![partition("tid", "p", 0, vec![id(2)], "")]);
    match fold_commit(&m, &current, CommitOp::AppendCommit) {
        Err(MetaError::VersionOverflow(d)) => assert_eq!(d, "p"),
        other => panic!("unexpected {:?}", other),
    }
}

#[test]
fn descriptors_in_order() {
    let m = meta("tid", vec![partition("tid", "b", 0, vec![], ""), partition("tid", "a", 0, vec![], "")]);
    assert_eq!(partition_desc_list(&m), vec!["b".to_string(), "a".to_string()]);
}

#[test]
fn every_table_is_public() {
    assert_eq!(table_domain("anything"), "public");
}

#[test]
fn committed_commit_is_not_processed_again() {
    assert_eq!(plan_commit_info(&Some(commit(true, 1))), CommitInfoPlan::AlreadyCommitted);
    assert_eq!(plan_commit_info(&Some(commit(false, 1))), CommitInfoPlan::Fold);
    assert_eq!(plan_commit_info(&None), CommitInfoPlan::InsertAndFold);
}

#[test]
fn replaying_a_commit_is_a_no_op() {
    // first ingestion: unknown commit, folded into an empty partition
    let c = commit(false, 1);
    assert_eq!(plan_commit_info(&None), CommitInfoPlan::InsertAndFold);
    let m = single_commit_meta_info(&c, table("tid"));
    let written = fold_commit(&m, &vec![], commit_op_of(&c).unwrap()).unwrap();
    // the store now holds the commit as committed: the replay stops there
    let mut stored = c.clone();
    stored.committed = true;
    assert_eq!(plan_commit_info(&Some(stored)), CommitInfoPlan::AlreadyCommitted);
    assert_eq!(written[0].version, 0);
    assert_eq!(written[0].snapshot, vec![id(7)]);
}

#[test]
fn commit_operation_codes_decode() {
    assert_eq!(commit_op_of(&commit(false, 0)).unwrap(), CommitOp::CompactionCommit);
    assert_eq!(commit_op_of(&commit(false, 1)).unwrap(), CommitOp::AppendCommit);
    assert_eq!(commit_op_of(&commit(false, 2)).unwrap(), CommitOp::MergeCommit);
    assert_eq!(commit_op_of(&commit(false, 4)).unwrap(), CommitOp::DeleteCommit);
    assert!(matches!(commit_op_of(&commit(false, 5)), Err(MetaError::Decode(_))));
    assert!(matches!(commit_op_of(&commit(false, -1)), Err(MetaError::Decode(_))));
    assert_eq!(CommitOp::MergeCommit.to_i32(), 2);
}

#[test]
fn single_commit_transaction() {
    let c = commit(false, 2);
    let m = single_commit_meta_info(&c, table("tid"));
    assert_eq!(m.table_info.as_ref().unwrap().table_id, "tid");
    assert_eq!(m.list_partition.len(), 1);
    let p = &m.list_partition[0];
    assert_eq!(p.table_id, "tid");
    assert_eq!(p.partition_desc, "date=1");
    assert_eq!(p.snapshot, vec![id(7)]);
    assert_eq!(p.commit_op, 2);
    assert_eq!(p.domain, "public");
    assert_eq!(p.version, 0);
}
