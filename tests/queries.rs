use lakesoul_metadata::entity::{
    table_name_id_from_table_info, table_path_id_from_table_info, DataCommitInfo, DataFileOp,
    JniWrapper, PartitionInfo, TableInfo, TableNameId, Uuid,
};
use lakesoul_metadata::error::MetaError;
use lakesoul_metadata::files::{collect_data_files, commit_file_paths, is_excluded, partition_filter};
use lakesoul_metadata::format::commit_id_text;
use lakesoul_metadata::handle::convert_to_opaque_raw;
use lakesoul_metadata::query::{
    commit_list_query_arg, first_data_commit_info, join_strings, partition_list_query_arg,
    single_commit_query_arg, table_info_or_not_found, table_name_id_or_not_found,
    table_name_query_arg, PARAM_DELIM, PARTITION_DESC_DELIM,
};

fn empty_wrapper() -> JniWrapper {
    JniWrapper {
        namespace: vec![],
        table_info: vec![],
        table_path_id: vec![],
        table_name_id: vec![],
        partition_info: vec![],
        data_commit_info: vec![],
    }
}

fn table(id: &str, name: &str) -> TableInfo {
    TableInfo {
        table_id: id.to_string(),
        table_namespace: "default".to_string(),
        table_name: name.to_string(),
        table_path: format!("s3://bucket/{}", name),
        table_schema: "schema".to_string(),
        properties: "{}".to_string(),
        partitions: String::new(),
        domain: "public".to_string(),
    }
}

fn partition(desc: &str) -> PartitionInfo {
    PartitionInfo {
        table_id: "tid".to_string(),
        partition_desc: desc.to_string(),
        version: 0,
        commit_op: 1,
        timestamp: 0,
        snapshot: vec![],
        expression: String::new(),
        domain: "public".to_string(),
    }
}

fn commit_with(paths: &[&str], n: u64) -> DataCommitInfo {
    DataCommitInfo {
        table_id: "tid".to_string(),
        partition_desc: String::new(),
        commit_id: Uuid { high: n, low: n },
        file_ops: paths
            .iter()
            .map(|p| DataFileOp { path: p.to_string(), file_op: 0, size: 1, file_exist_cols: String::new() })
            .collect(),
        commit_op: 1,
        timestamp: 0,
        committed: true,
        domain: "public".to_string(),
    }
}

#[test]
fn delimiters() {
    assert_eq!(PARAM_DELIM, "__DELIM__");
    assert_eq!(PARTITION_DESC_DELIM, "_DELIM_");
}

#[test]
fn table_name_argument() {
    assert_eq!(table_name_query_arg("t1", "default"), "t1__DELIM__default");
}

#[test]
fn partition_list_argument() {
    let descs = vec!["date=1".to_string(), "date=2".to_string(), "date=3".to_string()];
    assert_eq!(partition_list_query_arg("tid", &descs), "tid__DELIM__date=1_DELIM_date=2_DELIM_date=3");
    assert_eq!(partition_list_query_arg("tid", &vec![]), "tid__DELIM__");
}

#[test]
fn joining_strings() {
    assert_eq!(join_strings(&vec![], ","), "");
    assert_eq!(join_strings(&vec!["a".to_string()], ","), "a");
    assert_eq!(join_strings(&vec!["a".to_string(), "".to_string(), "c".to_string()], ","), "a,,c");
}

#[test]
fn commit_id_in_hyphenated_form() {
    let id = Uuid { high: 0xa1a2a3a4b1b2c1c2, low: 0xd1d2d3d4d5d6d7d8 };
    assert_eq!(commit_id_text(id), "a1a2a3a4-b1b2-c1c2-d1d2-d3d4d5d6d7d8");
    assert_eq!(commit_id_text(Uuid { high: 0, low: 1 }), "00000000-0000-0000-0000-000000000001");
}

#[test]
fn single_commit_argument() {
    let id = Uuid { high: 0xa1a2a3a4b1b2c1c2, low: 0xd1d2d3d4d5d6d7d8 };
    assert_eq!(
        single_commit_query_arg("tid", "date=1", id),
        "tid__DELIM__date=1__DELIM__a1a2a3a4-b1b2-c1c2-d1d2-d3d4d5d6d7d8"
    );
}

#[test]
fn commit_list_argument() {
    let mut p = partition("date=1");
    p.snapshot = vec![Uuid { high: 0x1f, low: 0xabc }, Uuid { high: u64::MAX, low: 0 }];
    assert_eq!(
        commit_list_query_arg(&p),
        "tid__DELIM__date=1__DELIM__000000000000001f0000000000000abcffffffffffffffff0000000000000000"
    );
    assert_eq!(commit_list_query_arg(&partition("x")), "tid__DELIM__x__DELIM__");
}

#[test]
fn missing_table_is_not_found() {
    match table_info_or_not_found(empty_wrapper(), "no_such_table") {
        Err(e) => {
            assert!(matches!(&e, MetaError::NotFound(k) if k == "no_such_table"));
            assert_eq!(e.message(), "Table 'no_such_table' not found");
        }
        Ok(_) => panic!("expected not found"),
    }
    assert!(matches!(
        table_name_id_or_not_found(empty_wrapper(), "t"),
        Err(MetaError::NotFound(k)) if k == "t"
    ));
}

#[test]
fn first_row_is_returned() {
    let mut w = empty_wrapper();
    w.table_info = vec![table("id1", "a"), table("id2", "b")];
    assert_eq!(table_info_or_not_found(w, "a").unwrap().table_id, "id1");
    let mut w = empty_wrapper();
    w.table_name_id = vec![TableNameId {
        table_name: "a".to_string(),
        table_id: "id1".to_string(),
        table_namespace: "default".to_string(),
        domain: "public".to_string(),
    }];
    assert_eq!(table_name_id_or_not_found(w, "a").unwrap().table_id, "id1");
}

#[test]
fn missing_commit_is_absent() {
    assert!(first_data_commit_info(empty_wrapper()).is_none());
    let mut w = empty_wrapper();
    w.data_commit_info = vec![commit_with(&["x"], 1), commit_with(&["y"], 2)];
    assert_eq!(first_data_commit_info(w).unwrap().commit_id, Uuid { high: 1, low: 1 });
}

#[test]
fn data_files_skip_filtered_partitions() {
    let parts = vec![partition("k=1"), partition("k=2"), partition("k=3")];
    let filter = partition_filter(&vec![("k", "1")]);
    assert_eq!(filter, vec!["k=1".to_string()]);
    let commits = vec![
        vec![commit_with(&["a/1"], 1)],
        vec![commit_with(&["b/1", "b/2"], 2)],
        vec![commit_with(&["c/1"], 3)],
    ];
    assert_eq!(
        collect_data_files(&parts, &filter, &commits),
        vec!["b/1".to_string(), "b/2".to_string(), "c/1".to_string()]
    );
}

#[test]
fn data_files_with_no_filter_and_several_commits() {
    let parts = vec![partition("p"), partition("q")];
    let commits = vec![vec![commit_with(&["1", "2"], 1), commit_with(&[], 2), commit_with(&["3"], 3)], vec![]];
    assert_eq!(collect_data_files(&parts, &vec![], &commits), vec!["1", "2", "3"]);
    assert_eq!(commit_file_paths(&commits[0]), vec!["1", "2", "3"]);
}

#[test]
fn filter_entries() {
    let f = partition_filter(&vec![("date", "2024"), ("region", "eu")]);
    assert_eq!(f, vec!["date=2024".to_string(), "region=eu".to_string()]);
    assert!(is_excluded(&f, &"region=eu".to_string()));
    assert!(!is_excluded(&f, &"region=us".to_string()));
}

#[test]
fn index_entries_from_table() {
    let t = table("id9", "tbl");
    let p = table_path_id_from_table_info(&t);
    assert_eq!((p.table_path.as_str(), p.table_id.as_str(), p.table_namespace.as_str()), ("s3://bucket/tbl", "id9", "default"));
    let n = table_name_id_from_table_info(&t);
    assert_eq!((n.table_name.as_str(), n.table_id.as_str(), n.domain.as_str()), ("tbl", "id9", "public"));
}

#[test]
fn boxed_handle_keeps_value() {
    let b = convert_to_opaque_raw(41u32);
    assert_eq!(*b + 1, 42);
}

#[test]
fn error_messages() {
    assert_eq!(MetaError::Dao("connection refused".to_string()).message(), "connection refused");
    assert_eq!(MetaError::Decode("bad".to_string()).message(), "bad");
    assert_eq!(
        MetaError::Unsupported(lakesoul_metadata::entity::CommitOp::UpdateCommit).message(),
        "commit operation not supported"
    );
    assert_eq!(MetaError::VersionOverflow("p".to_string()).message(), "partition version overflow: p");
}
