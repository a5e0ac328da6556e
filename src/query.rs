//! Storage operations, the arguments handed to them, and the mapping of
//! their results.

use vstd::prelude::*;

use crate::entity::{
    DataCommitInfo, JniWrapper, PartitionInfo, TableInfo, TableNameId, Uuid,
};
use crate::error::MetaError;
use crate::format::{commit_id_text, hex32, hyphenated, push_hex16};

verus! {

/// Separates the key fields of a query argument.
pub const PARAM_DELIM: &'static str = "__DELIM__";

/// Separates the entries of a list of partition descriptors inside one
/// key field.
pub const PARTITION_DESC_DELIM: &'static str = "_DELIM_";

/// The storage operations this client issues.
#[derive(Clone, Copy, Debug, PartialEq, Eq, Structural)]
pub enum DaoOp {
    InsertNamespace,
    InsertTableInfo,
    InsertTableNameId,
    InsertTablePathId,
    InsertDataCommitInfo,
    TransactionInsertPartitionInfo,
    ListNamespaces,
    ListTableNameByNamespace,
    SelectTableNameIdByTableName,
    SelectTableInfoByTableNameAndNameSpace,
    SelectTablePathIdByTablePath,
    SelectTableInfoByTableId,
    ListPartitionByTableId,
    ListPartitionDescByTableIdAndParList,
    SelectOneDataCommitInfoByTableIdAndPartitionDescAndCommitId,
    ListDataCommitInfoByTableIdAndPartitionDescAndCommitList,
}

/// `parts` joined with `delim` between neighbours.
pub open spec fn joined(parts: Seq<Seq<char>>, delim: Seq<char>) -> Seq<char>
    decreases parts.len(),
{
    if parts.len() == 0 {
        Seq::empty()
    } else if parts.len() == 1 {
        parts[0]
    } else {
        joined(parts.drop_last(), delim) + delim + parts.last()
    }
}

/// The character sequences of a list of strings.
pub open spec fn string_views(v: Seq<String>) -> Seq<Seq<char>> {
    Seq::new(v.len(), |i: int| v[i]@)
}

/// Joins `parts` with `delim` between neighbours.
pub fn join_strings(parts: &Vec<String>, delim: &str) -> (r: String)
    ensures
        r@ == joined(string_views(parts@), delim@),
{
    let mut r = String::new();
    let mut i: usize = 0;
    while i < parts.len()
        invariant
            i <= parts@.len(),
            r@ == joined(string_views(parts@.subrange(0, i as int)), delim@),
        decreases parts@.len() - i,
    {
        let ghost before = string_views(parts@.subrange(0, i as int));
        if i > 0 {
            r.append(delim);
        }
        r.append(parts[i].as_str());
        i = i + 1;
        proof {
            let now = string_views(parts@.subrange(0, i as int));
            assert(now.drop_last() =~= before);
            if i == 1 {
                assert(r@ =~= now[0]);
            }
        }
    }
    assert(parts@.subrange(0, parts@.len() as int) =~= parts@);
    r
}

/// Two key fields joined with the field delimiter.
pub open spec fn key2(a: Seq<char>, b: Seq<char>) -> Seq<char> {
    a + PARAM_DELIM@ + b
}

/// Three key fields joined with the field delimiter.
pub open spec fn key3(a: Seq<char>, b: Seq<char>, c: Seq<char>) -> Seq<char> {
    a + PARAM_DELIM@ + b + PARAM_DELIM@ + c
}

/// Builds `a`, the field delimiter, `b`.
fn join2(a: &str, b: &str) -> (r: String)
    ensures
        r@ == key2(a@, b@),
{
    let mut r = String::from_str(a);
    r.append(PARAM_DELIM);
    r.append(b);
    r
}

/// Builds `a`, the field delimiter, `b`, the field delimiter, `c`.
fn join3(a: &str, b: &str, c: &str) -> (r: String)
    ensures
        r@ == key3(a@, b@, c@),
{
    let mut r = join2(a, b);
    r.append(PARAM_DELIM);
    r.append(c);
    assert(r@ =~= key3(a@, b@, c@));
    r
}

/// The argument of a lookup by table name within a namespace.
pub fn table_name_query_arg(table_name: &str, namespace: &str) -> (r: String)
    ensures
        r@ == key2(table_name@, namespace@),
{
    join2(table_name, namespace)
}

/// The argument of a lookup of the current records of the listed
/// partitions of one table.
pub fn partition_list_query_arg(table_id: &str, partition_desc_list: &Vec<String>) -> (r: String)
    ensures
        r@ == key2(table_id@, joined(string_views(partition_desc_list@), PARTITION_DESC_DELIM@)),
{
    let descs = join_strings(partition_desc_list, PARTITION_DESC_DELIM);
    join2(table_id, descs.as_str())
}

/// The argument of a lookup of one commit of one partition.
pub fn single_commit_query_arg(table_id: &str, partition_desc: &str, commit_id: Uuid) -> (r: String)
    ensures
        r@ == key3(table_id@, partition_desc@, hyphenated(commit_id)),
{
    let id = commit_id_text(commit_id);
    join3(table_id, partition_desc, id.as_str())
}

/// The commit identifiers of a snapshot, each as 32 hexadecimal digits,
/// run together.
pub open spec fn snapshot_hex(s: Seq<Uuid>) -> Seq<char>
    decreases s.len(),
{
    if s.len() == 0 {
        Seq::empty()
    } else {
        snapshot_hex(s.drop_last()) + hex32(s.last())
    }
}

/// The argument of a listing of the commits in a partition's snapshot.
pub fn commit_list_query_arg(partition_info: &PartitionInfo) -> (r: String)
    ensures
        r@ == key3(
            partition_info.table_id@,
            partition_info.partition_desc@,
            snapshot_hex(partition_info.snapshot@),
        ),
{
    let snap = &partition_info.snapshot;
    let mut ids = String::new();
    let mut i: usize = 0;
    while i < snap.len()
        invariant
            i <= snap@.len(),
            ids@ == snapshot_hex(snap@.subrange(0, i as int)),
        decreases snap@.len() - i,
    {
        let ghost before = snap@.subrange(0, i as int);
        push_hex16(&mut ids, snap[i].high);
        push_hex16(&mut ids, snap[i].low);
        i = i + 1;
        proof {
            assert(snap@.subrange(0, i as int).drop_last() =~= before);
            assert(ids@ =~= snapshot_hex(snap@.subrange(0, i as int)));
        }
    }
    assert(snap@.subrange(0, snap@.len() as int) =~= snap@);
    join3(partition_info.table_id.as_str(), partition_info.partition_desc.as_str(), ids.as_str())
}

/// The table record of a lookup where absence is an error: the first row,
/// or a not-found error naming `key` where there is none. Later rows are
/// ignored.
pub fn table_info_or_not_found(wrapper: JniWrapper, key: &str) -> (r: Result<TableInfo, MetaError>)
    ensures
        wrapper.table_info@.len() == 0 <==> r is Err,
        r matches Err(e) ==> e matches MetaError::NotFound(k) && k@ == key@,
        r matches Ok(t) ==> t == wrapper.table_info@[0],
{
    let mut rows = wrapper.table_info;
    if rows.len() == 0 {
        Err(MetaError::NotFound(String::from_str(key)))
    } else {
        Ok(rows.swap_remove(0))
    }
}

/// The name index entry of a lookup where absence is an error: the first
/// row, or a not-found error naming `key` where there is none.
pub fn table_name_id_or_not_found(wrapper: JniWrapper, key: &str) -> (r: Result<TableNameId, MetaError>)
    ensures
        wrapper.table_name_id@.len() == 0 <==> r is Err,
        r matches Err(e) ==> e matches MetaError::NotFound(k) && k@ == key@,
        r matches Ok(t) ==> t == wrapper.table_name_id@[0],
{
    let mut rows = wrapper.table_name_id;
    if rows.len() == 0 {
        Err(MetaError::NotFound(String::from_str(key)))
    } else {
        Ok(rows.swap_remove(0))
    }
}

/// The commit record of a lookup where absence is a valid answer: the
/// first row, or `None` where there is none.
pub fn first_data_commit_info(wrapper: JniWrapper) -> (r: Option<DataCommitInfo>)
    ensures
        wrapper.data_commit_info@.len() == 0 <==> r is None,
        r matches Some(d) ==> d == wrapper.data_commit_info@[0],
{
    let mut rows = wrapper.data_commit_info;
    if rows.len() == 0 {
        None
    } else {
        Some(rows.swap_remove(0))
    }
}

} // verus!
