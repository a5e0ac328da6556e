//! The entity records exchanged with the metadata store.

use vstd::prelude::*;

verus! {

/// A 128-bit commit identifier, held as its high and low 64 bits.
#[derive(Clone, Copy, Debug, PartialEq, Eq, Structural, Hash)]
pub struct Uuid {
    pub high: u64,
    pub low: u64,
}

/// How a commit is folded into partition state.
#[derive(Clone, Copy, Debug, PartialEq, Eq, Structural, Hash)]
pub enum CommitOp {
    CompactionCommit,
    AppendCommit,
    MergeCommit,
    UpdateCommit,
    DeleteCommit,
}

/// The stored integer code of each commit operation.
pub open spec fn commit_op_code(op: CommitOp) -> i32 {
    match op {
        CommitOp::CompactionCommit => 0,
        CommitOp::AppendCommit => 1,
        CommitOp::MergeCommit => 2,
        CommitOp::UpdateCommit => 3,
        CommitOp::DeleteCommit => 4,
    }
}

/// The commit operation stored under an integer code, if any.
pub open spec fn commit_op_from_code(code: i32) -> Option<CommitOp> {
    if code == 0 {
        Some(CommitOp::CompactionCommit)
    } else if code == 1 {
        Some(CommitOp::AppendCommit)
    } else if code == 2 {
        Some(CommitOp::MergeCommit)
    } else if code == 3 {
        Some(CommitOp::UpdateCommit)
    } else if code == 4 {
        Some(CommitOp::DeleteCommit)
    } else {
        None
    }
}

impl CommitOp {
    /// The integer code under which this operation is stored.
    pub fn to_i32(self) -> (r: i32)
        ensures
            r == commit_op_code(self),
    {
        match self {
            CommitOp::CompactionCommit => 0,
            CommitOp::AppendCommit => 1,
            CommitOp::MergeCommit => 2,
            CommitOp::UpdateCommit => 3,
            CommitOp::DeleteCommit => 4,
        }
    }

    /// Decodes a stored integer code; an unknown code gives `None`.
    pub fn from_i32(code: i32) -> (r: Option<CommitOp>)
        ensures
            r == commit_op_from_code(code),
            r matches Some(op) ==> commit_op_code(op) == code,
            r is None <==> (code < 0 || code > 4),
    {
        match code {
            0 => Some(CommitOp::CompactionCommit),
            1 => Some(CommitOp::AppendCommit),
            2 => Some(CommitOp::MergeCommit),
            3 => Some(CommitOp::UpdateCommit),
            4 => Some(CommitOp::DeleteCommit),
            _ => None,
        }
    }

    /// Whether the partition fold knows how to apply this operation.
    pub open spec fn is_foldable_spec(self) -> bool {
        self == CommitOp::AppendCommit || self == CommitOp::MergeCommit
    }

    /// Append and merge commits can be folded; the others cannot yet.
    pub fn is_foldable(self) -> (r: bool)
        ensures
            r == self.is_foldable_spec(),
    {
        match self {
            CommitOp::AppendCommit | CommitOp::MergeCommit => true,
            _ => false,
        }
    }
}

/// A logical grouping of tables.
#[derive(Clone, Debug)]
pub struct Namespace {
    pub namespace: String,
    pub properties: String,
    pub comment: String,
    pub domain: String,
}

/// One table's identity and metadata.
#[derive(Clone, Debug)]
pub struct TableInfo {
    pub table_id: String,
    pub table_namespace: String,
    pub table_name: String,
    pub table_path: String,
    pub table_schema: String,
    pub properties: String,
    pub partitions: String,
    pub domain: String,
}

/// Index entry from a table's name and namespace to its id.
#[derive(Clone, Debug)]
pub struct TableNameId {
    pub table_name: String,
    pub table_id: String,
    pub table_namespace: String,
    pub domain: String,
}

/// Index entry from a table's path to its id.
#[derive(Clone, Debug)]
pub struct TablePathId {
    pub table_path: String,
    pub table_id: String,
    pub table_namespace: String,
    pub domain: String,
}

/// The committed state of one partition of a table.
#[derive(Clone, Debug)]
pub struct PartitionInfo {
    pub table_id: String,
    pub partition_desc: String,
    pub version: i32,
    pub commit_op: i32,
    pub timestamp: i64,
    pub snapshot: Vec<Uuid>,
    pub expression: String,
    pub domain: String,
}

/// One file touched by a commit.
#[derive(Clone, Debug)]
pub struct DataFileOp {
    pub path: String,
    pub file_op: i32,
    pub size: i64,
    pub file_exist_cols: String,
}

/// One commit's payload.
#[derive(Clone, Debug)]
pub struct DataCommitInfo {
    pub table_id: String,
    pub partition_desc: String,
    pub commit_id: Uuid,
    pub file_ops: Vec<DataFileOp>,
    pub commit_op: i32,
    pub timestamp: i64,
    pub committed: bool,
    pub domain: String,
}

/// One table and the partitions touched by one commit transaction.
#[derive(Clone, Debug)]
pub struct MetaInfo {
    pub list_partition: Vec<PartitionInfo>,
    pub table_info: Option<TableInfo>,
    pub read_partition_info: Vec<PartitionInfo>,
}

/// The envelope of every multi-record exchange with the store: one list per
/// entity kind.
#[derive(Clone, Debug)]
pub struct JniWrapper {
    pub namespace: Vec<Namespace>,
    pub table_info: Vec<TableInfo>,
    pub table_path_id: Vec<TablePathId>,
    pub table_name_id: Vec<TableNameId>,
    pub partition_info: Vec<PartitionInfo>,
    pub data_commit_info: Vec<DataCommitInfo>,
}

/// The mathematical model of a partition record.
pub ghost struct PartitionView {
    pub table_id: Seq<char>,
    pub partition_desc: Seq<char>,
    pub version: int,
    pub commit_op: i32,
    pub timestamp: i64,
    pub snapshot: Seq<Uuid>,
    pub expression: Seq<char>,
    pub domain: Seq<char>,
}

impl View for PartitionInfo {
    type V = PartitionView;

    open spec fn view(&self) -> PartitionView {
        PartitionView {
            table_id: self.table_id@,
            partition_desc: self.partition_desc@,
            version: self.version as int,
            commit_op: self.commit_op,
            timestamp: self.timestamp,
            snapshot: self.snapshot@,
            expression: self.expression@,
            domain: self.domain@,
        }
    }
}

/// A copy of a list of commit identifiers.
pub fn copy_snapshot(s: &Vec<Uuid>) -> (r: Vec<Uuid>)
    ensures
        r@ == s@,
{
    let mut r: Vec<Uuid> = Vec::new();
    let mut i: usize = 0;
    while i < s.len()
        invariant
            i <= s@.len(),
            r@ == s@.subrange(0, i as int),
        decreases s@.len() - i,
    {
        r.push(s[i]);
        i = i + 1;
        assert(r@ =~= s@.subrange(0, i as int));
    }
    assert(r@ =~= s@);
    r
}

impl PartitionInfo {
    /// A field-for-field copy.
    pub fn duplicate(&self) -> (r: PartitionInfo)
        ensures
            r@ == self@,
    {
        PartitionInfo {
            table_id: self.table_id.clone(),
            partition_desc: self.partition_desc.clone(),
            version: self.version,
            commit_op: self.commit_op,
            timestamp: self.timestamp,
            snapshot: copy_snapshot(&self.snapshot),
            expression: self.expression.clone(),
            domain: self.domain.clone(),
        }
    }
}

/// The path index entry of a table.
pub fn table_path_id_from_table_info(table_info: &TableInfo) -> (r: TablePathId)
    ensures
        r.table_path == table_info.table_path,
        r.table_id == table_info.table_id,
        r.table_namespace == table_info.table_namespace,
        r.domain == table_info.domain,
{
    TablePathId {
        table_path: table_info.table_path.clone(),
        table_id: table_info.table_id.clone(),
        table_namespace: table_info.table_namespace.clone(),
        domain: table_info.domain.clone(),
    }
}

/// The name index entry of a table.
pub fn table_name_id_from_table_info(table_info: &TableInfo) -> (r: TableNameId)
    ensures
        r.table_name == table_info.table_name,
        r.table_id == table_info.table_id,
        r.table_namespace == table_info.table_namespace,
        r.domain == table_info.domain,
{
    TableNameId {
        table_name: table_info.table_name.clone(),
        table_id: table_info.table_id.clone(),
        table_namespace: table_info.table_namespace.clone(),
        domain: table_info.domain.clone(),
    }
}

} // verus!
