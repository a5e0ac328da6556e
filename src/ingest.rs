//! Idempotent ingestion of one commit: a commit already marked committed is
//! not processed again; otherwise it is recorded (once) and folded into its
//! partition.

use vstd::prelude::*;

use crate::commit::{at_max_version, folded, public_domain, table_domain};
use crate::entity::{
    commit_op_code, commit_op_from_code, CommitOp, DataCommitInfo, MetaInfo, PartitionInfo, PartitionView, TableInfo,
    Uuid,
};
use crate::error::MetaError;

verus! {

/// What ingesting a commit does, given what the store holds of it.
#[derive(Clone, Copy, Debug, PartialEq, Eq, Structural)]
pub enum CommitInfoPlan {
    /// The commit is already committed: nothing is done.
    AlreadyCommitted,
    /// The commit is unknown: record it, then fold it.
    InsertAndFold,
    /// The commit is recorded but not committed: fold it.
    Fold,
}

/// The plan for a commit whose stored record is `existing`.
pub open spec fn plan_of(existing: Option<DataCommitInfo>) -> CommitInfoPlan {
    match existing {
        Some(d) => if d.committed {
            CommitInfoPlan::AlreadyCommitted
        } else {
            CommitInfoPlan::Fold
        },
        None => CommitInfoPlan::InsertAndFold,
    }
}

/// Decides how to ingest a commit whose stored record is `existing`.
pub fn plan_commit_info(existing: &Option<DataCommitInfo>) -> (r: CommitInfoPlan)
    ensures
        r == plan_of(*existing),
{
    match existing {
        Some(d) => if d.committed {
            CommitInfoPlan::AlreadyCommitted
        } else {
            CommitInfoPlan::Fold
        },
        None => CommitInfoPlan::InsertAndFold,
    }
}

/// The commit operation recorded in a commit, decoded from its stored
/// code; an unknown code is a decode error.
pub fn commit_op_of(data_commit_info: &DataCommitInfo) -> (r: Result<CommitOp, MetaError>)
    ensures
        r matches Ok(op) ==> commit_op_from_code(data_commit_info.commit_op) == Some(op),
        r matches Ok(op) ==> commit_op_code(op) == data_commit_info.commit_op,
        r is Err <==> (data_commit_info.commit_op < 0 || data_commit_info.commit_op > 4),
        r is Err ==> r matches Err(MetaError::Decode(_)),
{
    match CommitOp::from_i32(data_commit_info.commit_op) {
        Some(op) => Ok(op),
        None => Err(MetaError::Decode(String::from_str("unknown commit operation code"))),
    }
}

/// The partition entry that a single commit contributes: its own
/// identifier as the whole snapshot.
pub open spec fn commit_partition(d: DataCommitInfo) -> PartitionView {
    PartitionView {
        table_id: d.table_id@,
        partition_desc: d.partition_desc@,
        version: 0,
        commit_op: d.commit_op,
        timestamp: 0,
        snapshot: seq![d.commit_id],
        expression: Seq::empty(),
        domain: public_domain(),
    }
}

/// The commit transaction of a single commit on the table `table_info`.
pub fn single_commit_meta_info(data_commit_info: &DataCommitInfo, table_info: TableInfo) -> (r:
    MetaInfo)
    ensures
        r.table_info == Some(table_info),
        r.list_partition@.len() == 1,
        r.list_partition@[0]@ == commit_partition(*data_commit_info),
        r.read_partition_info@.len() == 0,
{
    let mut snapshot: Vec<Uuid> = Vec::new();
    snapshot.push(data_commit_info.commit_id);
    let part = PartitionInfo {
        table_id: data_commit_info.table_id.clone(),
        partition_desc: data_commit_info.partition_desc.clone(),
        version: 0,
        commit_op: data_commit_info.commit_op,
        timestamp: 0,
        snapshot,
        expression: String::new(),
        domain: table_domain(data_commit_info.table_id.as_str()),
    };
    let mut list_partition: Vec<PartitionInfo> = Vec::new();
    list_partition.push(part);
    assert(list_partition@[0]@.snapshot =~= seq![data_commit_info.commit_id]);
    MetaInfo { list_partition, table_info: Some(table_info), read_partition_info: Vec::new() }
}

/// The key under which the store records a commit.
pub open spec fn commit_key(d: DataCommitInfo) -> (Seq<char>, Seq<char>, Uuid) {
    (d.table_id@, d.partition_desc@, d.commit_id)
}

/// What the store holds as far as ingestion reads and writes it: the
/// commit records by key, and the current record of each partition by
/// table id and descriptor.
pub ghost struct StoreModel {
    pub commits: Map<(Seq<char>, Seq<char>, Uuid), DataCommitInfo>,
    pub partitions: Map<(Seq<char>, Seq<char>), PartitionView>,
}

/// The stored record of commit `d`, if any.
pub open spec fn stored_commit(s: StoreModel, d: DataCommitInfo) -> Option<DataCommitInfo> {
    if s.commits.contains_key(commit_key(d)) {
        Some(s.commits[commit_key(d)])
    } else {
        None
    }
}

/// The current record of the partition that commit `d` belongs to, if any.
pub open spec fn stored_partition(s: StoreModel, d: DataCommitInfo) -> Option<PartitionView> {
    if s.partitions.contains_key((d.table_id@, d.partition_desc@)) {
        Some(s.partitions[(d.table_id@, d.partition_desc@)])
    } else {
        None
    }
}

/// A commit record with its committed flag set.
pub open spec fn marked_committed(d: DataCommitInfo) -> DataCommitInfo {
    DataCommitInfo {
        table_id: d.table_id,
        partition_desc: d.partition_desc,
        commit_id: d.commit_id,
        file_ops: d.file_ops,
        commit_op: d.commit_op,
        timestamp: d.timestamp,
        committed: true,
        domain: d.domain,
    }
}

/// The store after ingesting commit `d` into `s`: the plan is taken from
/// the stored record; an unknown commit is recorded as given; then, where
/// its operation can be folded and its partition's version advanced, the
/// folded partition record is written together with the commit's
/// committed flag, in the one transactional write.
pub open spec fn ingest(s: StoreModel, d: DataCommitInfo) -> StoreModel {
    let plan = plan_of(stored_commit(s, d));
    if plan == CommitInfoPlan::AlreadyCommitted {
        s
    } else {
        let s1 = if plan == CommitInfoPlan::InsertAndFold {
            StoreModel { commits: s.commits.insert(commit_key(d), d), partitions: s.partitions }
        } else {
            s
        };
        let cur = stored_partition(s1, d);
        let op = commit_op_from_code(d.commit_op);
        if op is Some && op->0.is_foldable_spec() && !at_max_version(cur) {
            StoreModel {
                commits: s1.commits.insert(commit_key(d), marked_committed(s1.commits[commit_key(d)])),
                partitions: s1.partitions.insert(
                    (d.table_id@, d.partition_desc@),
                    folded(d.table_id@, commit_partition(d), cur, op->0),
                ),
            }
        } else {
            s1
        }
    }
}

/// Ingesting the same commit a second time leaves the store as the first
/// ingestion left it.
pub proof fn lemma_ingest_idempotent(s: StoreModel, d: DataCommitInfo)
    ensures
        ingest(ingest(s, d), d) == ingest(s, d),
{
    let s2 = ingest(s, d);
    let key = commit_key(d);
    if plan_of(stored_commit(s, d)) != CommitInfoPlan::AlreadyCommitted {
        let s1 = if plan_of(stored_commit(s, d)) == CommitInfoPlan::InsertAndFold {
            StoreModel { commits: s.commits.insert(key, d), partitions: s.partitions }
        } else {
            s
        };
        assert(s1.commits.contains_key(key));
        assert(stored_commit(s2, d) is Some);
        if s2 != s1 {
            assert(stored_commit(s2, d)->0.committed);
        } else {
            assert(stored_commit(s2, d) == stored_commit(s1, d));
            assert(stored_partition(s2, d) == stored_partition(s1, d));
        }
    }
}

} // verus!
