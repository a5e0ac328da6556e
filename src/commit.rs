//! The commit protocol: folding a commit's partition snapshot into the
//! stored partition state.

use vstd::prelude::*;

use crate::entity::{commit_op_code, CommitOp, MetaInfo, PartitionInfo, PartitionView};
use crate::error::MetaError;

verus! {

/// The domain of every table's partitions.
pub open spec fn public_domain() -> Seq<char> {
    "public"@
}

/// The domain of a table: every table is in the public domain.
pub fn table_domain(table_id: &str) -> (r: String)
    ensures
        r@ == public_domain(),
{
    String::from_str("public")
}

/// The index of the last of the first `n` records whose descriptor is
/// `desc`, or -1 where there is none.
pub open spec fn last_match(cur: Seq<PartitionInfo>, desc: Seq<char>, n: int) -> int
    decreases n,
{
    if n <= 0 {
        -1
    } else if cur[n - 1].partition_desc@ == desc {
        n - 1
    } else {
        last_match(cur, desc, n - 1)
    }
}

/// The stored record of partition `desc` among the records a query
/// returned; as in a map built from them, a later record replaces an
/// earlier one with the same descriptor.
pub open spec fn current_of(cur: Seq<PartitionInfo>, desc: Seq<char>) -> Option<PartitionView> {
    let k = last_match(cur, desc, cur.len() as int);
    if k < 0 {
        None
    } else {
        Some(cur[k]@)
    }
}

/// The record that folding `incoming` with operation `op` stores, given the
/// partition's current record.
pub open spec fn folded(
    table_id: Seq<char>,
    incoming: PartitionView,
    current: Option<PartitionView>,
    op: CommitOp,
) -> PartitionView {
    match current {
        Some(c) => PartitionView {
            table_id: c.table_id,
            partition_desc: c.partition_desc,
            version: c.version + 1,
            commit_op: commit_op_code(op),
            timestamp: c.timestamp,
            snapshot: c.snapshot + incoming.snapshot,
            expression: incoming.expression,
            domain: public_domain(),
        },
        None => PartitionView {
            table_id: table_id,
            partition_desc: incoming.partition_desc,
            version: 0,
            commit_op: commit_op_code(op),
            timestamp: 0,
            snapshot: incoming.snapshot,
            expression: incoming.expression,
            domain: public_domain(),
        },
    }
}

/// A current record whose version cannot be advanced within `i32`.
pub open spec fn at_max_version(current: Option<PartitionView>) -> bool {
    current matches Some(c) && c.version >= i32::MAX
}

/// Some incoming partition's current record is at the largest version.
pub open spec fn any_at_max_version(incoming: Seq<PartitionInfo>, cur: Seq<PartitionInfo>) -> bool {
    exists|i: int|
        0 <= i < incoming.len() && #[trigger] at_max_version(
            current_of(cur, incoming[i].partition_desc@),
        )
}

/// Finds the current record of partition `desc`: the last one in `cur`.
fn find_current(cur: &Vec<PartitionInfo>, desc: &String) -> (r: Option<usize>)
    ensures
        match r {
            Some(k) => k < cur@.len() && k as int == last_match(cur@, desc@, cur@.len() as int),
            None => last_match(cur@, desc@, cur@.len() as int) == -1,
        },
{
    let mut j: usize = cur.len();
    while j > 0
        invariant
            j <= cur@.len(),
            last_match(cur@, desc@, cur@.len() as int) == last_match(cur@, desc@, j as int),
        decreases j,
    {
        if cur[j - 1].partition_desc == *desc {
            return Some(j - 1);
        }
        j = j - 1;
    }
    None
}

/// Folds one incoming partition into its current record.
fn fold_one(
    table_id: &String,
    incoming: &PartitionInfo,
    current: Option<&PartitionInfo>,
    op: CommitOp,
) -> (r: Result<PartitionInfo, MetaError>)
    ensures
        match current {
            Some(c) => c.version == i32::MAX ==> r is Err,
            None => true,
        },
        r is Err ==> current is Some && current->0.version == i32::MAX,
        r is Err ==> r matches Err(MetaError::VersionOverflow(_)),
        r matches Ok(p) ==> p@ == folded(
            table_id@,
            incoming@,
            match current {
                Some(c) => Some(c@),
                None => None,
            },
            op,
        ),
{
    match current {
        Some(c) => {
            if c.version == i32::MAX {
                return Err(MetaError::VersionOverflow(c.partition_desc.clone()));
            }
            let mut p = c.duplicate();
            p.domain = table_domain(table_id.as_str());
            let mut extra = crate::entity::copy_snapshot(&incoming.snapshot);
            p.snapshot.append(&mut extra);
            p.version = c.version + 1;
            p.commit_op = op.to_i32();
            p.expression = incoming.expression.clone();
            Ok(p)
        },
        None => Ok(
            PartitionInfo {
                table_id: table_id.clone(),
                partition_desc: incoming.partition_desc.clone(),
                version: 0,
                commit_op: op.to_i32(),
                timestamp: 0,
                snapshot: crate::entity::copy_snapshot(&incoming.snapshot),
                expression: incoming.expression.clone(),
                domain: table_domain(table_id.as_str()),
            },
        ),
    }
}

/// Collects the partition descriptors that `meta_info` refers to, in order.
pub fn partition_desc_list(meta_info: &MetaInfo) -> (r: Vec<String>)
    ensures
        r@.len() == meta_info.list_partition@.len(),
        forall|i: int|
            0 <= i < r@.len() ==> #[trigger] r@[i]@ == meta_info.list_partition@[i].partition_desc@,
{
    let parts = &meta_info.list_partition;
    let mut r: Vec<String> = Vec::new();
    let mut i: usize = 0;
    while i < parts.len()
        invariant
            i <= parts@.len(),
            r@.len() == i,
            forall|k: int| 0 <= k < i ==> #[trigger] r@[k]@ == parts@[k].partition_desc@,
        decreases parts@.len() - i,
    {
        r.push(parts[i].partition_desc.clone());
        i = i + 1;
    }
    r
}

/// Computes the records that a commit of `meta_info` with operation
/// `commit_op` writes, given the current records `current` of the touched
/// partitions: each incoming partition is folded into its current record,
/// in the order of `meta_info.list_partition`.
///
/// Only append and merge commits are folded; any other operation is
/// refused without a guess. A partition already at the largest version is
/// an error rather than a wrapped version.
pub fn fold_commit(meta_info: &MetaInfo, current: &Vec<PartitionInfo>, commit_op: CommitOp) -> (r:
    Result<Vec<PartitionInfo>, MetaError>)
    requires
        meta_info.table_info is Some,
    ensures
        !commit_op.is_foldable_spec() ==> r == Err::<Vec<PartitionInfo>, MetaError>(
            MetaError::Unsupported(commit_op),
        ),
        commit_op.is_foldable_spec() ==> (r is Err <==> any_at_max_version(
            meta_info.list_partition@,
            current@,
        )),
        commit_op.is_foldable_spec() && r is Err ==> r matches Err(MetaError::VersionOverflow(_)),
        r matches Ok(v) ==> {
            &&& v@.len() == meta_info.list_partition@.len()
            &&& forall|i: int|
                0 <= i < v@.len() ==> #[trigger] v@[i]@ == folded(
                    meta_info.table_info->0.table_id@,
                    meta_info.list_partition@[i]@,
                    current_of(current@, meta_info.list_partition@[i].partition_desc@),
                    commit_op,
                )
        },
{
    if !commit_op.is_foldable() {
        return Err(MetaError::Unsupported(commit_op));
    }
    let table_id = match &meta_info.table_info {
        Some(t) => &t.table_id,
        None => {
            return Err(MetaError::Unsupported(commit_op));
        },
    };
    let parts = &meta_info.list_partition;
    let mut out: Vec<PartitionInfo> = Vec::new();
    let mut i: usize = 0;
    while i < parts.len()
        invariant
            commit_op.is_foldable_spec(),
            parts@ == meta_info.list_partition@,
            i <= parts@.len(),
            out@.len() == i,
            forall|k: int|
                0 <= k < i ==> !#[trigger] at_max_version(
                    current_of(current@, parts@[k].partition_desc@),
                ),
            forall|k: int|
                0 <= k < i ==> #[trigger] out@[k]@ == folded(
                    table_id@,
                    parts@[k]@,
                    current_of(current@, parts@[k].partition_desc@),
                    commit_op,
                ),
        decreases parts@.len() - i,
    {
        let found = find_current(current, &parts[i].partition_desc);
        let cur = match found {
            Some(k) => Some(&current[k]),
            None => None,
        };
        let res = fold_one(table_id, &parts[i], cur, commit_op);
        match res {
            Ok(p) => {
                out.push(p);
            },
            Err(e) => {
                assert(at_max_version(current_of(current@, parts@[i as int].partition_desc@)));
                assert(any_at_max_version(parts@, current@));
                return Err(e);
            },
        }
        i = i + 1;
    }
    Ok(out)
}

/// The record of one partition after folding `commits`, one after the
/// other, starting from `start`.
pub open spec fn fold_all(
    table_id: Seq<char>,
    start: Option<PartitionView>,
    commits: Seq<PartitionView>,
    op: CommitOp,
) -> Option<PartitionView>
    decreases commits.len(),
{
    if commits.len() == 0 {
        start
    } else {
        Some(
            folded(
                table_id,
                commits.last(),
                fold_all(table_id, start, commits.drop_last(), op),
                op,
            ),
        )
    }
}

/// The snapshots of `commits`, concatenated in order.
pub open spec fn all_snapshots(commits: Seq<PartitionView>) -> Seq<crate::entity::Uuid>
    decreases commits.len(),
{
    if commits.len() == 0 {
        Seq::empty()
    } else {
        all_snapshots(commits.drop_last()) + commits.last().snapshot
    }
}

/// Each fold of an append or merge commit into a partition's current
/// record raises its version by exactly one and keeps the stored snapshot
/// entries ahead of the commit's own.
pub proof fn lemma_fold_advances_version(
    table_id: Seq<char>,
    incoming: PartitionView,
    current: PartitionView,
    op: CommitOp,
)
    requires
        op.is_foldable_spec(),
    ensures
        folded(table_id, incoming, Some(current), op).version == current.version + 1,
        folded(table_id, incoming, Some(current), op).snapshot == current.snapshot
            + incoming.snapshot,
        folded(table_id, incoming, Some(current), op).partition_desc == current.partition_desc,
{
}

/// Over a run of commits to one partition, starting from a stored record,
/// the version rises by one per commit and the snapshot is the stored one
/// followed by each commit's entries in call order.
pub proof fn lemma_fold_run(
    table_id: Seq<char>,
    start: PartitionView,
    commits: Seq<PartitionView>,
    op: CommitOp,
)
    requires
        op.is_foldable_spec(),
    ensures
        fold_all(table_id, Some(start), commits, op) is Some,
        fold_all(table_id, Some(start), commits, op)->0.version == start.version + commits.len(),
        fold_all(table_id, Some(start), commits, op)->0.snapshot == start.snapshot
            + all_snapshots(commits),
    decreases commits.len(),
{
    if commits.len() > 0 {
        lemma_fold_run(table_id, start, commits.drop_last(), op);
        assert(start.snapshot + all_snapshots(commits) =~= start.snapshot + all_snapshots(
            commits.drop_last(),
        ) + commits.last().snapshot);
    } else {
        assert(start.snapshot + all_snapshots(commits) =~= start.snapshot);
    }
}

} // verus!
