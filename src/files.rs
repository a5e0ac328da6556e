//! Listing the data files of a table's partitions.

use vstd::prelude::*;

use crate::entity::{DataCommitInfo, DataFileOp, PartitionInfo};
use crate::query::string_views;

verus! {

/// The paths of a commit's file operations, in order.
pub open spec fn ops_paths(ops: Seq<DataFileOp>) -> Seq<Seq<char>> {
    Seq::new(ops.len(), |i: int| ops[i].path@)
}

/// The paths of every file operation of `commits`, commit by commit.
pub open spec fn file_paths(commits: Seq<DataCommitInfo>) -> Seq<Seq<char>>
    decreases commits.len(),
{
    if commits.len() == 0 {
        Seq::empty()
    } else {
        file_paths(commits.drop_last()) + ops_paths(commits.last().file_ops@)
    }
}

/// `desc` is one of the entries of `filter`.
pub open spec fn excluded(filter: Seq<String>, desc: Seq<char>) -> bool {
    exists|i: int| 0 <= i < filter.len() && #[trigger] filter[i]@ == desc
}

/// The data files of partitions `parts` whose commits are `commits`
/// (entry `i` for partition `i`): the file paths of every partition that
/// the filter does not name, in partition order, then commit order.
pub open spec fn data_files(
    parts: Seq<PartitionInfo>,
    filter: Seq<String>,
    commits: Seq<Vec<DataCommitInfo>>,
) -> Seq<Seq<char>>
    decreases parts.len(),
{
    if parts.len() == 0 {
        Seq::empty()
    } else {
        let n = parts.len() - 1;
        data_files(parts.drop_last(), filter, commits) + if excluded(filter, parts[n].partition_desc@) {
            Seq::<Seq<char>>::empty()
        } else {
            file_paths(commits[n]@)
        }
    }
}

/// The filter entry `key=value` of each partition column and value.
pub fn partition_filter(partitions: &Vec<(&str, &str)>) -> (r: Vec<String>)
    ensures
        r@.len() == partitions@.len(),
        forall|i: int|
            0 <= i < r@.len() ==> #[trigger] r@[i]@ == partitions@[i].0@ + "="@ + partitions@[i].1@,
{
    let mut r: Vec<String> = Vec::new();
    let mut i: usize = 0;
    while i < partitions.len()
        invariant
            i <= partitions@.len(),
            r@.len() == i,
            forall|k: int|
                0 <= k < i ==> #[trigger] r@[k]@ == partitions@[k].0@ + "="@ + partitions@[k].1@,
        decreases partitions@.len() - i,
    {
        let (k, v) = partitions[i];
        let mut entry = String::from_str(k);
        entry.append("=");
        entry.append(v);
        r.push(entry);
        i = i + 1;
    }
    r
}

/// Whether the filter names the partition `desc`.
pub fn is_excluded(filter: &Vec<String>, desc: &String) -> (r: bool)
    ensures
        r == excluded(filter@, desc@),
{
    let mut i: usize = 0;
    while i < filter.len()
        invariant
            i <= filter@.len(),
            forall|k: int| 0 <= k < i ==> #[trigger] filter@[k]@ != desc@,
        decreases filter@.len() - i,
    {
        if filter[i] == *desc {
            return true;
        }
        i = i + 1;
    }
    false
}

/// Appends the paths of a commit's file operations.
fn push_paths(out: &mut Vec<String>, ops: &Vec<DataFileOp>)
    ensures
        string_views(final(out)@) == string_views(old(out)@) + ops_paths(ops@),
{
    let ghost start = string_views(out@);
    let mut i: usize = 0;
    while i < ops.len()
        invariant
            i <= ops@.len(),
            string_views(out@) == start + ops_paths(ops@).subrange(0, i as int),
        decreases ops@.len() - i,
    {
        let ghost prev = out@;
        let p = ops[i].path.clone();
        assert(p@ == ops_paths(ops@)[i as int]);
        out.push(p);
        i = i + 1;
        assert(string_views(out@).drop_last() =~= string_views(prev));
        assert(string_views(out@).last() == ops_paths(ops@)[i - 1]);
        assert(string_views(out@) =~= string_views(prev).push(ops_paths(ops@)[i - 1]));
        assert(start + ops_paths(ops@).subrange(0, i as int) =~= (start + ops_paths(ops@).subrange(
            0,
            i - 1,
        )).push(ops_paths(ops@)[i - 1]));
        assert(string_views(out@) =~= start + ops_paths(ops@).subrange(0, i as int));
    }
    assert(ops_paths(ops@).subrange(0, ops@.len() as int) =~= ops_paths(ops@));
}

/// The paths of every file operation of `commits`, commit by commit.
pub fn commit_file_paths(commits: &Vec<DataCommitInfo>) -> (r: Vec<String>)
    ensures
        string_views(r@) == file_paths(commits@),
{
    let mut r: Vec<String> = Vec::new();
    let mut i: usize = 0;
    while i < commits.len()
        invariant
            i <= commits@.len(),
            string_views(r@) == file_paths(commits@.subrange(0, i as int)),
        decreases commits@.len() - i,
    {
        push_paths(&mut r, &commits[i].file_ops);
        i = i + 1;
        assert(commits@.subrange(0, i as int).drop_last() =~= commits@.subrange(0, i - 1));
    }
    assert(commits@.subrange(0, commits@.len() as int) =~= commits@);
    r
}

/// The data files of a table's partitions `partitions`, where entry `i` of
/// `commits` lists the commits of partition `i`: every file path of every
/// partition that `filter` does not name, in partition order and then in
/// commit order. The filter excludes: a partition it names is skipped,
/// and its entry in `commits` is not read.
pub fn collect_data_files(
    partitions: &Vec<PartitionInfo>,
    filter: &Vec<String>,
    commits: &Vec<Vec<DataCommitInfo>>,
) -> (r: Vec<String>)
    requires
        commits@.len() == partitions@.len(),
    ensures
        string_views(r@) == data_files(partitions@, filter@, commits@),
{
    let mut r: Vec<String> = Vec::new();
    let mut i: usize = 0;
    while i < partitions.len()
        invariant
            i <= partitions@.len(),
            commits@.len() == partitions@.len(),
            string_views(r@) == data_files(partitions@.subrange(0, i as int), filter@, commits@),
        decreases partitions@.len() - i,
    {
        let ghost before = string_views(r@);
        if !is_excluded(filter, &partitions[i].partition_desc) {
            let mut paths = commit_file_paths(&commits[i]);
            let ghost added = string_views(paths@);
            r.append(&mut paths);
            assert(string_views(r@) =~= before + added);
        } else {
            assert(string_views(r@) =~= before + Seq::<Seq<char>>::empty());
        }
        i = i + 1;
        assert(partitions@.subrange(0, i as int).drop_last() =~= partitions@.subrange(0, i - 1));
    }
    assert(partitions@.subrange(0, partitions@.len() as int) =~= partitions@);
    r
}

} // verus!
