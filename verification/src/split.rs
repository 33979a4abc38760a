//! The split of a package's file metrics into files that the build uses and
//! files that it does not.

use vstd::prelude::*;
use crate::counters::{CounterBlock, Tally};
use crate::status::UnsafeInfo;
use crate::visitor::RsFileMetrics;

verus! {

/// The metrics of one file of a package.
#[derive(Debug)]
pub struct RsFileMetricsWrapper {
    pub path: String,
    pub metrics: RsFileMetrics,
    pub is_crate_entry_point: bool,
}

/// The metrics of a package: one entry for each scanned file.
#[derive(Debug)]
pub struct PackageMetrics {
    pub rs_path_to_metrics: Vec<RsFileMetricsWrapper>,
}

/// The first place at or after `from` where `files` holds an entry for
/// `path`, or the length of `files` where it holds none.
pub open spec fn position_of(files: Seq<RsFileMetricsWrapper>, path: Seq<char>, from: int) -> int
    decreases files.len() - from,
{
    if from < 0 || from >= files.len() {
        files.len() as int
    } else if files[from].path@ == path {
        from
    } else {
        position_of(files, path, from + 1)
    }
}

/// From `from` on, no entry before the place that `position_of` gives is for `path`.
pub proof fn lemma_position_of(files: Seq<RsFileMetricsWrapper>, path: Seq<char>, from: int)
    requires
        0 <= from,
    ensures
        from <= position_of(files, path, from) || files.len() < from,
        position_of(files, path, from) <= files.len(),
        position_of(files, path, from) < files.len() ==> files[position_of(
            files,
            path,
            from,
        )].path@ == path,
        forall|i: int|
            from <= i < position_of(files, path, from) ==> (#[trigger] files[i]).path@ != path,
    decreases files.len() - from,
{
    if from < files.len() && files[from].path@ != path {
        lemma_position_of(files, path, from + 1);
    }
}

impl PackageMetrics {
    /// No two entries are for the same path.
    pub open spec fn wf(&self) -> bool {
        forall|i: int, j: int|
            0 <= i < j < self.rs_path_to_metrics@.len() ==> (
            #[trigger] self.rs_path_to_metrics@[i]).path@ != (
            #[trigger] self.rs_path_to_metrics@[j]).path@
    }

    /// Whether no two entries are for the same path.
    pub fn is_wf(&self) -> (ok: bool)
        ensures
            ok == self.wf(),
    {
        let files = &self.rs_path_to_metrics;
        let mut j: usize = 0;
        while j < files.len()
            invariant
                j <= files.len(),
                files == &self.rs_path_to_metrics,
                forall|a: int, b: int|
                    0 <= a < b < j ==> (#[trigger] files@[a]).path@ != (#[trigger] files@[b]).path@,
            decreases files.len() - j,
        {
            let mut i: usize = 0;
            while i < j
                invariant
                    i <= j < files.len(),
                    files == &self.rs_path_to_metrics,
                    forall|a: int| 0 <= a < i ==> (#[trigger] files@[a]).path@ != files@[j as int].path@,
                decreases j - i,
            {
                if files[i].path == files[j].path {
                    assert(files@[i as int].path@ == files@[j as int].path@);
                    return false;
                }
                i += 1;
            }
            j += 1;
        }
        true
    }

    /// The metrics of a package with no file.
    pub fn new() -> (metrics: PackageMetrics)
        ensures
            metrics.wf(),
            metrics.rs_path_to_metrics@.len() == 0,
    {
        PackageMetrics { rs_path_to_metrics: Vec::new() }
    }

    /// Records the metrics of a file: in place of the entry for the same
    /// path where there is one, else as a further entry. Returns whether an
    /// entry was replaced.
    pub fn insert(&mut self, entry: RsFileMetricsWrapper) -> (replaced: bool)
        requires
            old(self).wf(),
        ensures
            final(self).wf(),
            replaced == (position_of(old(self).rs_path_to_metrics@, entry.path@, 0) < old(
                self,
            ).rs_path_to_metrics@.len()),
            replaced ==> final(self).rs_path_to_metrics@ == old(self).rs_path_to_metrics@.update(
                position_of(old(self).rs_path_to_metrics@, entry.path@, 0),
                entry,
            ),
            !replaced ==> final(self).rs_path_to_metrics@ == old(self).rs_path_to_metrics@.push(
                entry,
            ),
    {
        let ghost files = self.rs_path_to_metrics@;
        let mut at: usize = 0;
        let mut found = false;
        proof {
            lemma_position_of(files, entry.path@, 0);
        }
        while !found && at < self.rs_path_to_metrics.len()
            invariant
                files == self.rs_path_to_metrics@,
                at <= files.len(),
                position_of(files, entry.path@, 0) == position_of(files, entry.path@, at as int),
                found ==> at < files.len() && files[at as int].path@ == entry.path@,
            decreases files.len() - at + (if found { 0int } else { 1int }),
        {
            if self.rs_path_to_metrics[at].path == entry.path {
                found = true;
            } else {
                at += 1;
            }
        }
        if found {
            self.rs_path_to_metrics.set(at, entry);
        } else {
            self.rs_path_to_metrics.push(entry);
        }
        found
    }
}

/// The mathematical value of a split.
pub struct SplitView {
    pub used: Tally,
    pub unused: Tally,
    pub forbids_unsafe: bool,
}

impl View for UnsafeInfo {
    type V = SplitView;

    open spec fn view(&self) -> SplitView {
        SplitView { used: self.used@, unused: self.unused@, forbids_unsafe: self.forbids_unsafe }
    }
}

/// The set of paths that a list names.
pub open spec fn path_set(paths: Seq<String>) -> Set<Seq<char>> {
    Set::new(|p: Seq<char>| exists|i: int| 0 <= i < paths.len() && (#[trigger] paths[i])@ == p)
}

/// The summed counters of those among the first `n` files whose membership
/// in `used` is `want_used`.
pub open spec fn split_tally(
    files: Seq<RsFileMetricsWrapper>,
    used: Set<Seq<char>>,
    want_used: bool,
    n: int,
) -> Tally
    decreases n,
{
    if n <= 0 || n > files.len() {
        Tally::zero()
    } else {
        let rest = split_tally(files, used, want_used, n - 1);
        if used.contains(files[n - 1].path@) == want_used {
            rest.plus(files[n - 1].metrics.counters@)
        } else {
            rest
        }
    }
}

/// No entry point among the first `n` files allows unsafe code.
pub open spec fn entry_points_forbid(files: Seq<RsFileMetricsWrapper>, n: int) -> bool {
    forall|i: int|
        0 <= i < n && i < files.len() && (#[trigger] files[i]).is_crate_entry_point
            ==> files[i].metrics.forbids_unsafe
}

/// The split of a package's files by the set of used paths. A used path
/// without metrics adds nothing.
pub open spec fn split_of(files: Seq<RsFileMetricsWrapper>, used: Set<Seq<char>>) -> SplitView {
    SplitView {
        used: split_tally(files, used, true, files.len() as int),
        unused: split_tally(files, used, false, files.len() as int),
        forbids_unsafe: entry_points_forbid(files, files.len() as int),
    }
}

/// The sum over fewer files is within the sum over more, and none is negative.
pub proof fn lemma_split_monotone(
    files: Seq<RsFileMetricsWrapper>,
    used: Set<Seq<char>>,
    want_used: bool,
    i: int,
    n: int,
)
    requires
        0 <= i <= n <= files.len(),
    ensures
        split_tally(files, used, want_used, i).non_negative(),
        split_tally(files, used, want_used, i).le(split_tally(files, used, want_used, n)),
    decreases n,
{
    if i < n {
        lemma_split_monotone(files, used, want_used, i, n - 1);
    } else if i > 0 {
        lemma_split_monotone(files, used, want_used, i - 1, i - 1);
    }
}

/// Used and unused counters together are the counters of all files: every
/// file is on exactly one side.
pub proof fn lemma_split_is_partition(files: Seq<RsFileMetricsWrapper>, used: Set<Seq<char>>, n: int)
    ensures
        split_tally(files, used, true, n).plus(split_tally(files, used, false, n)) == split_tally(
            files,
            Set::<Seq<char>>::full(),
            true,
            n,
        ),
    decreases n,
{
    if !(n <= 0 || n > files.len()) {
        lemma_split_is_partition(files, used, n - 1);
    }
}

/// Whether `path` is one of `paths`.
pub fn contains_path(paths: &Vec<String>, path: &String) -> (found: bool)
    ensures
        found == path_set(paths@).contains(path@),
{
    let mut i: usize = 0;
    while i < paths.len()
        invariant
            i <= paths.len(),
            forall|j: int| 0 <= j < i ==> (#[trigger] paths@[j])@ != path@,
        decreases paths.len() - i,
    {
        if paths[i] == *path {
            return true;
        }
        i += 1;
    }
    false
}

/// Splits the metrics of a package: the counters of the files in
/// `rs_files_used` are summed as used, those of the others as unused, and
/// the package forbids unsafe code where each of its entry points does.
pub fn unsafe_stats(package_metrics: &PackageMetrics, rs_files_used: &Vec<String>) -> (info:
    UnsafeInfo)
    requires
        package_metrics.wf(),
        split_of(package_metrics.rs_path_to_metrics@, path_set(rs_files_used@)).used.fits(),
        split_of(package_metrics.rs_path_to_metrics@, path_set(rs_files_used@)).unused.fits(),
    ensures
        info@ == split_of(package_metrics.rs_path_to_metrics@, path_set(rs_files_used@)),
{
    let files = &package_metrics.rs_path_to_metrics;
    let ghost used_set = path_set(rs_files_used@);
    let mut used = CounterBlock::new();
    let mut unused = CounterBlock::new();
    let mut forbids_unsafe = true;
    let mut i: usize = 0;
    while i < files.len()
        invariant
            i <= files.len(),
            used_set == path_set(rs_files_used@),
            split_tally(files@, used_set, true, files.len() as int).fits(),
            split_tally(files@, used_set, false, files.len() as int).fits(),
            used@ == split_tally(files@, used_set, true, i as int),
            unused@ == split_tally(files@, used_set, false, i as int),
            forbids_unsafe == entry_points_forbid(files@, i as int),
        decreases files.len() - i,
    {
        proof {
            lemma_split_monotone(files@, used_set, true, i + 1, files.len() as int);
            lemma_split_monotone(files@, used_set, false, i + 1, files.len() as int);
        }
        let file = &files[i];
        if contains_path(rs_files_used, &file.path) {
            used = used.plus(file.metrics.counters);
        } else {
            unused = unused.plus(file.metrics.counters);
        }
        if !file.metrics.forbids_unsafe && file.is_crate_entry_point {
            forbids_unsafe = false;
        }
        i += 1;
    }
    UnsafeInfo { used, unused, forbids_unsafe }
}

/// The split of a package's metrics where its sums fit their counters,
/// else `None`.
pub fn checked_unsafe_stats(package_metrics: &PackageMetrics, rs_files_used: &Vec<String>) -> (info:
    Option<UnsafeInfo>)
    ensures
        info.is_some() == (split_of(
            package_metrics.rs_path_to_metrics@,
            path_set(rs_files_used@),
        ).used.fits() && split_of(
            package_metrics.rs_path_to_metrics@,
            path_set(rs_files_used@),
        ).unused.fits()),
        info.is_some() ==> info.unwrap()@ == split_of(
            package_metrics.rs_path_to_metrics@,
            path_set(rs_files_used@),
        ),
{
    let files = &package_metrics.rs_path_to_metrics;
    let ghost used_set = path_set(rs_files_used@);
    let mut used = CounterBlock::new();
    let mut unused = CounterBlock::new();
    let mut forbids_unsafe = true;
    let mut i: usize = 0;
    while i < files.len()
        invariant
            i <= files.len(),
            files == &package_metrics.rs_path_to_metrics,
            used_set == path_set(rs_files_used@),
            used@ == split_tally(files@, used_set, true, i as int),
            unused@ == split_tally(files@, used_set, false, i as int),
            forbids_unsafe == entry_points_forbid(files@, i as int),
        decreases files.len() - i,
    {
        proof {
            lemma_split_monotone(files@, used_set, true, i + 1, files.len() as int);
            lemma_split_monotone(files@, used_set, false, i + 1, files.len() as int);
        }
        let file = &files[i];
        if contains_path(rs_files_used, &file.path) {
            match used.checked_plus(file.metrics.counters) {
                Some(sum) => {
                    used = sum;
                },
                None => {
                    return None;
                },
            }
        } else {
            match unused.checked_plus(file.metrics.counters) {
                Some(sum) => {
                    unused = sum;
                },
                None => {
                    return None;
                },
            }
        }
        if !file.metrics.forbids_unsafe && file.is_crate_entry_point {
            forbids_unsafe = false;
        }
        i += 1;
    }
    Some(UnsafeInfo { used, unused, forbids_unsafe })
}

} // verus!
