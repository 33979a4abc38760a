//! The traversal of the dependency tree's lines: one rendered line for each,
//! the totals over the distinct packages, and the count of packages without
//! metrics.

use vstd::prelude::*;
use crate::cells::{
    empty_row_width, lemma_empty_row_width, row_text, table_footer, table_row, table_row_empty,
    table_row_empty_width,
};
use crate::split::{
    checked_unsafe_stats, path_set, split_of, unsafe_stats, PackageMetrics, SplitView,
};
use crate::status::{
    line_style, overall_status, status_of, style_of, CrateDetectionStatus, LineStyle,
    OutputFormat, TotalPackageCounts, Totals, UnsafeInfo,
};
use crate::text::{pad_right, pad_string_right, spaces};

verus! {

/// The kind of a group of dependencies.
#[derive(Clone, Copy, Debug, PartialEq, Eq, Structural)]
pub enum DepKind {
    Normal,
    Build,
    Development,
}

/// One line of the dependency tree, as the tree's builder lays it out.
#[derive(Debug)]
pub enum TextTreeLine {
    /// A package: its index in the table of packages, and the vines that
    /// draw its place in the tree.
    Package { id: usize, tree_vines: String },
    /// The heading of a group of dependencies of one kind.
    ExtraDepsGroup { kind: DepKind, tree_vines: String },
}

/// What the report knows of one package.
#[derive(Debug)]
pub struct PackageRecord {
    /// The package's name as the report shows it.
    pub label: String,
    /// The metrics of its files, where it was scanned.
    pub metrics: Option<PackageMetrics>,
}

/// The symbol that stands for each detection status.
#[derive(Debug)]
pub struct EmojiSymbols {
    pub forbids_unsafe: String,
    pub allows_unsafe: String,
    pub unsafe_detected: String,
}

/// What a traversal reads besides the tree's lines.
#[derive(Debug)]
pub struct TableParameters {
    /// The packages; a tree line names one by its index here.
    pub packages: Vec<PackageRecord>,
    /// The paths of the files that the build uses.
    pub rs_files_used: Vec<String>,
    pub output_format: OutputFormat,
    pub symbols: EmojiSymbols,
}

/// One line of the report: the tree's vines, the part that is styled as a
/// whole, and the label after it.
#[derive(Debug)]
pub struct ReportLine {
    pub prefix: String,
    pub body: String,
    pub style: LineStyle,
    pub label: String,
}

/// The mathematical value of a report line.
pub struct LineView {
    pub prefix: Seq<char>,
    pub body: Seq<char>,
    pub style: LineStyle,
    pub label: Seq<char>,
}

/// The outcome of a traversal.
#[derive(Debug)]
pub struct ScanResult {
    pub scan_output_lines: Vec<ReportLine>,
    /// The number of package lines whose package has no metrics.
    pub warning_count: u64,
    /// The totals over the distinct packages of the tree.
    pub totals: TotalPackageCounts,
}

impl View for ReportLine {
    type V = LineView;

    open spec fn view(&self) -> LineView {
        LineView { prefix: self.prefix@, body: self.body@, style: self.style, label: self.label@ }
    }
}

impl LineView {
    pub open spec fn blank() -> LineView {
        LineView {
            prefix: Seq::empty(),
            body: Seq::empty(),
            style: LineStyle::Unstyled,
            label: Seq::empty(),
        }
    }

    /// The line's characters from left to right.
    pub open spec fn text(self) -> Seq<char> {
        self.prefix + self.body + self.label
    }
}

impl ReportLine {
    pub fn blank() -> (line: ReportLine)
        ensures
            line@ == LineView::blank(),
    {
        ReportLine {
            prefix: String::new(),
            body: String::new(),
            style: LineStyle::Unstyled,
            label: String::new(),
        }
    }

    /// The line without its style.
    pub fn text(&self) -> (text: String)
        ensures
            text@ == self@.text(),
    {
        let mut text = self.prefix.clone();
        text.append(self.body.as_str());
        text.append(self.label.as_str());
        text
    }
}

impl TableParameters {
    /// The metrics of each package hold one entry for each path.
    pub open spec fn wf(&self) -> bool {
        forall|i: int|
            0 <= i < self.packages@.len() ==> match (#[trigger] self.packages@[i]).metrics {
                Some(metrics) => metrics.wf(),
                None => true,
            }
    }

    /// Whether the metrics of each package hold one entry for each path.
    pub fn is_wf(&self) -> (ok: bool)
        ensures
            ok == self.wf(),
    {
        let mut i: usize = 0;
        while i < self.packages.len()
            invariant
                i <= self.packages.len(),
                forall|j: int|
                    0 <= j < i ==> match (#[trigger] self.packages@[j]).metrics {
                        Some(metrics) => metrics.wf(),
                        None => true,
                    },
            decreases self.packages.len() - i,
        {
            match &self.packages[i].metrics {
                Some(metrics) => {
                    if !metrics.is_wf() {
                        return false;
                    }
                },
                None => {},
            }
            i += 1;
        }
        true
    }
}

/// The heading of a group of dependencies.
pub open spec fn group_label(kind: DepKind) -> Seq<char> {
    match kind {
        DepKind::Normal => "[dependencies]"@,
        DepKind::Build => "[build-dependencies]"@,
        DepKind::Development => "[dev-dependencies]"@,
    }
}

impl EmojiSymbols {
    /// The symbol of a status.
    pub open spec fn glyph(self, status: CrateDetectionStatus) -> Seq<char> {
        match status {
            CrateDetectionStatus::NoneDetectedForbidsUnsafe => self.forbids_unsafe@,
            CrateDetectionStatus::NoneDetectedAllowsUnsafe => self.allows_unsafe@,
            CrateDetectionStatus::UnsafeDetected => self.unsafe_detected@,
        }
    }

    pub fn emoji(&self, status: CrateDetectionStatus) -> (symbol: &String)
        ensures
            symbol@ == self.glyph(status),
    {
        match status {
            CrateDetectionStatus::NoneDetectedForbidsUnsafe => &self.forbids_unsafe,
            CrateDetectionStatus::NoneDetectedAllowsUnsafe => &self.allows_unsafe,
            CrateDetectionStatus::UnsafeDetected => &self.unsafe_detected,
        }
    }
}

/// The split of the package at `id`, where there is one with metrics.
pub open spec fn lookup(packages: Seq<PackageRecord>, used: Set<Seq<char>>, id: int) -> Option<
    SplitView,
> {
    if 0 <= id < packages.len() {
        match packages[id].metrics {
            Some(metrics) => Some(split_of(metrics.rs_path_to_metrics@, used)),
            None => None,
        }
    } else {
        None
    }
}

/// The label of the package at `id`; empty where there is none.
pub open spec fn label_of(packages: Seq<PackageRecord>, id: int) -> Seq<char> {
    if 0 <= id < packages.len() {
        packages[id].label@
    } else {
        Seq::empty()
    }
}

/// The styled part of a populated row: the symbol in two columns, a space,
/// the five cells and a space, filled up to the width of the blank that
/// stands for a package without metrics.
pub open spec fn row_body(symbol: Seq<char>, split: SplitView, format: OutputFormat) -> Seq<char> {
    pad_right(
        pad_right(symbol, 2) + seq![' '] + row_text(split.used, split.unused, format) + seq![' '],
        empty_row_width(),
    )
}

/// A populated row whose symbol and cells keep to their columns is as wide
/// as the blank that stands for a package without metrics.
pub proof fn lemma_populated_row_is_as_wide_as_blank(
    symbol: Seq<char>,
    split: SplitView,
    format: OutputFormat,
)
    requires
        symbol.len() <= 2,
        row_text(split.used, split.unused, format).len() <= 46,
    ensures
        row_body(symbol, split, format).len() == spaces(empty_row_width()).len(),
        row_body(symbol, split, format).len() == 55,
{
    lemma_empty_row_width();
}

/// The line of a package: populated where it has metrics, else a blank of the fixed width.
pub open spec fn package_line(
    vines: Seq<char>,
    label: Seq<char>,
    split: Option<SplitView>,
    symbols: EmojiSymbols,
    format: OutputFormat,
) -> LineView {
    match split {
        Some(s) => {
            let status = status_of(s.used, s.unused, s.forbids_unsafe);
            LineView {
                prefix: vines,
                body: row_body(symbols.glyph(status), s, format),
                style: style_of(status, format),
                label: label,
            }
        },
        None => LineView {
            prefix: vines,
            body: spaces(empty_row_width()),
            style: LineStyle::Unstyled,
            label: label,
        },
    }
}

/// The rendering of one tree line.
pub open spec fn render_line(line: TextTreeLine, params: TableParameters) -> LineView {
    match line {
        TextTreeLine::ExtraDepsGroup { kind, tree_vines } => LineView {
            prefix: tree_vines@,
            body: Seq::empty(),
            style: LineStyle::Unstyled,
            label: group_label(kind),
        },
        TextTreeLine::Package { id, tree_vines } => package_line(
            tree_vines@,
            label_of(params.packages@, id as int),
            lookup(params.packages@, path_set(params.rs_files_used@), id as int),
            params.symbols,
            params.output_format,
        ),
    }
}

/// The footer: the cells of the totals, styled by the overall status.
pub open spec fn footer_line(totals: Totals, format: OutputFormat) -> LineView {
    LineView {
        prefix: Seq::empty(),
        body: row_text(totals.used, totals.unused, format),
        style: style_of(overall_status(totals.detected, totals.allows), format),
        label: Seq::empty(),
    }
}

/// `line` is a line of the package at `id`.
pub open spec fn names_package(line: TextTreeLine, id: int) -> bool {
    match line {
        TextTreeLine::Package { id: named, tree_vines } => named as int == id,
        _ => false,
    }
}

/// The packages that the first `k` lines name.
pub open spec fn seen_ids(lines: Seq<TextTreeLine>, k: int) -> Set<int> {
    Set::new(
        |id: int| exists|j: int| 0 <= j < k && j < lines.len() && names_package(#[trigger] lines[j], id),
    )
}

/// The totals over those of the first `n` packages that are in `seen` and
/// have metrics, each taken once.
pub open spec fn totals_upto(
    packages: Seq<PackageRecord>,
    used: Set<Seq<char>>,
    seen: Set<int>,
    n: int,
) -> Totals
    decreases n,
{
    if n <= 0 || n > packages.len() {
        Totals::zero()
    } else {
        let rest = totals_upto(packages, used, seen, n - 1);
        match lookup(packages, used, n - 1) {
            Some(s) => if seen.contains(n - 1) {
                rest.with_package(s.used, s.unused, s.forbids_unsafe)
            } else {
                rest
            },
            None => rest,
        }
    }
}

/// The totals of a report: over the set of packages that its lines name.
pub open spec fn report_totals(params: TableParameters, lines: Seq<TextTreeLine>) -> Totals {
    totals_upto(
        params.packages@,
        path_set(params.rs_files_used@),
        seen_ids(lines, lines.len() as int),
        params.packages@.len() as int,
    )
}

/// The number of package lines among the first `k` whose package has no metrics.
pub open spec fn missing_count(lines: Seq<TextTreeLine>, params: TableParameters, k: int) -> int
    decreases k,
{
    if k <= 0 || k > lines.len() {
        0
    } else {
        missing_count(lines, params, k - 1) + match lines[k - 1] {
            TextTreeLine::Package { id, tree_vines } => if lookup(
                params.packages@,
                path_set(params.rs_files_used@),
                id as int,
            ).is_none() {
                1int
            } else {
                0int
            },
            _ => 0int,
        }
    }
}

/// No tally of a split is negative.
pub proof fn lemma_lookup_non_negative(packages: Seq<PackageRecord>, used: Set<Seq<char>>, id: int)
    ensures
        lookup(packages, used, id).is_some() ==> lookup(packages, used, id).unwrap().used.non_negative()
            && lookup(packages, used, id).unwrap().unused.non_negative(),
{
    if 0 <= id < packages.len() {
        match packages[id].metrics {
            Some(metrics) => {
                let files = metrics.rs_path_to_metrics@;
                let n = files.len() as int;
                crate::split::lemma_split_monotone(files, used, true, n, n);
                crate::split::lemma_split_monotone(files, used, false, n, n);
            },
            None => {},
        }
    }
}

/// Totals are never negative, and those over a smaller set of packages are
/// within those over a larger one.
pub proof fn lemma_totals_monotone(
    packages: Seq<PackageRecord>,
    used: Set<Seq<char>>,
    fewer: Set<int>,
    more: Set<int>,
    n: int,
)
    requires
        forall|i: int| fewer.contains(i) ==> more.contains(i),
    ensures
        totals_upto(packages, used, fewer, n).non_negative(),
        totals_upto(packages, used, fewer, n).le(totals_upto(packages, used, more, n)),
    decreases n,
{
    if !(n <= 0 || n > packages.len()) {
        lemma_totals_monotone(packages, used, fewer, more, n - 1);
        lemma_lookup_non_negative(packages, used, n - 1);
    }
}

/// The totals over fewer packages are within the totals over more.
pub proof fn lemma_totals_prefix(
    packages: Seq<PackageRecord>,
    used: Set<Seq<char>>,
    seen: Set<int>,
    i: int,
    n: int,
)
    requires
        0 <= i <= n <= packages.len(),
    ensures
        totals_upto(packages, used, seen, i).non_negative(),
        totals_upto(packages, used, seen, i).le(totals_upto(packages, used, seen, n)),
    decreases n,
{
    lemma_totals_monotone(packages, used, seen, seen, i);
    if i < n {
        lemma_totals_prefix(packages, used, seen, i, n - 1);
        lemma_lookup_non_negative(packages, used, n - 1);
    }
}

/// Over no package the totals are zero.
pub proof fn lemma_totals_of_none(packages: Seq<PackageRecord>, used: Set<Seq<char>>, n: int)
    ensures
        totals_upto(packages, used, Set::empty(), n) == Totals::zero(),
    decreases n,
{
    if !(n <= 0 || n > packages.len()) {
        lemma_totals_of_none(packages, used, n - 1);
    }
}

/// The totals read `seen` only below `n`.
pub proof fn lemma_totals_depend_on_prefix(
    packages: Seq<PackageRecord>,
    used: Set<Seq<char>>,
    one: Set<int>,
    other: Set<int>,
    n: int,
)
    requires
        forall|i: int| 0 <= i < n ==> one.contains(i) == other.contains(i),
    ensures
        totals_upto(packages, used, one, n) == totals_upto(packages, used, other, n),
    decreases n,
{
    if !(n <= 0 || n > packages.len()) {
        lemma_totals_depend_on_prefix(packages, used, one, other, n - 1);
    }
}

/// A package that joins the set adds its split to the totals once, if it
/// has metrics, and nothing otherwise.
pub proof fn lemma_totals_insert(
    packages: Seq<PackageRecord>,
    used: Set<Seq<char>>,
    seen: Set<int>,
    id: int,
    n: int,
)
    requires
        0 <= id < n <= packages.len(),
        !seen.contains(id),
    ensures
        totals_upto(packages, used, seen.insert(id), n) == (match lookup(packages, used, id) {
            Some(s) => totals_upto(packages, used, seen, n).with_package(
                s.used,
                s.unused,
                s.forbids_unsafe,
            ),
            None => totals_upto(packages, used, seen, n),
        }),
    decreases n,
{
    if n - 1 == id {
        lemma_totals_depend_on_prefix(packages, used, seen.insert(id), seen, n - 1);
    } else {
        lemma_totals_insert(packages, used, seen, id, n - 1);
    }
}

/// The split of a package in the set is within the totals.
pub proof fn lemma_member_within_totals(
    packages: Seq<PackageRecord>,
    used: Set<Seq<char>>,
    seen: Set<int>,
    id: int,
    n: int,
)
    requires
        0 <= id < n <= packages.len(),
        seen.contains(id),
        lookup(packages, used, id).is_some(),
    ensures
        lookup(packages, used, id).unwrap().used.le(totals_upto(packages, used, seen, n).used),
        lookup(packages, used, id).unwrap().unused.le(totals_upto(packages, used, seen, n).unused),
    decreases n,
{
    lemma_totals_monotone(packages, used, seen, seen, n - 1);
    lemma_lookup_non_negative(packages, used, n - 1);
    if n - 1 > id {
        lemma_member_within_totals(packages, used, seen, id, n - 1);
    }
}

/// Two trees that name the same packages have the same totals and the same
/// footer, whatever the order of their lines and however often a package
/// recurs in them.
pub proof fn lemma_totals_ignore_order_and_repeats(
    params: TableParameters,
    lines: Seq<TextTreeLine>,
    other_lines: Seq<TextTreeLine>,
)
    requires
        forall|id: int|
            seen_ids(lines, lines.len() as int).contains(id) == seen_ids(
                other_lines,
                other_lines.len() as int,
            ).contains(id),
    ensures
        report_totals(params, lines) == report_totals(params, other_lines),
        footer_line(report_totals(params, lines), params.output_format) == footer_line(
            report_totals(params, other_lines),
            params.output_format,
        ),
{
    lemma_totals_depend_on_prefix(
        params.packages@,
        path_set(params.rs_files_used@),
        seen_ids(lines, lines.len() as int),
        seen_ids(other_lines, other_lines.len() as int),
        params.packages@.len() as int,
    );
}

/// `lines` without the line at `at`.
pub open spec fn without_line(lines: Seq<TextTreeLine>, at: int) -> Seq<TextTreeLine> {
    lines.subrange(0, at) + lines.subrange(at + 1, lines.len() as int)
}

/// Taking out a line of a package that has metrics leaves the number of
/// warnings of each run of lines around it as it is.
pub proof fn lemma_missing_count_without(
    params: TableParameters,
    lines: Seq<TextTreeLine>,
    at: int,
    k: int,
)
    requires
        0 <= at < lines.len(),
        0 <= k <= lines.len(),
        lines[at] is Package,
        lookup(
            params.packages@,
            path_set(params.rs_files_used@),
            lines[at]->Package_id as int,
        ).is_some(),
    ensures
        k <= at ==> missing_count(without_line(lines, at), params, k) == missing_count(
            lines,
            params,
            k,
        ),
        k > at ==> missing_count(without_line(lines, at), params, k - 1) == missing_count(
            lines,
            params,
            k,
        ),
    decreases k,
{
    if k > 0 {
        lemma_missing_count_without(params, lines, at, k - 1);
        let rest = without_line(lines, at);
        if k <= at {
            assert(rest[k - 1] == lines[k - 1]);
        } else if k > at + 1 {
            assert(rest[k - 2] == lines[k - 1]);
        }
    }
}

/// A package counts once however often the tree names it: taking out one of
/// two lines of the same package leaves the totals and the footer as they
/// are, and the number of warnings too where the package has metrics.
pub proof fn lemma_repeated_package_counts_once(
    params: TableParameters,
    lines: Seq<TextTreeLine>,
    at: int,
    other: int,
)
    requires
        0 <= at < lines.len(),
        0 <= other < lines.len(),
        at != other,
        lines[at] is Package,
        lines[other] is Package,
        lines[at]->Package_id == lines[other]->Package_id,
    ensures
        report_totals(params, without_line(lines, at)) == report_totals(params, lines),
        footer_line(report_totals(params, without_line(lines, at)), params.output_format)
            == footer_line(report_totals(params, lines), params.output_format),
        lookup(
            params.packages@,
            path_set(params.rs_files_used@),
            lines[at]->Package_id as int,
        ).is_some() ==> missing_count(
            without_line(lines, at),
            params,
            lines.len() - 1,
        ) == missing_count(lines, params, lines.len() as int),
{
    let rest = without_line(lines, at);
    assert forall|id: int|
        seen_ids(rest, rest.len() as int).contains(id) == seen_ids(
            lines,
            lines.len() as int,
        ).contains(id) by {
        if seen_ids(rest, rest.len() as int).contains(id) {
            let w = choose|w: int| 0 <= w < rest.len() && names_package(#[trigger] rest[w], id);
            if w < at {
                assert(names_package(lines[w], id));
            } else {
                assert(rest[w] == lines[w + 1]);
                assert(names_package(lines[w + 1], id));
            }
        }
        if seen_ids(lines, lines.len() as int).contains(id) {
            let w = choose|w: int| 0 <= w < lines.len() && names_package(#[trigger] lines[w], id);
            let v = if w == at {
                other
            } else {
                w
            };
            assert(names_package(lines[v], id));
            if v < at {
                assert(rest[v] == lines[v]);
                assert(names_package(rest[v], id));
            } else {
                assert(rest[v - 1] == lines[v]);
                assert(names_package(rest[v - 1], id));
            }
        }
    }
    lemma_totals_ignore_order_and_repeats(params, rest, lines);
    if lookup(
        params.packages@,
        path_set(params.rs_files_used@),
        lines[at]->Package_id as int,
    ).is_some() {
        lemma_missing_count_without(params, lines, at, lines.len() as int);
    }
}

/// The heading of a group of dependencies, as a string.
pub fn get_kind_group_name(kind: DepKind) -> (name: &'static str)
    ensures
        name@ == group_label(kind),
{
    match kind {
        DepKind::Normal => "[dependencies]",
        DepKind::Build => "[build-dependencies]",
        DepKind::Development => "[dev-dependencies]",
    }
}

/// Renders the heading of a group of dependencies: the vines and the
/// group's name, with no cells.
pub fn handle_text_tree_line_extra_deps_group(kind: DepKind, tree_vines: &String) -> (line:
    ReportLine)
    ensures
        line@ == (LineView {
            prefix: tree_vines@,
            body: Seq::empty(),
            style: LineStyle::Unstyled,
            label: group_label(kind),
        }),
{
    ReportLine {
        prefix: tree_vines.clone(),
        body: String::new(),
        style: LineStyle::Unstyled,
        label: String::from_str(get_kind_group_name(kind)),
    }
}

/// Renders the line of a package from its split, or the blank of the fixed
/// width where it has none.
pub fn handle_text_tree_line_package(
    symbols: &EmojiSymbols,
    output_format: OutputFormat,
    tree_vines: &String,
    label: String,
    info: Option<UnsafeInfo>,
) -> (line: ReportLine)
    ensures
        line@ == package_line(
            tree_vines@,
            label@,
            match info {
                Some(i) => Some(i@),
                None => None,
            },
            *symbols,
            output_format,
        ),
{
    match info {
        Some(i) => {
            let status = i.detection_status();
            let symbol = symbols.emoji(status);
            let mut body = symbol.clone();
            pad_string_right(&mut body, 2);
            proof {
                reveal_strlit(" ");
                assert(" "@ =~= seq![' ']);
            }
            body.append(" ");
            let row = table_row(&i.used, &i.unused, output_format);
            body.append(row.as_str());
            body.append(" ");
            pad_string_right(&mut body, table_row_empty_width());
            ReportLine {
                prefix: tree_vines.clone(),
                body,
                style: line_style(status, output_format),
                label,
            }
        },
        None => ReportLine {
            prefix: tree_vines.clone(),
            body: table_row_empty(),
            style: LineStyle::Unstyled,
            label,
        },
    }
}

/// Whether some line names the package at `id`.
pub fn names_package_at(text_tree_lines: &Vec<TextTreeLine>, id: usize) -> (named: bool)
    ensures
        named == seen_ids(text_tree_lines@, text_tree_lines@.len() as int).contains(id as int),
{
    let mut k: usize = 0;
    while k < text_tree_lines.len()
        invariant
            k <= text_tree_lines.len(),
            !seen_ids(text_tree_lines@, k as int).contains(id as int),
        decreases text_tree_lines.len() - k,
    {
        let hit = match &text_tree_lines[k] {
            TextTreeLine::Package { id: named, tree_vines } => *named == id,
            _ => false,
        };
        if hit {
            assert(names_package(text_tree_lines@[k as int], id as int));
            return true;
        }
        assert forall|j: int| 0 <= j < k + 1 && j < text_tree_lines@.len() implies !names_package(
            #[trigger] text_tree_lines@[j],
            id as int,
        ) by {
            if j < k {
                assert(!seen_ids(text_tree_lines@, k as int).contains(id as int));
            }
        }
        k += 1;
    }
    false
}

/// Whether the totals over the packages that the lines name fit their
/// counters: the one condition, beside well-formed metrics, under which
/// the table can be made.
pub fn totals_fit(table_parameters: &TableParameters, text_tree_lines: &Vec<TextTreeLine>) -> (ok:
    bool)
    ensures
        ok == report_totals(*table_parameters, text_tree_lines@).fits(),
{
    let packages = &table_parameters.packages;
    let n = packages.len();
    let ghost used = path_set(table_parameters.rs_files_used@);
    let ghost all = seen_ids(text_tree_lines@, text_tree_lines@.len() as int);
    let mut totals = TotalPackageCounts::new();
    let mut i: usize = 0;
    while i < n
        invariant
            i <= n,
            packages == &table_parameters.packages,
            n == packages@.len(),
            used == path_set(table_parameters.rs_files_used@),
            all == seen_ids(text_tree_lines@, text_tree_lines@.len() as int),
            totals@ == totals_upto(packages@, used, all, i as int),
        decreases n - i,
    {
        proof {
            lemma_totals_prefix(packages@, used, all, i + 1, n as int);
            lemma_lookup_non_negative(packages@, used, i as int);
        }
        if names_package_at(text_tree_lines, i) {
            match &packages[i].metrics {
                Some(metrics) => {
                    proof {
                        lemma_member_within_totals(packages@, used, all, i as int, n as int);
                    }
                    match checked_unsafe_stats(metrics, &table_parameters.rs_files_used) {
                        Some(split) => match totals.checked_add_package(&split) {
                            Some(sum) => {
                                totals = sum;
                            },
                            None => {
                                return false;
                            },
                        },
                        None => {
                            return false;
                        },
                    }
                },
                None => {},
            }
        }
        i += 1;
    }
    true
}

fn unvisited(n: usize) -> (flags: Vec<bool>)
    ensures
        flags@.len() == n,
        forall|i: int| 0 <= i < n ==> !flags@[i],
{
    let mut flags: Vec<bool> = Vec::new();
    while flags.len() < n
        invariant
            flags@.len() <= n,
            forall|i: int| 0 <= i < flags@.len() ==> !flags@[i],
        decreases n - flags@.len(),
    {
        flags.push(false);
    }
    flags
}

/// `result` is the table of `lines`: one rendered line for each tree line
/// in order, then an empty line, the footer over the totals and another
/// empty line; the totals over the packages that the lines name, each
/// taken once; and one warning for each line of a package without metrics.
pub open spec fn is_table_of(
    result: ScanResult,
    params: TableParameters,
    lines: Seq<TextTreeLine>,
) -> bool {
    &&& result.scan_output_lines@.len() == lines.len() + 3
    &&& forall|k: int|
        0 <= k < lines.len() ==> (#[trigger] result.scan_output_lines@[k])@ == render_line(
            lines[k],
            params,
        )
    &&& result.scan_output_lines@[lines.len() as int]@ == LineView::blank()
    &&& result.scan_output_lines@[lines.len() as int + 1]@ == footer_line(
        report_totals(params, lines),
        params.output_format,
    )
    &&& result.scan_output_lines@[lines.len() as int + 2]@ == LineView::blank()
    &&& result.totals@ == report_totals(params, lines)
    &&& result.warning_count == missing_count(lines, params, lines.len() as int)
}

/// Makes the table where it can be made: where the metrics of each package
/// hold one entry for each path and the totals fit their counters. Else
/// `None`.
pub fn try_create_table(table_parameters: &TableParameters, text_tree_lines: Vec<TextTreeLine>) -> (result:
    Option<ScanResult>)
    ensures
        result.is_some() == (table_parameters.wf() && report_totals(
            *table_parameters,
            text_tree_lines@,
        ).fits()),
        result.is_some() ==> is_table_of(result.unwrap(), *table_parameters, text_tree_lines@),
{
    if table_parameters.is_wf() && totals_fit(table_parameters, &text_tree_lines) {
        Some(create_table_from_text_tree_lines(table_parameters, text_tree_lines))
    } else {
        None
    }
}

/// Walks the tree's lines in order and renders one report line for each,
/// then an empty line, the footer over the totals and another empty line.
/// A package adds to the totals at its first line only; each line of a
/// package without metrics adds one to the warnings.
pub fn create_table_from_text_tree_lines(
    table_parameters: &TableParameters,
    text_tree_lines: Vec<TextTreeLine>,
) -> (result: ScanResult)
    requires
        table_parameters.wf(),
        report_totals(*table_parameters, text_tree_lines@).fits(),
    ensures
        is_table_of(result, *table_parameters, text_tree_lines@),
{
    let packages = &table_parameters.packages;
    let n = packages.len();
    let count = text_tree_lines.len();
    let ghost lines = text_tree_lines@;
    let ghost used = path_set(table_parameters.rs_files_used@);
    let ghost all = seen_ids(lines, count as int);
    let mut table_lines: Vec<ReportLine> = Vec::new();
    let mut total_package_counts = TotalPackageCounts::new();
    let mut warning_count: u64 = 0;
    let mut visited_package_ids = unvisited(n);
    let mut k: usize = 0;
    proof {
        lemma_totals_depend_on_prefix(packages@, used, seen_ids(lines, 0), Set::empty(), n as int);
        lemma_totals_of_none(packages@, used, n as int);
        lemma_totals_monotone(packages@, used, seen_ids(lines, 0), all, n as int);
    }
    while k < count
        invariant
            k <= count,
            count == text_tree_lines@.len(),
            lines == text_tree_lines@,
            packages == &table_parameters.packages,
            table_parameters.wf(),
            n == packages@.len(),
            used == path_set(table_parameters.rs_files_used@),
            all == seen_ids(lines, count as int),
            totals_upto(packages@, used, all, n as int).fits(),
            visited_package_ids@.len() == n,
            forall|i: int|
                0 <= i < n ==> visited_package_ids@[i] == seen_ids(lines, k as int).contains(i),
            total_package_counts@ == totals_upto(packages@, used, seen_ids(lines, k as int), n as int),
            warning_count == missing_count(lines, *table_parameters, k as int),
            warning_count <= k,
            table_lines@.len() == k,
            forall|j: int|
                0 <= j < k ==> (#[trigger] table_lines@[j])@ == render_line(
                    lines[j],
                    *table_parameters,
                ),
        decreases count - k,
    {
        let ghost before = seen_ids(lines, k as int);
        let ghost after = seen_ids(lines, k + 1);
        match &text_tree_lines[k] {
            TextTreeLine::ExtraDepsGroup { kind, tree_vines } => {
                assert(after =~= before) by {
                    assert forall|id: int| after.contains(id) implies before.contains(id) by {
                        let w = choose|w: int|
                            0 <= w < k + 1 && w < lines.len() && names_package(#[trigger] lines[w], id);
                        assert(w != k);
                    }
                }
                table_lines.push(handle_text_tree_line_extra_deps_group(*kind, tree_vines));
            },
            TextTreeLine::Package { id, tree_vines } => {
                let id: usize = *id;
                assert(names_package(lines[k as int], id as int));
                assert(after =~= before.insert(id as int)) by {
                    assert forall|other: int| after.contains(other) implies before.insert(
                        id as int,
                    ).contains(other) by {
                        let w = choose|w: int|
                            0 <= w < k + 1 && w < lines.len() && names_package(
                                #[trigger] lines[w],
                                other,
                            );
                        if w != k {
                            assert(before.contains(other));
                        }
                    }
                }
                let mut info: Option<UnsafeInfo> = None;
                let mut label = String::new();
                if id < n {
                    label = packages[id].label.clone();
                    proof {
                        assert(all.contains(id as int));
                        lemma_totals_monotone(packages@, used, after, all, n as int);
                        if before.contains(id as int) {
                            assert(before.insert(id as int) =~= before);
                        } else {
                            lemma_totals_insert(packages@, used, before, id as int, n as int);
                        }
                    }
                    match &packages[id].metrics {
                        Some(metrics) => {
                            proof {
                                lemma_member_within_totals(packages@, used, all, id as int, n as int);
                                lemma_lookup_non_negative(packages@, used, id as int);
                            }
                            let split = unsafe_stats(metrics, &table_parameters.rs_files_used);
                            if !visited_package_ids[id] {
                                total_package_counts.add_package(&split);
                            }
                            info = Some(split);
                        },
                        None => {},
                    }
                    visited_package_ids.set(id, true);
                } else {
                    proof {
                        lemma_totals_depend_on_prefix(packages@, used, after, before, n as int);
                    }
                }
                if info.is_none() {
                    warning_count = warning_count + 1;
                }
                table_lines.push(
                    handle_text_tree_line_package(
                        &table_parameters.symbols,
                        table_parameters.output_format,
                        tree_vines,
                        label,
                        info,
                    ),
                );
            },
        }
        k += 1;
    }
    table_lines.push(ReportLine::blank());
    let total_detection_status = total_package_counts.get_total_detection_status();
    let footer = table_footer(
        total_package_counts.total_counter_block,
        total_package_counts.total_unused_counter_block,
        table_parameters.output_format,
        total_detection_status,
    );
    table_lines.push(
        ReportLine {
            prefix: String::new(),
            body: footer.text,
            style: footer.style,
            label: String::new(),
        },
    );
    table_lines.push(ReportLine::blank());
    ScanResult { scan_output_lines: table_lines, warning_count, totals: total_package_counts }
}

} // verus!
