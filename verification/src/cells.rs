//! The cells, rows and footers of the table, in counts mode and in ratio mode.

use vstd::prelude::*;
use crate::counters::{Count, CounterBlock, Pair, Tally};
use crate::status::{style_of, line_style, CrateDetectionStatus, LineStyle, OutputFormat};
use crate::text::{
    append_chars, append_padded_left, append_padded_right, append_spaces, decimal, decimal_chars,
    all_digits, digit_char, digit_value, held, lemma_decimal_digits, lemma_parse_decimal, pad_left,
    pad_right, parse_decimal, parse_number, spaces, string_of,
};

verus! {

/// A rendered text together with the one style that all of it receives.
#[derive(Debug)]
pub struct StyledLine {
    pub text: String,
    pub style: LineStyle,
}

/// A counts-mode cell: the used unsafe occurrences over all unsafe occurrences.
pub open spec fn counts_cell(used: Pair, not_used: Pair) -> Seq<char> {
    decimal(used.unsafe_) + seq!['/'] + decimal(used.unsafe_ + not_used.unsafe_)
}

/// The share of `part` in `whole` in hundredths of a percent, rounded to the
/// nearest, an exact half going to the even neighbour, and exactly one
/// hundred percent of nothing.
pub open spec fn percent_hundredths(part: int, whole: int) -> int {
    if whole == 0 {
        10000
    } else {
        let below = (10000 * part) / whole;
        let rest = (10000 * part) % whole;
        if 2 * rest > whole || (2 * rest == whole && below % 2 == 1) {
            below + 1
        } else {
            below
        }
    }
}

/// Hundredths of a percent written with two decimals.
pub open spec fn percent_text(hundredths: int) -> Seq<char> {
    decimal(hundredths / 100) + seq!['.', digit_char((hundredths % 100) / 10), digit_char(hundredths % 10)]
}

/// A ratio-mode cell: safe occurrences over all occurrences, used or not,
/// and the percentage that this is.
pub open spec fn ratio_cell(used: Pair, not_used: Pair) -> Seq<char> {
    let safe = used.safe + not_used.safe;
    let all = used.total() + not_used.total();
    pad_left(decimal(safe), 5) + seq!['/'] + decimal(all) + seq!['='] + percent_text(
        percent_hundredths(safe, all),
    ) + seq!['%']
}

/// The five counts-mode cells in their columns.
pub open spec fn counts_row(used: Tally, not_used: Tally) -> Seq<char> {
    pad_right(counts_cell(used.functions, not_used.functions), 10) + seq![' '] + pad_right(
        counts_cell(used.exprs, not_used.exprs),
        12,
    ) + seq![' '] + pad_right(counts_cell(used.item_impls, not_used.item_impls), 6) + seq![' ']
        + pad_right(counts_cell(used.item_traits, not_used.item_traits), 7) + seq![' ']
        + pad_right(counts_cell(used.methods, not_used.methods), 7)
}

/// The five ratio-mode cells in their columns.
pub open spec fn ratio_row(used: Tally, not_used: Tally) -> Seq<char> {
    pad_right(ratio_cell(used.functions, not_used.functions), 12) + seq![' '] + pad_right(
        ratio_cell(used.exprs, not_used.exprs),
        18,
    ) + seq![' '] + pad_right(ratio_cell(used.item_impls, not_used.item_impls), 18) + seq![' ']
        + pad_right(ratio_cell(used.item_traits, not_used.item_traits), 12) + seq![' ']
        + pad_right(ratio_cell(used.methods, not_used.methods), 12)
}

/// The cells of a row in the mode that `format` selects.
pub open spec fn row_text(used: Tally, not_used: Tally, format: OutputFormat) -> Seq<char> {
    if format.is_ratio() {
        ratio_row(used, not_used)
    } else {
        counts_row(used, not_used)
    }
}

/// Renders one counts-mode cell.
pub fn format_counts_cell(used: &Count, not_used: &Count) -> (cell: Vec<char>)
    ensures
        cell@ == counts_cell(used@, not_used@),
{
    let mut cell = decimal_chars(used.unsafe_ as u128);
    cell.push('/');
    let all: u128 = used.unsafe_ as u128 + not_used.unsafe_ as u128;
    let tail = decimal_chars(all);
    append_chars(&mut cell, &tail);
    assert(cell@ =~= counts_cell(used@, not_used@));
    cell
}

/// Renders one ratio-mode cell.
pub fn format_ratio_cell(used: &Count, not_used: &Count) -> (cell: Vec<char>)
    ensures
        cell@ == ratio_cell(used@, not_used@),
{
    let safe: u128 = used.safe as u128 + not_used.safe as u128;
    let all: u128 = used.safe as u128 + used.unsafe_ as u128 + not_used.unsafe_ as u128
        + not_used.safe as u128;
    let hundredths: u128 = if all == 0 {
        10000
    } else {
        let below: u128 = (10000 * safe) / all;
        let rest: u128 = (10000 * safe) % all;
        if 2 * rest > all || (2 * rest == all && below % 2 == 1) {
            below + 1
        } else {
            below
        }
    };
    assert(hundredths as int == percent_hundredths(safe as int, all as int));
    let mut cell: Vec<char> = Vec::new();
    let numerator = decimal_chars(safe);
    append_padded_left(&mut cell, &numerator, 5);
    cell.push('/');
    let denominator = decimal_chars(all);
    append_chars(&mut cell, &denominator);
    cell.push('=');
    let whole = decimal_chars(hundredths / 100);
    append_chars(&mut cell, &whole);
    cell.push('.');
    let tenths = decimal_chars((hundredths % 100) / 10);
    let last = decimal_chars(hundredths % 10);
    append_chars(&mut cell, &tenths);
    append_chars(&mut cell, &last);
    cell.push('%');
    assert(tenths@ =~= seq![digit_char((hundredths as int % 100) / 10)]);
    assert(last@ =~= seq![digit_char(hundredths as int % 10)]);
    assert(cell@ =~= ratio_cell(used@, not_used@));
    cell
}

fn counts_row_chars(used: &CounterBlock, not_used: &CounterBlock) -> (row: Vec<char>)
    ensures
        row@ == counts_row(used@, not_used@),
{
    let mut row: Vec<char> = Vec::new();
    let functions = format_counts_cell(&used.functions, &not_used.functions);
    append_padded_right(&mut row, &functions, 10);
    row.push(' ');
    let exprs = format_counts_cell(&used.exprs, &not_used.exprs);
    append_padded_right(&mut row, &exprs, 12);
    row.push(' ');
    let item_impls = format_counts_cell(&used.item_impls, &not_used.item_impls);
    append_padded_right(&mut row, &item_impls, 6);
    row.push(' ');
    let item_traits = format_counts_cell(&used.item_traits, &not_used.item_traits);
    append_padded_right(&mut row, &item_traits, 7);
    row.push(' ');
    let methods = format_counts_cell(&used.methods, &not_used.methods);
    append_padded_right(&mut row, &methods, 7);
    assert(row@ =~= counts_row(used@, not_used@));
    row
}

fn ratio_row_chars(used: &CounterBlock, not_used: &CounterBlock) -> (row: Vec<char>)
    ensures
        row@ == ratio_row(used@, not_used@),
{
    let mut row: Vec<char> = Vec::new();
    let functions = format_ratio_cell(&used.functions, &not_used.functions);
    append_padded_right(&mut row, &functions, 12);
    row.push(' ');
    let exprs = format_ratio_cell(&used.exprs, &not_used.exprs);
    append_padded_right(&mut row, &exprs, 18);
    row.push(' ');
    let item_impls = format_ratio_cell(&used.item_impls, &not_used.item_impls);
    append_padded_right(&mut row, &item_impls, 18);
    row.push(' ');
    let item_traits = format_ratio_cell(&used.item_traits, &not_used.item_traits);
    append_padded_right(&mut row, &item_traits, 12);
    row.push(' ');
    let methods = format_ratio_cell(&used.methods, &not_used.methods);
    append_padded_right(&mut row, &methods, 12);
    assert(row@ =~= ratio_row(used@, not_used@));
    row
}

/// The cells of a row as characters, in the mode that `output_format` selects.
pub fn table_row_chars(
    used: &CounterBlock,
    not_used: &CounterBlock,
    output_format: OutputFormat,
) -> (row: Vec<char>)
    ensures
        row@ == row_text(used@, not_used@, output_format),
{
    if output_format.shows_ratio() {
        ratio_row_chars(used, not_used)
    } else {
        counts_row_chars(used, not_used)
    }
}

/// The five cells of a package's row.
pub fn table_row(used: &CounterBlock, not_used: &CounterBlock, output_format: OutputFormat) -> (row:
    String)
    ensures
        row@ == row_text(used@, not_used@, output_format),
{
    let chars = table_row_chars(used, not_used, output_format);
    string_of(&chars)
}

/// The footer in counts mode, styled by the overall status.
pub fn table_footer_unsafe_counts(
    used: CounterBlock,
    not_used: CounterBlock,
    output_format: OutputFormat,
    status: CrateDetectionStatus,
) -> (footer: StyledLine)
    ensures
        footer.text@ == counts_row(used@, not_used@),
        footer.style == style_of(status, output_format),
{
    let chars = counts_row_chars(&used, &not_used);
    StyledLine { text: string_of(&chars), style: line_style(status, output_format) }
}

/// The footer in ratio mode, styled by the overall status.
pub fn table_footer_safe_ratio(
    used: CounterBlock,
    not_used: CounterBlock,
    output_format: OutputFormat,
    status: CrateDetectionStatus,
) -> (footer: StyledLine)
    ensures
        footer.text@ == ratio_row(used@, not_used@),
        footer.style == style_of(status, output_format),
{
    let chars = ratio_row_chars(&used, &not_used);
    StyledLine { text: string_of(&chars), style: line_style(status, output_format) }
}

/// The footer: the cells of the grand totals in the mode of the format,
/// styled by the overall status.
pub fn table_footer(
    used: CounterBlock,
    not_used: CounterBlock,
    output_format: OutputFormat,
    status: CrateDetectionStatus,
) -> (footer: StyledLine)
    ensures
        footer.text@ == row_text(used@, not_used@, output_format),
        footer.style == style_of(status, output_format),
{
    match output_format {
        OutputFormat::Ratio | OutputFormat::Code => table_footer_safe_ratio(
            used,
            not_used,
            output_format,
            status,
        ),
        _ => table_footer_unsafe_counts(used, not_used, output_format, status),
    }
}

/// The six column labels, each but the last with the space that follows it.
pub open spec fn header_label(column: int) -> Seq<char> {
    if column == 0 {
        "Functions "@
    } else if column == 1 {
        "Expressions "@
    } else if column == 2 {
        "Impls "@
    } else if column == 3 {
        "Traits "@
    } else if column == 4 {
        "Methods "@
    } else {
        "Dependency"@
    }
}

/// The number of columns in the header.
pub const HEADER_COLUMNS: usize = 6;

/// The label of a column of the header.
pub fn unsafe_counters_header(column: usize) -> (label: &'static str)
    requires
        column < HEADER_COLUMNS,
    ensures
        label@ == header_label(column as int),
        label@.len() <= 12,
{
    proof {
        reveal_strlit("Functions ");
        reveal_strlit("Expressions ");
        reveal_strlit("Impls ");
        reveal_strlit("Traits ");
        reveal_strlit("Methods ");
        reveal_strlit("Dependency");
    }
    match column {
        0 => "Functions ",
        1 => "Expressions ",
        2 => "Impls ",
        3 => "Traits ",
        4 => "Methods ",
        _ => "Dependency",
    }
}

/// The summed length of the first `columns` labels.
pub open spec fn header_width(columns: int) -> int
    decreases columns,
{
    if columns <= 0 {
        0
    } else {
        header_width(columns - 1) + header_label(columns - 1).len()
    }
}

/// The width of the blank that stands in for the cells of a package without
/// metrics: the labels of the counter columns, one more for each of them,
/// four of spacing, two for the symbol and one for the space after it.
pub open spec fn empty_row_width() -> int {
    header_width(HEADER_COLUMNS - 1) + (HEADER_COLUMNS - 1) + 4 + 2 + 1
}

/// The blank is fifty-five characters wide.
pub proof fn lemma_empty_row_width()
    ensures
        empty_row_width() == 55,
{
    reveal_strlit("Functions ");
    reveal_strlit("Expressions ");
    reveal_strlit("Impls ");
    reveal_strlit("Traits ");
    reveal_strlit("Methods ");
    reveal_with_fuel(header_width, 6);
}

/// Computes the width of the blank from the labels of the header.
pub fn table_row_empty_width() -> (width: usize)
    ensures
        width == empty_row_width(),
        width == 55,
{
    let mut n: usize = 0;
    let mut column: usize = 0;
    proof {
        lemma_empty_row_width();
    }
    while column < HEADER_COLUMNS - 1
        invariant
            column <= HEADER_COLUMNS - 1,
            n == header_width(column as int),
            n <= 12 * column,
        decreases HEADER_COLUMNS - 1 - column,
    {
        let label = unsafe_counters_header(column);
        n = n + label.unicode_len();
        column = column + 1;
    }
    n + (HEADER_COLUMNS - 1) + 4 + 2 + 1
}

/// The blank that stands in for the cells of a package without metrics.
pub fn table_row_empty() -> (row: String)
    ensures
        row@ == spaces(empty_row_width()),
        row@.len() == 55,
{
    let width = table_row_empty_width();
    let mut chars: Vec<char> = Vec::new();
    append_spaces(&mut chars, width);
    string_of(&chars)
}

/// The place of the first `/` in `s`, or the length of `s` where it has none.
pub open spec fn slash_index(s: Seq<char>) -> int
    decreases s.len(),
{
    if s.len() == 0 || s[0] == '/' {
        0
    } else {
        1 + slash_index(s.drop_first())
    }
}

/// The two numbers of a counts-mode cell: the numeral before the first `/`
/// and the numeral after it.
pub open spec fn parsed_counts_cell(s: Seq<char>) -> Option<(int, int)> {
    let at = slash_index(s);
    if at >= s.len() {
        None
    } else {
        match (parse_decimal(s.subrange(0, at)), parse_decimal(s.subrange(at + 1, s.len() as int))) {
            (Some(used), Some(all)) => Some((used, all)),
            _ => None,
        }
    }
}

/// The first `/` after a run of digits is the one that follows the run.
pub proof fn lemma_slash_after_digits(digits: Seq<char>, rest: Seq<char>)
    requires
        all_digits(digits),
    ensures
        slash_index(digits + seq!['/'] + rest) == digits.len(),
    decreases digits.len(),
{
    let s = digits + seq!['/'] + rest;
    if digits.len() == 0 {
        assert(s[0] == '/');
    } else {
        assert(s[0] == digits[0]);
        assert(digit_value(digits[0]).is_some());
        assert(s.drop_first() =~= digits.drop_first() + seq!['/'] + rest);
        assert forall|i: int| 0 <= i < digits.drop_first().len() implies digit_value(
            #[trigger] digits.drop_first()[i],
        ).is_some() by {
            assert(digits.drop_first()[i] == digits[i + 1]);
        }
        lemma_slash_after_digits(digits.drop_first(), rest);
    }
}

/// Reading a rendered counts-mode cell gives back the used unsafe count and
/// the count of all unsafe occurrences that it was rendered from.
pub proof fn lemma_counts_cell_round_trip(used: Pair, not_used: Pair)
    requires
        used.non_negative(),
        not_used.non_negative(),
    ensures
        parsed_counts_cell(counts_cell(used, not_used)) == Some(
            (used.unsafe_, used.unsafe_ + not_used.unsafe_),
        ),
{
    let head = decimal(used.unsafe_);
    let tail = decimal(used.unsafe_ + not_used.unsafe_);
    let cell = counts_cell(used, not_used);
    lemma_decimal_digits(used.unsafe_);
    lemma_slash_after_digits(head, tail);
    lemma_parse_decimal(used.unsafe_);
    lemma_parse_decimal(used.unsafe_ + not_used.unsafe_);
    assert(cell.subrange(0, head.len() as int) =~= head);
    assert(cell.subrange(head.len() as int + 1, cell.len() as int) =~= tail);
}

/// Reads the two numbers of a counts-mode cell: `None` where the cell has
/// no `/`, where what stands before the first `/` or after it is no
/// numeral, or where a number is too large for a `u128`.
pub fn parse_counts_cell(cell: &Vec<char>) -> (numbers: Option<(u128, u128)>)
    ensures
        numbers == (match parsed_counts_cell(cell@) {
            Some((used, all)) => match (held(Some(used)), held(Some(all))) {
                (Some(u), Some(a)) => Some((u, a)),
                _ => None,
            },
            None => None,
        }),
{
    let mut at: usize = 0;
    assert(cell@.subrange(0, cell@.len() as int) =~= cell@);
    while at < cell.len() && cell[at] != '/'
        invariant
            at <= cell.len(),
            slash_index(cell@) == at + slash_index(cell@.subrange(at as int, cell@.len() as int)),
        decreases cell.len() - at,
    {
        assert(cell@.subrange(at as int, cell@.len() as int).drop_first() =~= cell@.subrange(
            at + 1,
            cell@.len() as int,
        ));
        at += 1;
    }
    assert(slash_index(cell@) == at);
    if at >= cell.len() {
        return None;
    }
    let used = parse_number(cell, 0, at);
    let all = parse_number(cell, at + 1, cell.len());
    match (used, all) {
        (Some(u), Some(a)) => Some((u, a)),
        _ => None,
    }
}

} // verus!
