//! The report as text: the lines of the boxed table for a terminal, and
//! the pipe table for a Markdown file.
use vstd::prelude::*;

use crate::detail::{LanguageDetail, Report, SumDetail};
use crate::util::{bytes_to_size, decimal, decimal_string, size_text};

verus! {

pub open spec fn spaces(n: nat) -> Seq<char> {
    Seq::new(n, |i: int| ' ')
}

/// `s` followed by spaces up to `width` characters (`{:<width}`).
pub open spec fn padded_right(s: Seq<char>, width: nat) -> Seq<char> {
    if s.len() < width {
        s + spaces((width - s.len()) as nat)
    } else {
        s
    }
}

/// `s` preceded by spaces up to `width` characters (`{:>width}`).
pub open spec fn padded_left(s: Seq<char>, width: nat) -> Seq<char> {
    if s.len() < width {
        spaces((width - s.len()) as nat) + s
    } else {
        s
    }
}

/// The six cells of a row: the name, then five numbers, the second a size.
pub open spec fn cells(
    name: Seq<char>,
    files: nat,
    bytes: nat,
    blank: nat,
    comment: nat,
    code: nat,
) -> Seq<Seq<char>> {
    seq![name, decimal(files), size_text(bytes), decimal(blank), decimal(comment), decimal(code)]
}

pub open spec fn header_cells() -> Seq<Seq<char>> {
    seq!["Language"@, "files"@, "size"@, "blank"@, "comment"@, "code"@]
}

pub open spec fn language_cells(d: LanguageDetail) -> Seq<Seq<char>> {
    cells(d.language@, d.files as nat, d.bytes as nat, d.blank as nat, d.comment as nat, d.code as nat)
}

pub open spec fn sum_cells(s: SumDetail) -> Seq<Seq<char>> {
    cells("Sum"@, s.files as nat, s.bytes as nat, s.blank as nat, s.comment as nat, s.code as nat)
}

/// The name left-aligned in 25 columns, the five others right-aligned in 12.
#[verifier::opaque]
pub open spec fn columns(c: Seq<Seq<char>>, sep: Seq<char>) -> Seq<char> {
    padded_right(c[0], 25) + sep + padded_left(c[1], 12) + sep + padded_left(c[2], 12) + sep
        + padded_left(c[3], 12) + sep + padded_left(c[4], 12) + sep + padded_left(c[5], 12)
}

/// A row of the boxed table.
pub open spec fn terminal_row(c: Seq<Seq<char>>) -> Seq<char> {
    "│ "@ + columns(c, Seq::empty()) + " │"@
}

/// A row of the pipe table, with its line feed.
pub open spec fn markdown_row(c: Seq<Seq<char>>) -> Seq<char> {
    "| "@ + columns(c, " | "@) + " |\n"@
}

pub open spec fn terminal_table(languages: Seq<LanguageDetail>, sum: SumDetail) -> Seq<Seq<char>> {
    seq!["┌───────────────────────────────────────────────────────────────────────────────────────┐"@, terminal_row(header_cells()), "├───────────────────────────────────────────────────────────────────────────────────────┤"@]
        + languages.map_values(|d: LanguageDetail| terminal_row(language_cells(d)))
        + seq!["├───────────────────────────────────────────────────────────────────────────────────────┤"@, terminal_row(sum_cells(sum)), "└───────────────────────────────────────────────────────────────────────────────────────┘"@]
}

pub open spec fn concat_rows(rows: Seq<Seq<char>>) -> Seq<char>
    decreases rows.len(),
{
    if rows.len() == 0 {
        Seq::empty()
    } else {
        concat_rows(rows.drop_last()) + rows.last()
    }
}

pub open spec fn markdown_table(languages: Seq<LanguageDetail>, sum: SumDetail) -> Seq<char> {
    markdown_row(header_cells()) + "|---------------------------|--------------|--------------|--------------|--------------|--------------|\n"@ + concat_rows(
        languages.map_values(|d: LanguageDetail| markdown_row(language_cells(d))),
    ) + markdown_row(sum_cells(sum))
}

/// `s` followed by spaces up to `width` characters.
pub fn pad_right(s: &str, width: usize) -> (r: String)
    ensures
        r@ == padded_right(s@, width as nat),
{
    let n = s.unicode_len();
    let mut r = String::from_str(s);
    if n < width {
        let mut k: usize = 0;
        while k < width - n
            invariant
                n == s@.len() < width,
                k <= width - n,
                r@ == s@ + spaces(k as nat),
            decreases width - n - k,
        {
            proof {
                reveal_strlit(" ");
            }
            r.append(" ");
            k = k + 1;
            assert(r@ =~= s@ + spaces(k as nat));
        }
    }
    r
}

/// `s` preceded by spaces up to `width` characters.
pub fn pad_left(s: &str, width: usize) -> (r: String)
    ensures
        r@ == padded_left(s@, width as nat),
{
    let n = s.unicode_len();
    let mut r = String::new();
    if n < width {
        let mut k: usize = 0;
        while k < width - n
            invariant
                n == s@.len() < width,
                k <= width - n,
                r@ == spaces(k as nat),
            decreases width - n - k,
        {
            proof {
                reveal_strlit(" ");
            }
            r.append(" ");
            k = k + 1;
            assert(r@ =~= spaces(k as nat));
        }
    }
    r.append(s);
    assert(n >= width ==> r@ =~= s@);
    r
}

fn row_cells(
    name: &str,
    files: usize,
    bytes: u64,
    blank: usize,
    comment: usize,
    code: usize,
) -> (r: Vec<String>)
    ensures
        r@.len() == 6,
        r@.map_values(|s: String| s@) == cells(
            name@,
            files as nat,
            bytes as nat,
            blank as nat,
            comment as nat,
            code as nat,
        ),
{
    let r = vec![
        String::from_str(name),
        decimal_string(files as u128),
        bytes_to_size(bytes),
        decimal_string(blank as u128),
        decimal_string(comment as u128),
        decimal_string(code as u128),
    ];
    assert(r@.map_values(|s: String| s@) =~= cells(
        name@,
        files as nat,
        bytes as nat,
        blank as nat,
        comment as nat,
        code as nat,
    ));
    r
}

fn header_row_cells() -> (r: Vec<String>)
    ensures
        r@.len() == 6,
        r@.map_values(|s: String| s@) == header_cells(),
{
    let r = vec![
        String::from_str("Language"),
        String::from_str("files"),
        String::from_str("size"),
        String::from_str("blank"),
        String::from_str("comment"),
        String::from_str("code"),
    ];
    assert(r@.map_values(|s: String| s@) =~= header_cells());
    r
}

/// The six cells joined by `sep`, each padded to its column.
fn join_columns(c: &Vec<String>, sep: &str) -> (r: String)
    requires
        c@.len() == 6,
    ensures
        r@ == columns(c@.map_values(|s: String| s@), sep@),
{
    let ghost v = c@.map_values(|s: String| s@);
    let mut r = pad_right(c[0].as_str(), 25);
    let mut i: usize = 1;
    while i < 6
        invariant
            1 <= i <= 6,
            c@.len() == 6,
            v == c@.map_values(|s: String| s@),
            i == 2 ==> r@ == padded_right(v[0], 25) + sep@ + padded_left(v[1], 12),
            i == 3 ==> r@ == padded_right(v[0], 25) + sep@ + padded_left(v[1], 12) + sep@
                + padded_left(v[2], 12),
            i == 4 ==> r@ == padded_right(v[0], 25) + sep@ + padded_left(v[1], 12) + sep@
                + padded_left(v[2], 12) + sep@ + padded_left(v[3], 12),
            i == 5 ==> r@ == padded_right(v[0], 25) + sep@ + padded_left(v[1], 12) + sep@
                + padded_left(v[2], 12) + sep@ + padded_left(v[3], 12) + sep@ + padded_left(v[4], 12),
            i == 6 ==> r@ == padded_right(v[0], 25) + sep@ + padded_left(v[1], 12) + sep@
                + padded_left(v[2], 12) + sep@ + padded_left(v[3], 12) + sep@ + padded_left(v[4], 12)
                + sep@ + padded_left(v[5], 12),
            i == 1 ==> r@ == padded_right(v[0], 25),
        decreases 6 - i,
    {
        r.append(sep);
        let cell = pad_left(c[i].as_str(), 12);
        r.append(cell.as_str());
        i = i + 1;
    }
    proof {
        reveal(columns);
    }
    r
}

fn terminal_line(c: &Vec<String>) -> (r: String)
    requires
        c@.len() == 6,
    ensures
        r@ == terminal_row(c@.map_values(|s: String| s@)),
{
    let mut r = String::from_str("│ ");
    let body = join_columns(c, "");
    proof {
        reveal_strlit("");
    }
    assert(""@ =~= Seq::<char>::empty());
    r.append(body.as_str());
    r.append(" │");
    r
}

fn markdown_line(c: &Vec<String>) -> (r: String)
    requires
        c@.len() == 6,
    ensures
        r@ == markdown_row(c@.map_values(|s: String| s@)),
{
    let mut r = String::from_str("| ");
    let body = join_columns(c, " | ");
    r.append(body.as_str());
    r.append(" |\n");
    r
}

/// The lines of the boxed table: a rule, the header, a rule, one row per
/// language in the report's order, a rule, the totals and a closing rule.
pub fn terminal_lines(report: &Report) -> (r: Vec<String>)
    ensures
        r@.map_values(|s: String| s@) == terminal_table(report.languages@, report.sum),
{
    let top = String::from_str("┌───────────────────────────────────────────────────────────────────────────────────────┐");
    let header = terminal_line(&header_row_cells());
    let rule = String::from_str("├───────────────────────────────────────────────────────────────────────────────────────┤");
    let mut r: Vec<String> = Vec::new();
    r.push(top);
    r.push(header);
    r.push(rule);
    let ghost head = r@.map_values(|s: String| s@);
    assert(head =~= seq!["┌───────────────────────────────────────────────────────────────────────────────────────┐"@, terminal_row(header_cells()), "├───────────────────────────────────────────────────────────────────────────────────────┤"@]);
    let mut i: usize = 0;
    while i < report.languages.len()
        invariant
            i <= report.languages.len(),
            r@.map_values(|s: String| s@) == head + report.languages@.take(i as int).map_values(
                |d: LanguageDetail| terminal_row(language_cells(d)),
            ),
        decreases report.languages.len() - i,
    {
        let d = &report.languages[i];
        let line = terminal_line(&row_cells(d.language, d.files, d.bytes, d.blank, d.comment, d.code));
        let ghost before = r@.map_values(|s: String| s@);
        r.push(line);
        assert(report.languages@.take(i + 1) =~= report.languages@.take(i as int).push(*d));
        assert(r@.map_values(|s: String| s@) =~= before.push(line@));
        i = i + 1;
        assert(r@.map_values(|s: String| s@) =~= head + report.languages@.take(i as int).map_values(
            |d: LanguageDetail| terminal_row(language_cells(d)),
        ));
    }
    assert(report.languages@.take(i as int) =~= report.languages@);
    let s = &report.sum;
    let ghost mid = r@.map_values(|s: String| s@);
    let rule2 = String::from_str("├───────────────────────────────────────────────────────────────────────────────────────┤");
    let total = terminal_line(&row_cells("Sum", s.files, s.bytes, s.blank, s.comment, s.code));
    let bottom = String::from_str("└───────────────────────────────────────────────────────────────────────────────────────┘");
    assert(total@ == terminal_row(sum_cells(report.sum)));
    let ghost tail = seq![rule2@, total@, bottom@];
    r.push(rule2);
    r.push(total);
    r.push(bottom);
    assert(r@.map_values(|s: String| s@) =~= mid + tail);
    assert(r@.map_values(|s: String| s@) =~= terminal_table(report.languages@, report.sum));
    r
}

/// The pipe table: the header, its rule, one row per language in the
/// report's order and the totals, each line ended by a line feed.
pub fn markdown_text(report: &Report) -> (r: String)
    ensures
        r@ == markdown_table(report.languages@, report.sum),
{
    let mut r = markdown_line(&header_row_cells());
    r.append("|---------------------------|--------------|--------------|--------------|--------------|--------------|\n");
    let ghost head = r@;
    let mut i: usize = 0;
    while i < report.languages.len()
        invariant
            i <= report.languages.len(),
            r@ == head + concat_rows(
                report.languages@.take(i as int).map_values(
                    |d: LanguageDetail| markdown_row(language_cells(d)),
                ),
            ),
        decreases report.languages.len() - i,
    {
        let d = &report.languages[i];
        let line = markdown_line(&row_cells(d.language, d.files, d.bytes, d.blank, d.comment, d.code));
        r.append(line.as_str());
        let ghost rows = report.languages@.take(i + 1).map_values(
            |d: LanguageDetail| markdown_row(language_cells(d)),
        );
        assert(rows.drop_last() =~= report.languages@.take(i as int).map_values(
            |d: LanguageDetail| markdown_row(language_cells(d)),
        ));
        i = i + 1;
    }
    assert(report.languages@.take(i as int) =~= report.languages@);
    let s = &report.sum;
    let last = markdown_line(&row_cells("Sum", s.files, s.bytes, s.blank, s.comment, s.code));
    r.append(last.as_str());
    r
}

} // verus!
