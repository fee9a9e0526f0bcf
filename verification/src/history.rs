//! The table of a package's most recent releases.
//!
//! The releases are taken in the order given, newest first by the caller's
//! word, and cut after `limit` of them. Each becomes a row of three cells:
//! its number, when it was released, and its downloads. A release that was
//! yanked has the marker `(yanked)` behind its row. Where releases were
//! left out, a last line tells how many there are in all.

use vstd::prelude::*;
use vstd::string::*;
use crate::instant::{format_timestamp, timestamp_text, Instant, Zone};
use crate::package::{version_models, VersionModel, VersionRecord};
use crate::table::{
    column_widths, grid, lemma_columns_aligned, lemma_line_free_of, line_prefix, rectangular,
    render_table, row_line, table_lines,
};
use crate::text::{
    contains_text, decimal, decimal_text, free_of, join_lines, joined, lemma_blanks_part,
    lemma_contains_behind, lemma_contains_suffix, lemma_decimal_free_of, lemma_free_of_excludes,
    line_feed, push_decimal, spaces, views,
};

verus! {

/// How many of `total` releases a table cut at `limit` shows.
pub open spec fn shown_count(total: nat, limit: nat) -> nat {
    if limit < total {
        limit
    } else {
        total
    }
}

/// Whether the table ends with the line that tells of the releases left
/// out: some are shown and some are not.
pub open spec fn has_hint(total: nat, limit: nat) -> bool {
    0 < limit < total
}

/// The headings of the three columns.
pub open spec fn history_header() -> Seq<Seq<char>> {
    seq!["VERSION"@, "RELEASED"@, "DOWNLOADS"@]
}

/// The mark behind the row of a yanked release.
pub open spec fn yanked_marker() -> Seq<char> {
    "(yanked)"@
}

/// The line that tells how many releases there are in all.
pub open spec fn hint_line(total: nat) -> Seq<char> {
    "... use -VV to show all "@ + decimal(total) + " versions"@
}

/// The cells of one release: number, time of release, downloads.
pub open spec fn history_row(version: VersionModel, released: Seq<char>) -> Seq<Seq<char>> {
    seq![version.number, released, decimal(version.downloads)]
}

/// The rows of the releases shown, one for each text in `released`.
pub open spec fn history_rows(versions: Seq<VersionModel>, released: Seq<Seq<char>>) -> Seq<
    Seq<Seq<char>>,
> {
    Seq::new(released.len(), |r: int| history_row(versions[r], released[r]))
}

/// What stands behind line `i` of the table: the marker where the line is
/// the row of a yanked release, else nothing.
pub open spec fn line_suffix(versions: Seq<VersionModel>, i: int) -> Seq<char> {
    if i > 0 && versions[i - 1].yanked {
        yanked_marker()
    } else {
        Seq::empty()
    }
}

/// The lines of the history: the header, the rows of the releases shown,
/// each line behind `prefix`, and the hint where releases were left out.
pub open spec fn history_lines(
    versions: Seq<VersionModel>,
    released: Seq<Seq<char>>,
    limit: nat,
    prefix: Seq<char>,
) -> Seq<Seq<char>> {
    let table = table_lines(history_header(), history_rows(versions, released));
    let lines = Seq::new(table.len(), |i: int| prefix + table[i] + line_suffix(versions, i));
    if has_hint(versions.len(), limit) {
        lines.push(prefix + hint_line(versions.len()))
    } else {
        lines
    }
}

/// The history as one text, its lines parted by line feeds.
pub open spec fn history_text(
    versions: Seq<VersionModel>,
    released: Seq<Seq<char>>,
    limit: nat,
    prefix: Seq<char>,
) -> Seq<char> {
    joined(history_lines(versions, released, limit, prefix), line_feed())
}

/// The times of release of the first `count` releases, each in the chosen
/// form.
pub open spec fn release_times(
    versions: Seq<VersionModel>,
    count: nat,
    relative: bool,
    now: (i64, u32),
    offset: i32,
) -> Seq<Seq<char>> {
    Seq::new(count, |r: int| timestamp_text(versions[r].created_at, relative, now, offset))
}

/// Whether the history ends with the hint, and what the hint says. Where
/// the limit reaches all releases, or is zero, the lines are the header and
/// the rows and nothing else. Where it is above zero and below the number
/// of releases, one more line follows, which names that number.
pub proof fn lemma_hint(
    versions: Seq<VersionModel>,
    released: Seq<Seq<char>>,
    limit: nat,
    prefix: Seq<char>,
)
    requires
        released.len() == shown_count(versions.len(), limit),
    ensures
        ({
            let lines = history_lines(versions, released, limit, prefix);
            let total = versions.len();
            &&& limit >= total ==> lines.len() == total + 1
            &&& limit == 0 ==> lines.len() == 1
            &&& 0 < limit < total ==> lines.len() == limit + 2 && lines.last() == prefix
                + "... use -VV to show all "@ + decimal(total) + " versions"@
            &&& forall|i: int|
                0 <= i <= released.len() ==> #[trigger] lines[i] == prefix + table_lines(
                    history_header(),
                    history_rows(versions, released),
                )[i] + line_suffix(versions, i)
        }),
{
    let lines = history_lines(versions, released, limit, prefix);
    if has_hint(versions.len(), limit) {
        assert(prefix + hint_line(versions.len()) =~= prefix + "... use -VV to show all "@
            + decimal(versions.len()) + " versions"@);
    }
}

/// The row of a yanked release ends with the marker, and so holds it. The
/// row of any other release is the line of the table behind the prefix and
/// has nothing appended.
pub proof fn lemma_yanked_marker(
    versions: Seq<VersionModel>,
    released: Seq<Seq<char>>,
    limit: nat,
    prefix: Seq<char>,
    r: int,
)
    requires
        released.len() == shown_count(versions.len(), limit),
        0 <= r < released.len(),
    ensures
        ({
            let line = history_lines(versions, released, limit, prefix)[r + 1];
            let plain = prefix + table_lines(
                history_header(),
                history_rows(versions, released),
            )[r + 1];
            &&& versions[r].yanked ==> line == plain + "(yanked)"@ && contains_text(
                line,
                "(yanked)"@,
            )
            &&& !versions[r].yanked ==> line == plain
        }),
{
    let plain = prefix + table_lines(history_header(), history_rows(versions, released))[r + 1];
    if versions[r].yanked {
        lemma_contains_suffix(plain, yanked_marker());
    } else {
        assert(plain + Seq::<char>::empty() =~= plain);
    }
}

/// The marker holds neither a blank nor any of the characters that the
/// header and the hint begin with, and it begins with a parenthesis.
proof fn lemma_marker_letters()
    ensures
        yanked_marker().len() == 8,
        yanked_marker()[0] == '(',
        free_of(yanked_marker(), ' '),
        free_of(yanked_marker(), 'V'),
        free_of(yanked_marker(), '.'),
{
    reveal_strlit("(yanked)");
}

/// The row of a release that was not yanked does not hold the marker,
/// unless the prefix with the number behind it, or the time of release,
/// holds the marker itself. The flags of the other releases do not matter.
pub proof fn lemma_unyanked_row(
    versions: Seq<VersionModel>,
    released: Seq<Seq<char>>,
    limit: nat,
    prefix: Seq<char>,
    r: int,
)
    requires
        released.len() == shown_count(versions.len(), limit),
        0 <= r < released.len(),
        !versions[r].yanked,
        !contains_text(prefix + versions[r].number, "(yanked)"@),
        !contains_text(released[r], "(yanked)"@),
    ensures
        !contains_text(history_lines(versions, released, limit, prefix)[r + 1], "(yanked)"@),
{
    let header = history_header();
    let rows = history_rows(versions, released);
    let widths = column_widths(header, rows);
    let cells = rows[r];
    let line = history_lines(versions, released, limit, prefix)[r + 1];
    let marker = yanked_marker();
    lemma_marker_letters();
    assert(rectangular(header, rows));
    lemma_columns_aligned(header, rows, r + 1, 0);
    lemma_columns_aligned(header, rows, r + 1, 1);
    lemma_columns_aligned(header, rows, r + 1, 2);
    let number = cells[0];
    let date = cells[1];
    let count = cells[2];
    let first = (widths[0] - number.len()) as nat;
    let second = (widths[1] - date.len()) as nat;
    let third = (widths[2] - count.len()) as nat;
    let last = count + spaces(third);
    assert(!contains_text(last, marker)) by {
        lemma_decimal_free_of(versions[r].downloads, '(');
        lemma_free_of_excludes(last, marker);
    }
    lemma_blanks_part(date, second, last, marker);
    let behind = date + spaces(second) + last;
    lemma_blanks_part(prefix + number, first, behind, marker);
    assert(row_line(cells, widths) =~= number + spaces(first) + date + spaces(second) + count
        + spaces(third)) by {
        reveal_with_fuel(line_prefix, 4);
    }
    assert(line =~= prefix + number + spaces(first) + behind);
}

/// Neither the header nor the hint holds the marker, unless the prefix
/// holds it.
pub proof fn lemma_header_and_hint_unmarked(
    versions: Seq<VersionModel>,
    released: Seq<Seq<char>>,
    limit: nat,
    prefix: Seq<char>,
)
    requires
        released.len() == shown_count(versions.len(), limit),
        !contains_text(prefix, "(yanked)"@),
    ensures
        !contains_text(history_lines(versions, released, limit, prefix)[0], "(yanked)"@),
        has_hint(versions.len(), limit) ==> !contains_text(
            history_lines(versions, released, limit, prefix).last(),
            "(yanked)"@,
        ),
{
    let header = history_header();
    let rows = history_rows(versions, released);
    let widths = column_widths(header, rows);
    let lines = history_lines(versions, released, limit, prefix);
    let marker = yanked_marker();
    lemma_marker_letters();
    reveal_strlit("VERSION");
    reveal_strlit("RELEASED");
    reveal_strlit("DOWNLOADS");
    let top = row_line(header, widths);
    assert(rectangular(header, rows));
    lemma_columns_aligned(header, rows, 0, 0);
    assert forall|k: int| 0 <= k < header.len() implies free_of(#[trigger] header[k], '(') by {
    }
    lemma_line_free_of(header, widths, header.len(), '(');
    assert(top.len() > 0 && top[0] == 'V') by {
        reveal_with_fuel(line_prefix, 4);
    }
    lemma_contains_behind(prefix, top, marker);
    assert(lines[0] =~= prefix + top);
    if has_hint(versions.len(), limit) {
        reveal_strlit("... use -VV to show all ");
        reveal_strlit(" versions");
        let hint = hint_line(versions.len());
        lemma_decimal_free_of(versions.len(), '(');
        assert(hint.len() > 0 && hint[0] == '.');
        assert(free_of(hint, '('));
        lemma_contains_behind(prefix, hint, marker);
    }
}

/// Renders the history of `versions` from the texts in `released`, which
/// give the time of release of each release shown.
pub fn render_history(
    versions: &Vec<VersionRecord>,
    released: &Vec<String>,
    limit: usize,
    prefix: &str,
) -> (out: String)
    requires
        released@.len() == shown_count(versions@.len() as nat, limit as nat),
    ensures
        out@ == history_text(
            version_models(versions@),
            views(released@),
            limit as nat,
            prefix@,
        ),
{
    let ghost models = version_models(versions@);
    let ghost times = views(released@);
    let mut header: Vec<String> = Vec::new();
    header.push(String::from_str("VERSION"));
    header.push(String::from_str("RELEASED"));
    header.push(String::from_str("DOWNLOADS"));
    assert(views(header@) =~= history_header());
    let mut rows: Vec<Vec<String>> = Vec::new();
    let mut r: usize = 0;
    while r < released.len()
        invariant
            r <= released@.len(),
            released@.len() <= versions@.len(),
            models == version_models(versions@),
            times == views(released@),
            rows@.len() == r,
            forall|k: int| 0 <= k < r ==> views((#[trigger] rows@[k])@) == history_row(models[k], times[k]),
        decreases released@.len() - r,
    {
        let version = &versions[r];
        let mut row: Vec<String> = Vec::new();
        row.push(version.number.clone());
        row.push(released[r].clone());
        row.push(decimal_text(version.downloads));
        assert(views(row@) =~= history_row(models[r as int], times[r as int]));
        rows.push(row);
        r += 1;
    }
    assert(grid(rows@) =~= history_rows(models, times));
    assert(rectangular(views(header@), grid(rows@)));
    let table = render_table(&header, &rows);
    let ghost plain = table_lines(history_header(), history_rows(models, times));
    let mut lines: Vec<String> = Vec::new();
    let mut i: usize = 0;
    while i < table.len()
        invariant
            i <= table@.len(),
            views(table@) == plain,
            plain.len() == released@.len() + 1,
            released@.len() <= versions@.len(),
            models == version_models(versions@),
            lines@.len() == i,
            forall|k: int|
                0 <= k < i ==> (#[trigger] lines@[k])@ == prefix@ + plain[k] + line_suffix(
                    models,
                    k,
                ),
        decreases table@.len() - i,
    {
        let mut line = String::from_str(prefix);
        line.append(table[i].as_str());
        if i > 0 && versions[i - 1].yanked {
            line.append("(yanked)");
        }
        proof {
            assert(plain[i as int] == table@[i as int]@);
            assert(line@ =~= prefix@ + plain[i as int] + line_suffix(models, i as int));
        }
        lines.push(line);
        i += 1;
    }
    if 0 < limit && limit < versions.len() {
        let mut line = String::from_str(prefix);
        line.append("... use -VV to show all ");
        push_decimal(&mut line, versions.len() as u64);
        line.append(" versions");
        assert(line@ =~= prefix@ + hint_line(models.len()));
        lines.push(line);
    }
    assert(views(lines@) =~= history_lines(models, times, limit as nat, prefix@));
    join_lines(&lines)
}

/// Renders the history of the first `limit` of `versions`. The time of
/// release stands in its relative form, measured from `now`, or in its
/// calendar form as local time in `zone`.
pub fn print_last_versions(
    versions: &Vec<VersionRecord>,
    limit: usize,
    prefix: &str,
    relative: bool,
    now: &Instant,
    zone: &Zone,
) -> (out: String)
    ensures
        out@ == history_text(
            version_models(versions@),
            release_times(
                version_models(versions@),
                shown_count(versions@.len() as nat, limit as nat),
                relative,
                now@,
                zone@,
            ),
            limit as nat,
            prefix@,
        ),
{
    let ghost models = version_models(versions@);
    let shown = if limit < versions.len() {
        limit
    } else {
        versions.len()
    };
    let mut released: Vec<String> = Vec::new();
    let mut r: usize = 0;
    while r < shown
        invariant
            r <= shown <= versions@.len(),
            models == version_models(versions@),
            released@.len() == r,
            forall|k: int|
                0 <= k < r ==> (#[trigger] released@[k])@ == timestamp_text(
                    models[k].created_at,
                    relative,
                    now@,
                    zone@,
                ),
        decreases shown - r,
    {
        let text = format_timestamp(&versions[r].created_at, relative, now, zone);
        released.push(text);
        r += 1;
    }
    assert(views(released@) =~= release_times(models, shown as nat, relative, now@, zone@));
    render_history(versions, &released, limit, prefix)
}

} // verus!
