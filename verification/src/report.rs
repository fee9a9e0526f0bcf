//! Reports on one package: a single field, the feature or keyword list,
//! or the full summary in its short and its verbose form.
//!
//! A labelled line is a label filled with blanks to sixteen characters and
//! then the value. The lines of a report are parted by line feeds; the last
//! line has none behind it.

use vstd::prelude::*;
use vstd::string::*;
use crate::history::{history_text, print_last_versions, release_times, shown_count};
use crate::instant::{both_forms, format_timestamp, relative_text, Instant, TimeStamp, Zone};
use crate::package::{features_text, keywords_text, PackageModel, PackageSummary};
use crate::text::{
    decimal, decimal_text, free_of, join_lines, joined, lemma_joined_line_feeds,
    lemma_occurrences_concat, lemma_padded_free_of, line_feed, occurrences, pad_right,
    push_padded, spaces, views,
};

verus! {

/// The width of the label column.
pub const LABEL_WIDTH: usize = 16;

/// How many releases the short summary lists.
pub const SUMMARY_HISTORY: usize = 5;

/// A field that can be reported alone.
#[derive(Debug, Clone, Copy, PartialEq, Eq, Structural)]
pub enum Field {
    Documentation,
    Downloads,
    Homepage,
    Repository,
}

/// What to report on a package.
#[derive(Debug, Clone, Copy, PartialEq, Eq, Structural)]
pub enum Mode {
    /// The whole summary, short or verbose.
    Full(bool),
    /// One field: bare, or labelled where the flag is set.
    SingleField(Field, bool),
    /// The features of the latest version: names only, or with their
    /// dependencies where the flag is set.
    FeatureList(bool),
    /// The keywords.
    KeywordList,
}

/// A label filled to the label column, and the value behind it.
pub open spec fn labelled(label: Seq<char>, value: Seq<char>) -> Seq<char> {
    pad_right(label, LABEL_WIDTH as nat) + value
}

/// The label of a field.
pub open spec fn field_label(field: Field) -> Seq<char> {
    match field {
        Field::Documentation => "Documentation:"@,
        Field::Downloads => "Downloads:"@,
        Field::Homepage => "Homepage:"@,
        Field::Repository => "Repository:"@,
    }
}

/// The value of a field.
pub open spec fn field_value(package: PackageModel, field: Field) -> Seq<char> {
    match field {
        Field::Documentation => package.documentation,
        Field::Downloads => decimal(package.downloads),
        Field::Homepage => package.homepage,
        Field::Repository => package.repository,
    }
}

/// A field reported alone: its value, behind its label in the verbose
/// form.
pub open spec fn field_text(package: PackageModel, field: Field, verbose: bool) -> Seq<char> {
    if verbose {
        labelled(field_label(field), field_value(package, field))
    } else {
        field_value(package, field)
    }
}

/// The keywords as a list in square brackets.
pub open spec fn keyword_list(package: PackageModel) -> Seq<char> {
    seq!['['] + keywords_text(package) + seq![']']
}

/// The labels of the verbose summary, in the order of its lines.
pub open spec fn verbose_labels() -> Seq<Seq<char>> {
    seq![
        "Crate:"@,
        "Version:"@,
        "Description:"@,
        "Downloads:"@,
        "Homepage:"@,
        "Documentation:"@,
        "Repository:"@,
        "License:"@,
        "Keywords:"@,
        "Created:"@,
        "Updated:"@,
    ]
}

/// The values of the verbose summary, in the order of its lines. `created`
/// and `updated` are the two dates as they are to stand.
pub open spec fn verbose_values(
    package: PackageModel,
    created: Seq<char>,
    updated: Seq<char>,
) -> Seq<Seq<char>> {
    seq![
        package.name,
        package.latest_version,
        package.description,
        decimal(package.downloads),
        package.homepage,
        package.documentation,
        package.repository,
        package.license,
        keyword_list(package),
        created,
        updated,
    ]
}

/// The labels of the short summary, in the order of its lines. The last
/// one heads the history.
pub open spec fn summary_labels() -> Seq<Seq<char>> {
    seq![
        "Crate:"@,
        "Version:"@,
        "Description:"@,
        "Downloads:"@,
        "Homepage:"@,
        "Documentation:"@,
        "Repository:"@,
        "Updated:"@,
        "Version history:"@,
    ]
}

/// The values of the short summary, in the order of its lines. `updated`
/// is the date of the last change as it is to stand.
pub open spec fn summary_values(package: PackageModel, updated: Seq<char>) -> Seq<Seq<char>> {
    seq![
        package.name,
        package.latest_version,
        package.description,
        decimal(package.downloads),
        package.homepage,
        package.documentation,
        package.repository,
        updated,
        Seq::empty(),
    ]
}

/// One labelled line for each label and its value.
pub open spec fn labelled_lines(labels: Seq<Seq<char>>, values: Seq<Seq<char>>) -> Seq<
    Seq<char>,
> {
    Seq::new(labels.len(), |i: int| labelled(labels[i], values[i]))
}

/// The lines of the verbose summary.
pub open spec fn verbose_lines(
    package: PackageModel,
    created: Seq<char>,
    updated: Seq<char>,
) -> Seq<Seq<char>> {
    labelled_lines(verbose_labels(), verbose_values(package, created, updated))
}

/// The lines of the short summary above the history.
pub open spec fn summary_lines(package: PackageModel, updated: Seq<char>) -> Seq<Seq<char>> {
    labelled_lines(summary_labels(), summary_values(package, updated))
}

/// The verbose summary as one text.
pub open spec fn verbose_text(
    package: PackageModel,
    created: Seq<char>,
    updated: Seq<char>,
) -> Seq<char> {
    joined(verbose_lines(package, created, updated), line_feed())
}

/// The short summary as one text: its lines, and the history below them.
pub open spec fn summary_text(
    package: PackageModel,
    updated: Seq<char>,
    history: Seq<char>,
) -> Seq<char> {
    joined(summary_lines(package, updated), line_feed()) + line_feed() + history
}

/// The indent of the history inside the short summary.
pub open spec fn history_indent() -> Seq<char> {
    seq![' ', ' ']
}

/// The full summary of a package at the time `now`, for a reader in the
/// zone `offset` seconds east of UTC. The verbose form gives both dates in
/// both forms. The short form gives the age of the last change and the
/// history of the first `limit` releases, with their ages.
pub open spec fn crate_text(
    package: PackageModel,
    limit: nat,
    verbose: bool,
    now: (i64, u32),
    offset: i32,
) -> Seq<char> {
    if verbose {
        verbose_text(
            package,
            both_forms(package.created_at, now, offset),
            both_forms(package.updated_at, now, offset),
        )
    } else {
        summary_text(
            package,
            relative_text(package.updated_at.0, package.updated_at.1, now.0, now.1),
            history_text(
                package.versions,
                release_times(
                    package.versions,
                    shown_count(package.versions.len(), limit),
                    true,
                    now,
                    offset,
                ),
                limit,
                history_indent(),
            ),
        )
    }
}

/// The report on a package in a mode, at the time `now`, for a reader in
/// the zone `offset` seconds east of UTC.
pub open spec fn composed_text(
    package: PackageModel,
    mode: Mode,
    now: (i64, u32),
    offset: i32,
) -> Seq<char> {
    match mode {
        Mode::Full(verbose) => crate_text(package, SUMMARY_HISTORY as nat, verbose, now, offset),
        Mode::SingleField(field, verbose) => field_text(package, field, verbose),
        Mode::FeatureList(verbose) => features_text(package, verbose),
        Mode::KeywordList => keywords_text(package),
    }
}

/// A labelled line holds its label flush left in the label column, blanks
/// up to the width of the column, and its value from there on.
pub proof fn lemma_labelled(label: Seq<char>, value: Seq<char>)
    requires
        label.len() <= LABEL_WIDTH,
    ensures
        labelled(label, value).len() == LABEL_WIDTH + value.len(),
        labelled(label, value).subrange(0, LABEL_WIDTH as int) == label + spaces(
            (LABEL_WIDTH - label.len()) as nat,
        ),
        labelled(label, value).subrange(LABEL_WIDTH as int, LABEL_WIDTH + value.len()) == value,
{
    let line = labelled(label, value);
    assert(line.subrange(0, LABEL_WIDTH as int) =~= label + spaces(
        (LABEL_WIDTH - label.len()) as nat,
    ));
    assert(line.subrange(LABEL_WIDTH as int, LABEL_WIDTH + value.len()) =~= value);
}

/// No label of the two summaries is longer than the label column, and
/// none holds a line feed.
proof fn lemma_labels_fit()
    ensures
        verbose_labels().len() == 11,
        summary_labels().len() == 9,
        forall|i: int|
            0 <= i < 11 ==> (#[trigger] verbose_labels()[i]).len() <= LABEL_WIDTH && free_of(
                verbose_labels()[i],
                '\n',
            ),
        forall|i: int|
            0 <= i < 9 ==> (#[trigger] summary_labels()[i]).len() <= LABEL_WIDTH && free_of(
                summary_labels()[i],
                '\n',
            ),
{
    reveal_strlit("Crate:");
    reveal_strlit("Version:");
    reveal_strlit("Description:");
    reveal_strlit("Downloads:");
    reveal_strlit("Homepage:");
    reveal_strlit("Documentation:");
    reveal_strlit("Repository:");
    reveal_strlit("License:");
    reveal_strlit("Keywords:");
    reveal_strlit("Created:");
    reveal_strlit("Updated:");
    reveal_strlit("Version history:");
}

/// Labelled lines whose labels fit the label column and whose labels and
/// values hold no line feed make a text of as many lines.
proof fn lemma_one_line_each(labels: Seq<Seq<char>>, values: Seq<Seq<char>>)
    requires
        labels.len() == values.len(),
        labels.len() > 0,
        forall|i: int| 0 <= i < labels.len() ==> free_of(#[trigger] labels[i], '\n'),
        forall|i: int| 0 <= i < values.len() ==> free_of(#[trigger] values[i], '\n'),
    ensures
        occurrences(joined(labelled_lines(labels, values), line_feed()), '\n') == labels.len()
            - 1,
{
    let lines = labelled_lines(labels, values);
    assert forall|i: int| 0 <= i < lines.len() implies free_of(#[trigger] lines[i], '\n') by {
        assert(free_of(labels[i], '\n'));
        assert(free_of(values[i], '\n'));
        lemma_padded_free_of(labels[i], LABEL_WIDTH as nat, '\n');
    }
    lemma_joined_line_feeds(lines);
}

/// The verbose summary has one line for each of its eleven fields, in
/// their fixed order: the label of the field in the label column, then
/// its value. Where no value holds a line feed, the text holds ten line
/// feeds, so each field stands on exactly one line.
pub proof fn lemma_verbose_summary(package: PackageModel, created: Seq<char>, updated: Seq<char>)
    ensures
        ({
            let labels = verbose_labels();
            let values = verbose_values(package, created, updated);
            let lines = verbose_lines(package, created, updated);
            &&& lines.len() == 11
            &&& labels.len() == 11
            &&& values.len() == 11
            &&& forall|i: int|
                0 <= i < 11 ==> (#[trigger] lines[i]).len() == LABEL_WIDTH + values[i].len()
                    && labels[i].len() <= LABEL_WIDTH && lines[i].subrange(0, LABEL_WIDTH as int)
                    == pad_right(labels[i], LABEL_WIDTH as nat) && lines[i].subrange(
                    LABEL_WIDTH as int,
                    lines[i].len() as int,
                ) == values[i]
            &&& (forall|i: int| 0 <= i < 11 ==> free_of(#[trigger] values[i], '\n'))
                ==> occurrences(verbose_text(package, created, updated), '\n') == 10
        }),
{
    let labels = verbose_labels();
    let values = verbose_values(package, created, updated);
    let lines = verbose_lines(package, created, updated);
    lemma_labels_fit();
    assert forall|i: int| 0 <= i < 11 implies (#[trigger] lines[i]).len() == LABEL_WIDTH
        + values[i].len() && labels[i].len() <= LABEL_WIDTH && lines[i].subrange(
        0,
        LABEL_WIDTH as int,
    ) == pad_right(labels[i], LABEL_WIDTH as nat) && lines[i].subrange(
        LABEL_WIDTH as int,
        lines[i].len() as int,
    ) == values[i] by {
        assert(labels[i].len() <= LABEL_WIDTH);
        lemma_labelled(labels[i], values[i]);
    }
    if forall|i: int| 0 <= i < 11 ==> free_of(#[trigger] values[i], '\n') {
        lemma_one_line_each(labels, values);
    }
}

/// The short summary has, above the history, one line for each of its
/// eight fields, in their fixed order, and the line that heads the history:
/// the label in the label column, then the value. Where no value holds a
/// line feed, these nine lines hold eight line feeds between them, and one
/// more parts them from the history.
pub proof fn lemma_short_summary(package: PackageModel, updated: Seq<char>, history: Seq<char>)
    ensures
        ({
            let labels = summary_labels();
            let values = summary_values(package, updated);
            let lines = summary_lines(package, updated);
            &&& lines.len() == 9
            &&& labels.len() == 9
            &&& values.len() == 9
            &&& forall|i: int|
                0 <= i < 9 ==> (#[trigger] lines[i]).len() == LABEL_WIDTH + values[i].len()
                    && labels[i].len() <= LABEL_WIDTH && lines[i].subrange(0, LABEL_WIDTH as int)
                    == pad_right(labels[i], LABEL_WIDTH as nat) && lines[i].subrange(
                    LABEL_WIDTH as int,
                    lines[i].len() as int,
                ) == values[i]
            &&& (forall|i: int| 0 <= i < 9 ==> free_of(#[trigger] values[i], '\n'))
                ==> occurrences(summary_text(package, updated, history), '\n') == 9 + occurrences(
                history,
                '\n',
            )
        }),
{
    let labels = summary_labels();
    let values = summary_values(package, updated);
    let lines = summary_lines(package, updated);
    let feed = line_feed();
    lemma_labels_fit();
    assert forall|i: int| 0 <= i < 9 implies (#[trigger] lines[i]).len() == LABEL_WIDTH
        + values[i].len() && labels[i].len() <= LABEL_WIDTH && lines[i].subrange(
        0,
        LABEL_WIDTH as int,
    ) == pad_right(labels[i], LABEL_WIDTH as nat) && lines[i].subrange(
        LABEL_WIDTH as int,
        lines[i].len() as int,
    ) == values[i] by {
        assert(labels[i].len() <= LABEL_WIDTH);
        lemma_labelled(labels[i], values[i]);
    }
    if forall|i: int| 0 <= i < 9 ==> free_of(#[trigger] values[i], '\n') {
        lemma_one_line_each(labels, values);
        lemma_occurrences_concat(joined(lines, feed), feed, '\n');
        lemma_occurrences_concat(joined(lines, feed) + feed, history, '\n');
        assert(feed.drop_last() =~= Seq::<char>::empty());
        assert(occurrences(feed, '\n') == 1) by {
            assert(feed.last() == '\n');
            assert(occurrences(feed.drop_last(), '\n') == 0);
        }
    }
}

/// A report is fixed by what the package holds, the mode, the time it is
/// measured from and the reader's zone: two packages that hold the same,
/// reported in the same mode at the same time in the same zone, yield the
/// same text.
pub proof fn lemma_same_report(
    first: PackageModel,
    second: PackageModel,
    mode: Mode,
    first_now: (i64, u32),
    second_now: (i64, u32),
    first_offset: i32,
    second_offset: i32,
)
    requires
        first == second,
        first_now == second_now,
        first_offset == second_offset,
    ensures
        composed_text(first, mode, first_now, first_offset) == composed_text(
            second,
            mode,
            second_now,
            second_offset,
        ),
{
}

/// A label filled to the label column, and the value behind it.
pub fn labelled_line(label: &str, value: &str) -> (out: String)
    ensures
        out@ == labelled(label@, value@),
{
    let mut out = String::new();
    push_padded(&mut out, label, LABEL_WIDTH);
    out.append(value);
    assert(out@ =~= labelled(label@, value@));
    out
}

/// The seven lines that both forms of the summary begin with.
fn common(package: &PackageSummary) -> (lines: Vec<String>)
    ensures
        lines@.len() == 7,
        lines@[0]@ == labelled("Crate:"@, package@.name),
        lines@[1]@ == labelled("Version:"@, package@.latest_version),
        lines@[2]@ == labelled("Description:"@, package@.description),
        lines@[3]@ == labelled("Downloads:"@, decimal(package@.downloads)),
        lines@[4]@ == labelled("Homepage:"@, package@.homepage),
        lines@[5]@ == labelled("Documentation:"@, package@.documentation),
        lines@[6]@ == labelled("Repository:"@, package@.repository),
{
    let downloads = decimal_text(package.downloads());
    let mut lines: Vec<String> = Vec::new();
    lines.push(labelled_line("Crate:", package.name()));
    lines.push(labelled_line("Version:", package.max_version()));
    lines.push(labelled_line("Description:", package.description()));
    lines.push(labelled_line("Downloads:", downloads.as_str()));
    lines.push(labelled_line("Homepage:", package.homepage()));
    lines.push(labelled_line("Documentation:", package.documentation()));
    lines.push(labelled_line("Repository:", package.repository()));
    lines
}

/// One field of a package: its value, behind its label in the verbose
/// form.
pub fn show_field(package: &PackageSummary, field: Field, verbose: bool) -> (out: String)
    ensures
        out@ == field_text(package@, field, verbose),
{
    let value = match field {
        Field::Documentation => String::from_str(package.documentation()),
        Field::Downloads => decimal_text(package.downloads()),
        Field::Homepage => String::from_str(package.homepage()),
        Field::Repository => String::from_str(package.repository()),
    };
    if verbose {
        let label = match field {
            Field::Documentation => "Documentation:",
            Field::Downloads => "Downloads:",
            Field::Homepage => "Homepage:",
            Field::Repository => "Repository:",
        };
        labelled_line(label, value.as_str())
    } else {
        value
    }
}

/// The verbose summary of a package, with the two dates as given.
pub fn verbose_report(package: &PackageSummary, created: &str, updated: &str) -> (out: String)
    ensures
        out@ == verbose_text(package@, created@, updated@),
{
    let mut keywords = String::from_str("[");
    keywords.append(package.show_keywords().as_str());
    keywords.append("]");
    proof {
        reveal_strlit("[");
        reveal_strlit("]");
        assert("["@ =~= seq!['[']);
        assert("]"@ =~= seq![']']);
        assert(keywords@ =~= keyword_list(package@));
    }
    let mut lines = common(package);
    lines.push(labelled_line("License:", package.license()));
    lines.push(labelled_line("Keywords:", keywords.as_str()));
    lines.push(labelled_line("Created:", created));
    lines.push(labelled_line("Updated:", updated));
    assert(views(lines@) =~= verbose_lines(package@, created@, updated@));
    join_lines(&lines)
}

/// The short summary of a package, with the date of the last change and
/// the history as given.
pub fn summary_report(package: &PackageSummary, updated: &str, history: &str) -> (out: String)
    ensures
        out@ == summary_text(package@, updated@, history@),
{
    proof {
        reveal_strlit("\n");
        assert("\n"@ =~= line_feed());
    }
    let mut lines = common(package);
    lines.push(labelled_line("Updated:", updated));
    lines.push(labelled_line("Version history:", ""));
    proof {
        reveal_strlit("");
        assert(""@ =~= Seq::<char>::empty());
        assert(views(lines@) =~= summary_lines(package@, updated@));
    }
    let mut out = join_lines(&lines);
    out.append("\n");
    out.append(history);
    out
}

/// The full summary of a package at the time `now`, verbose or short,
/// with calendar dates as local time in `zone`; the short form lists the
/// first `limit` releases.
pub fn show_crate(
    package: &PackageSummary,
    limit: usize,
    verbose: bool,
    now: &Instant,
    zone: &Zone,
) -> (out: String)
    ensures
        out@ == crate_text(package@, limit as nat, verbose, now@, zone@),
{
    let updated_at = package.updated_at();
    if verbose {
        let created = TimeStamp(package.created_at()).to_text(true, now, zone);
        let updated = TimeStamp(updated_at).to_text(true, now, zone);
        verbose_report(package, created.as_str(), updated.as_str())
    } else {
        let updated_age = format_timestamp(&updated_at, true, now, zone);
        proof {
            reveal_strlit("  ");
            assert("  "@ =~= history_indent());
        }
        let history = print_last_versions(package.versions(), limit, "  ", true, now, zone);
        summary_report(package, updated_age.as_str(), history.as_str())
    }
}

/// The report on a package in a mode, at the time `now`, with calendar
/// dates as local time in `zone`.
pub fn compose(package: &PackageSummary, mode: Mode, now: &Instant, zone: &Zone) -> (out: String)
    ensures
        out@ == composed_text(package@, mode, now@, zone@),
{
    match mode {
        Mode::Full(verbose) => show_crate(package, SUMMARY_HISTORY, verbose, now, zone),
        Mode::SingleField(field, verbose) => show_field(package, field, verbose),
        Mode::FeatureList(verbose) => package.show_features(verbose),
        Mode::KeywordList => package.show_keywords(),
    }
}

} // verus!
