//! Text building blocks: padding, decimal numbers and joined lists.
//!
//! A string is modelled by its view, the sequence of its characters, and
//! every length in this crate counts characters.

use vstd::prelude::*;
use vstd::string::*;

verus! {

/// A run of `n` blanks.
pub open spec fn spaces(n: nat) -> Seq<char> {
    Seq::new(n, |i: int| ' ')
}

/// `s` followed by as many blanks as it takes to reach `width` characters;
/// `s` itself where it is already that long or longer.
pub open spec fn pad_right(s: Seq<char>, width: nat) -> Seq<char> {
    if s.len() >= width {
        s
    } else {
        s + spaces((width - s.len()) as nat)
    }
}

/// The character of a decimal digit.
pub open spec fn digit_char(d: nat) -> char
    recommends
        d < 10,
{
    if d == 0 {
        '0'
    } else if d == 1 {
        '1'
    } else if d == 2 {
        '2'
    } else if d == 3 {
        '3'
    } else if d == 4 {
        '4'
    } else if d == 5 {
        '5'
    } else if d == 6 {
        '6'
    } else if d == 7 {
        '7'
    } else if d == 8 {
        '8'
    } else {
        '9'
    }
}

/// The decimal numeral of `n`, without sign or leading zeros.
pub open spec fn decimal(n: nat) -> Seq<char>
    decreases n,
{
    if n < 10 {
        seq![digit_char(n)]
    } else {
        decimal(n / 10).push(digit_char(n % 10))
    }
}

/// The items of `items`, in order, with `sep` between each two neighbours.
pub open spec fn joined(items: Seq<Seq<char>>, sep: Seq<char>) -> Seq<char>
    decreases items.len(),
{
    if items.len() == 0 {
        Seq::empty()
    } else if items.len() == 1 {
        items[0]
    } else {
        joined(items.drop_last(), sep) + sep + items.last()
    }
}

/// The feed that parts the lines of a text.
pub open spec fn line_feed() -> Seq<char> {
    seq!['\n']
}

/// The `len` characters of `hay` from position `at` on.
pub open spec fn window(hay: Seq<char>, at: int, len: nat) -> Seq<char> {
    hay.subrange(at, at + len)
}

/// `needle` stands somewhere in `hay`.
pub open spec fn contains_text(hay: Seq<char>, needle: Seq<char>) -> bool {
    exists|at: int|
        0 <= at && at + needle.len() <= hay.len() && #[trigger] window(hay, at, needle.len())
            == needle
}

/// How often the character `c` occurs in `s`.
pub open spec fn occurrences(s: Seq<char>, c: char) -> nat
    decreases s.len(),
{
    if s.len() == 0 {
        0
    } else if s.last() == c {
        occurrences(s.drop_last(), c) + 1
    } else {
        occurrences(s.drop_last(), c)
    }
}

/// The character `c` does not occur in `s`.
pub open spec fn free_of(s: Seq<char>, c: char) -> bool {
    forall|i: int| 0 <= i < s.len() ==> s[i] != c
}

/// The views of a sequence of strings.
pub open spec fn views(items: Seq<String>) -> Seq<Seq<char>> {
    Seq::new(items.len(), |i: int| items[i]@)
}

/// The occurrences in a text are those in its two halves.
pub proof fn lemma_occurrences_concat(a: Seq<char>, b: Seq<char>, c: char)
    ensures
        occurrences(a + b, c) == occurrences(a, c) + occurrences(b, c),
    decreases b.len(),
{
    if b.len() == 0 {
        assert(a + b =~= a);
    } else {
        assert((a + b).drop_last() =~= a + b.drop_last());
        assert((a + b).last() == b.last());
        lemma_occurrences_concat(a, b.drop_last(), c);
    }
}

/// A text free of a character has no occurrence of it.
pub proof fn lemma_free_of_none(s: Seq<char>, c: char)
    requires
        free_of(s, c),
    ensures
        occurrences(s, c) == 0,
    decreases s.len(),
{
    if s.len() > 0 {
        assert(s.last() == s[s.len() - 1]);
        assert forall|i: int| 0 <= i < s.drop_last().len() implies s.drop_last()[i] != c by {
            assert(s.drop_last()[i] == s[i]);
        }
        lemma_free_of_none(s.drop_last(), c);
    }
}

/// Lines that hold no line feed, joined by line feeds, hold one line feed
/// fewer than there are lines.
pub proof fn lemma_joined_line_feeds(lines: Seq<Seq<char>>)
    requires
        lines.len() > 0,
        forall|i: int| 0 <= i < lines.len() ==> free_of(#[trigger] lines[i], '\n'),
    ensures
        occurrences(joined(lines, line_feed()), '\n') == lines.len() - 1,
    decreases lines.len(),
{
    let feed = line_feed();
    lemma_free_of_none(lines.last(), '\n');
    if lines.len() == 1 {
        assert(lines.last() == lines[0]);
    } else {
        let front = lines.drop_last();
        assert forall|i: int| 0 <= i < front.len() implies free_of(#[trigger] front[i], '\n') by {
            assert(front[i] == lines[i]);
        }
        lemma_joined_line_feeds(front);
        lemma_occurrences_concat(joined(front, feed), feed, '\n');
        lemma_occurrences_concat(joined(front, feed) + feed, lines.last(), '\n');
        assert(feed.drop_last() =~= Seq::<char>::empty());
        assert(occurrences(feed, '\n') == 1) by {
            assert(feed.last() == '\n');
            assert(occurrences(feed.drop_last(), '\n') == 0);
        }
    }
}

/// A text filled with blanks holds no character but its own and blanks.
pub proof fn lemma_padded_free_of(s: Seq<char>, width: nat, c: char)
    requires
        free_of(s, c),
        c != ' ',
    ensures
        free_of(pad_right(s, width), c),
{
}

/// A numeral holds digits only.
pub proof fn lemma_decimal_free_of(n: nat, c: char)
    requires
        forall|d: nat| d < 10 ==> digit_char(d) != c,
    ensures
        free_of(decimal(n), c),
    decreases n,
{
    if n >= 10 {
        lemma_decimal_free_of(n / 10, c);
        assert(digit_char(n % 10) != c);
    } else {
        assert(digit_char(n) != c);
    }
}

/// A text that lacks the first character of another does not hold the
/// other.
pub proof fn lemma_free_of_excludes(hay: Seq<char>, needle: Seq<char>)
    requires
        needle.len() > 0,
        free_of(hay, needle[0]),
    ensures
        !contains_text(hay, needle),
{
    assert forall|at: int| 0 <= at && at + needle.len() <= hay.len() implies #[trigger] window(
        hay,
        at,
        needle.len(),
    ) != needle by {
        assert(window(hay, at, needle.len())[0] == hay[at]);
    }
}

/// Blanks part what stands before them from what stands behind them: a
/// text without blanks that stands in neither part does not stand in the
/// whole.
pub proof fn lemma_blanks_part(front: Seq<char>, blanks: nat, back: Seq<char>, needle: Seq<char>)
    requires
        blanks > 0,
        needle.len() > 0,
        free_of(needle, ' '),
        !contains_text(front, needle),
        !contains_text(back, needle),
    ensures
        !contains_text(front + spaces(blanks) + back, needle),
{
    let hay = front + spaces(blanks) + back;
    assert forall|at: int| 0 <= at && at + needle.len() <= hay.len() implies #[trigger] window(
        hay,
        at,
        needle.len(),
    ) != needle by {
        let found = window(hay, at, needle.len());
        if at + needle.len() <= front.len() {
            assert(found =~= window(front, at, needle.len()));
        } else if at >= front.len() + blanks {
            assert(found =~= window(back, at - front.len() - blanks, needle.len()));
        } else {
            let blank = if at > front.len() {
                at
            } else {
                front.len() as int
            };
            assert(hay[blank] == ' ');
            assert(found[blank - at] == hay[blank]);
            assert(needle[blank - at] != ' ');
        }
    }
}

/// A text that does not stand in `front` does not stand in `front + back`
/// either, where it lacks the first character of `back` and `back` lacks
/// its own first character.
pub proof fn lemma_contains_behind(front: Seq<char>, back: Seq<char>, needle: Seq<char>)
    requires
        needle.len() > 0,
        back.len() > 0,
        !contains_text(front, needle),
        free_of(needle, back[0]),
        free_of(back, needle[0]),
    ensures
        !contains_text(front + back, needle),
{
    let hay = front + back;
    assert forall|at: int| 0 <= at && at + needle.len() <= hay.len() implies #[trigger] window(
        hay,
        at,
        needle.len(),
    ) != needle by {
        let found = window(hay, at, needle.len());
        if at + needle.len() <= front.len() {
            assert(found =~= window(front, at, needle.len()));
        } else if at >= front.len() {
            assert(found[0] == back[at - front.len()]);
        } else {
            let join = front.len() as int;
            assert(found[join - at] == back[0]);
            assert(needle[join - at] != back[0]);
        }
    }
}

/// A text stands at the end of whatever it is appended to.
pub proof fn lemma_contains_suffix(front: Seq<char>, needle: Seq<char>)
    ensures
        contains_text(front + needle, needle),
{
    assert(window(front + needle, front.len() as int, needle.len()) =~= needle);
}

/// Appends `n` blanks to `out`.
pub fn push_spaces(out: &mut String, n: usize)
    ensures
        final(out)@ == old(out)@ + spaces(n as nat),
{
    let mut i: usize = 0;
    while i < n
        invariant
            i <= n,
            out@ == old(out)@ + spaces(i as nat),
        decreases n - i,
    {
        proof {
            reveal_strlit(" ");
            assert(" "@ =~= seq![' ']);
            assert(spaces(i as nat) + seq![' '] =~= spaces((i + 1) as nat));
            assert((old(out)@ + spaces(i as nat)) + seq![' '] =~= old(out)@ + spaces((i + 1) as nat));
        }
        out.append(" ");
        i += 1;
    }
}

/// Appends `s` to `out`, then blanks until `width` characters have been
/// appended; a longer `s` is appended whole.
pub fn push_padded(out: &mut String, s: &str, width: usize)
    ensures
        final(out)@ == old(out)@ + pad_right(s@, width as nat),
{
    let len = s.unicode_len();
    out.append(s);
    if len < width {
        push_spaces(out, width - len);
        assert(out@ =~= old(out)@ + pad_right(s@, width as nat));
    }
}

fn digit_str(d: u64) -> (s: &'static str)
    requires
        d < 10,
    ensures
        s@ == seq![digit_char(d as nat)],
{
    proof {
        reveal_strlit("0");
        reveal_strlit("1");
        reveal_strlit("2");
        reveal_strlit("3");
        reveal_strlit("4");
        reveal_strlit("5");
        reveal_strlit("6");
        reveal_strlit("7");
        reveal_strlit("8");
        reveal_strlit("9");
    }
    let s = if d == 0 {
        "0"
    } else if d == 1 {
        "1"
    } else if d == 2 {
        "2"
    } else if d == 3 {
        "3"
    } else if d == 4 {
        "4"
    } else if d == 5 {
        "5"
    } else if d == 6 {
        "6"
    } else if d == 7 {
        "7"
    } else if d == 8 {
        "8"
    } else {
        "9"
    };
    assert(s@ =~= seq![digit_char(d as nat)]);
    s
}

/// Appends the decimal numeral of `n` to `out`.
pub fn push_decimal(out: &mut String, n: u64)
    ensures
        final(out)@ == old(out)@ + decimal(n as nat),
    decreases n,
{
    if n >= 10 {
        push_decimal(out, n / 10);
    }
    let d = digit_str(n % 10);
    out.append(d);
    assert(out@ =~= old(out)@ + decimal(n as nat));
}

/// The decimal numeral of `n`.
pub fn decimal_text(n: u64) -> (out: String)
    ensures
        out@ == decimal(n as nat),
{
    let mut out = String::new();
    push_decimal(&mut out, n);
    assert(out@ =~= decimal(n as nat));
    out
}

/// The lines as one text, a line feed between each two neighbours.
pub fn join_lines(lines: &Vec<String>) -> (out: String)
    ensures
        out@ == joined(views(lines@), line_feed()),
{
    let ghost all = views(lines@);
    let mut out = String::new();
    let mut i: usize = 0;
    assert(all.take(0) =~= Seq::<Seq<char>>::empty());
    while i < lines.len()
        invariant
            i <= lines@.len(),
            all == views(lines@),
            out@ == joined(all.take(i as int), line_feed()),
        decreases lines@.len() - i,
    {
        proof {
            reveal_strlit("\n");
            assert("\n"@ =~= line_feed());
            let upto = all.take(i as int + 1);
            assert(upto.drop_last() =~= all.take(i as int));
            assert(upto.last() == lines@[i as int]@);
            if i == 0 {
                assert(upto[0] == upto.last());
                assert(out@ + lines@[i as int]@ =~= joined(upto, line_feed()));
            }
        }
        if i > 0 {
            out.append("\n");
        }
        out.append(lines[i].as_str());
        i += 1;
    }
    assert(all.take(i as int) =~= all);
    out
}

/// Joins `items` with `sep` by `fmtools::join`, whose displayed form is
/// each item in order with the separator written before every item but the
/// first.
#[verifier::external_body]
pub(crate) fn join_strings(sep: &'static str, items: &Vec<String>) -> (out: String)
    ensures
        out@ == joined(views(items@), sep@),
{
    fmtools::join(sep, items).to_string()
}

} // verus!
