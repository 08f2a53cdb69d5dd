//! Text as sequences of characters: lines, joins and replacements.

use vstd::prelude::*;
use vstd::string::StringExecFns;

verus! {

/// The line break.
pub open spec fn is_break(c: char) -> bool {
    c == '\n'
}

/// The lines of a text: the pieces that its line breaks separate. A text
/// without a line break is one line, and so is the empty text.
pub open spec fn lines_of(s: Seq<char>) -> Seq<Seq<char>>
    decreases s.len(),
{
    if s.len() == 0 {
        seq![Seq::empty()]
    } else if is_break(s.last()) {
        lines_of(s.drop_last()).push(Seq::empty())
    } else {
        let before = lines_of(s.drop_last());
        before.drop_last().push(before.last().push(s.last()))
    }
}

/// The number of line breaks in a text.
pub open spec fn count_breaks(s: Seq<char>) -> nat
    decreases s.len(),
{
    if s.len() == 0 {
        0
    } else if is_break(s.last()) {
        count_breaks(s.drop_last()) + 1
    } else {
        count_breaks(s.drop_last())
    }
}

/// The views of a list of strings, in order.
pub open spec fn texts(v: Seq<String>) -> Seq<Seq<char>> {
    v.map_values(|s: String| s@)
}

/// A text with `n` line breaks has `n + 1` lines.
pub proof fn lemma_line_count(s: Seq<char>)
    ensures
        lines_of(s).len() == count_breaks(s) + 1,
    decreases s.len(),
{
    if s.len() > 0 {
        lemma_line_count(s.drop_last());
    }
}

/// No line of a text holds a line break.
pub proof fn lemma_lines_hold_no_break(s: Seq<char>)
    ensures
        forall|i: int, j: int|
            0 <= i < lines_of(s).len() && 0 <= j < lines_of(s)[i].len() ==> !is_break(
                #[trigger] lines_of(s)[i][j],
            ),
    decreases s.len(),
{
    if s.len() > 0 {
        lemma_lines_hold_no_break(s.drop_last());
        lemma_line_count(s.drop_last());
    }
}

/// The lines `lines[0]`, ..., `lines[n - 1]` with a line break between each
/// two neighbours.
pub open spec fn joined(lines: Seq<Seq<char>>, n: nat) -> Seq<char>
    decreases n,
{
    if n == 0 {
        Seq::empty()
    } else if n == 1 {
        lines[0]
    } else {
        joined(lines, (n - 1) as nat).push('\n') + lines[n - 1]
    }
}

proof fn lemma_joined_agrees(a: Seq<Seq<char>>, b: Seq<Seq<char>>, n: nat)
    requires
        n <= a.len(),
        n <= b.len(),
        forall|i: int| 0 <= i < n ==> a[i] == b[i],
    ensures
        joined(a, n) == joined(b, n),
    decreases n,
{
    if n > 1 {
        lemma_joined_agrees(a, b, (n - 1) as nat);
    }
}

/// Putting the line breaks back between the lines of a text gives the text.
pub proof fn lemma_lines_join(s: Seq<char>)
    ensures
        joined(lines_of(s), lines_of(s).len()) == s,
    decreases s.len(),
{
    let lines = lines_of(s);
    if s.len() == 0 {
        assert(joined(lines, 1) =~= s);
    } else {
        let rest = s.drop_last();
        let before = lines_of(rest);
        lemma_lines_join(rest);
        lemma_line_count(rest);
        let n = before.len();
        assert(rest.push(s.last()) =~= s);
        if is_break(s.last()) {
            lemma_joined_agrees(lines, before, n);
            assert(joined(lines, n + 1) =~= joined(lines, n).push('\n') + Seq::<char>::empty());
            assert(joined(lines, n + 1) =~= s);
        } else {
            if n == 1 {
                assert(joined(lines, 1) =~= s);
            } else {
                lemma_joined_agrees(lines, before, (n - 1) as nat);
                let head = joined(before, (n - 1) as nat).push('\n');
                assert(joined(lines, n) =~= head + before.last().push(s.last()));
                assert(joined(before, n) =~= head + before.last());
                assert(joined(lines, n) =~= joined(before, n).push(s.last()));
            }
        }
    }
}

/// Whether two texts hold the same characters.
pub fn same_text(a: &str, b: &str) -> (same: bool)
    ensures
        same == (a@ == b@),
{
    let a = a.to_owned();
    let b = b.to_owned();
    a == b
}

/// `String::push`: appends one character to a string.
#[verifier::external_body]
pub(crate) fn push_char(s: &mut String, c: char)
    ensures
        final(s)@ == old(s)@.push(c),
{
    s.push(c);
}

/// Splits a text into its lines.
pub fn split_lines(s: &str) -> (lines: Vec<String>)
    ensures
        texts(lines@) == lines_of(s@),
{
    let mut lines: Vec<String> = Vec::new();
    let mut line = String::new();
    proof {
        assert(s@.take(0) =~= Seq::<char>::empty());
        assert(texts(lines@).push(line@) =~= seq![Seq::<char>::empty()]);
    }
    for c in it: s.chars()
        invariant
            it.seq() == s@,
            lines_of(s@.take(it.index() as int)) == texts(lines@).push(line@),
    {
        proof {
            let seen = s@.take(it.index() + 1);
            assert(seen.drop_last() =~= s@.take(it.index() as int));
            assert(seen.last() == c);
            assert(texts(lines@).push(line@).drop_last() =~= texts(lines@));
        }
        if c == '\n' {
            proof {
                assert(texts(lines@.push(line)) =~= texts(lines@).push(line@));
            }
            lines.push(line);
            line = String::new();
        } else {
            push_char(&mut line, c);
        }
    }
    proof {
        assert(s@.take(s@.len() as int) =~= s@);
        assert(texts(lines@.push(line)) =~= texts(lines@).push(line@));
    }
    lines.push(line);
    lines
}

/// A text with each of its full stops replaced by a comma.
pub open spec fn dots_to_commas(s: Seq<char>) -> Seq<char> {
    s.map_values(
        |c: char|
            if c == '.' {
                ','
            } else {
                c
            },
    )
}

/// Replaces each full stop of a text by a comma.
pub fn replace_dots(s: &str) -> (replaced: String)
    ensures
        replaced@ == dots_to_commas(s@),
{
    let mut replaced = String::new();
    for c in it: s.chars()
        invariant
            it.seq() == s@,
            replaced@ == dots_to_commas(s@.take(it.index() as int)),
    {
        proof {
            assert(s@.take(it.index() + 1) =~= s@.take(it.index() as int).push(c));
            assert(dots_to_commas(s@.take(it.index() as int).push(c)) =~= dots_to_commas(
                s@.take(it.index() as int),
            ).push(if c == '.' { ',' } else { c }));
        }
        if c == '.' {
            push_char(&mut replaced, ',');
        } else {
            push_char(&mut replaced, c);
        }
    }
    proof {
        assert(s@.take(s@.len() as int) =~= s@);
    }
    replaced
}

/// The character of a decimal digit.
pub open spec fn digit_char(d: int) -> char
    recommends
        0 <= d <= 9,
{
    (d + 48) as char
}

/// A natural number in decimal notation, without leading zeros.
pub open spec fn decimal_digits(n: nat) -> Seq<char>
    decreases n,
{
    if n < 10 {
        seq![digit_char(n as int)]
    } else {
        decimal_digits(n / 10).push(digit_char((n % 10) as int))
    }
}

/// Appends a number in decimal notation to a text.
pub fn push_decimal(s: &mut String, n: u64)
    ensures
        final(s)@ == old(s)@ + decimal_digits(n as nat),
    decreases n,
{
    if n >= 10 {
        push_decimal(s, n / 10);
    }
    let digit: u8 = (n % 10) as u8;
    push_char(s, (digit + 48) as char);
    assert(final(s)@ =~= old(s)@ + decimal_digits(n as nat));
}

/// A label with a colon after it.
pub open spec fn with_colon(label: Seq<char>) -> Seq<char> {
    label.push(':')
}

/// A value with its label before it: the label, a colon, a space and the
/// value.
pub open spec fn tagged(label: Seq<char>, value: Seq<char>) -> Seq<char> {
    label.push(':').push(' ') + value
}

/// The text of an optional value with its label before it: nothing where
/// there is no value.
pub open spec fn tagged_or_empty(label: Seq<char>, value: Option<String>) -> Seq<char> {
    match value {
        Some(value) => tagged(label, value@),
        None => Seq::empty(),
    }
}

/// Puts a colon after a label.
pub fn label_with_colon(label: &str) -> (text: String)
    ensures
        text@ == with_colon(label@),
{
    let mut text = String::from_str(label);
    push_char(&mut text, ':');
    text
}

/// Puts a label, a colon and a space before a value.
pub fn tagged_value(label: &str, value: &str) -> (text: String)
    ensures
        text@ == tagged(label@, value@),
{
    let mut text = String::from_str(label);
    push_char(&mut text, ':');
    push_char(&mut text, ' ');
    text.append(value);
    text
}

/// Puts a label, a colon and a space before a value, where there is one.
pub fn tagged_value_or_empty(label: &str, value: &Option<String>) -> (text: String)
    ensures
        text@ == tagged_or_empty(label@, *value),
{
    match value {
        Some(value) => tagged_value(label, value.as_str()),
        None => String::new(),
    }
}

} // verus!
