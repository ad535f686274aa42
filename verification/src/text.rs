//! Plain text as a file holds it: how it falls into lines, and how lines are put
//! together again.

use vstd::prelude::*;
use vstd::string::StringExecFns;
use crate::boundary::{push_char, texts_of};

verus! {

/// `line` without the carriage return at its end, if it has one.
pub open spec fn strip_cr(line: Seq<char>) -> Seq<char> {
    if line.len() > 0 && line.last() == '\r' {
        line.drop_last()
    } else {
        line
    }
}

/// The lines that `text` has completed, and what it holds after the last line
/// feed. Each line feed completes a line; the line is what came since the line
/// feed before, without the carriage return that may stand at its end.
pub open spec fn scan(text: Seq<char>) -> (Seq<Seq<char>>, Seq<char>)
    decreases text.len(),
{
    if text.len() == 0 {
        (seq![], seq![])
    } else {
        let (lines, rest) = scan(text.drop_last());
        if text.last() == '\n' {
            (lines.push(strip_cr(rest)), seq![])
        } else {
            (lines, rest.push(text.last()))
        }
    }
}

/// The lines of `text`. A line ends at a line feed, or at a carriage return with a
/// line feed after it; neither belongs to the line. What follows the last line feed
/// is a line too, unless nothing follows it.
pub open spec fn lines_of(text: Seq<char>) -> Seq<Seq<char>> {
    let (lines, rest) = scan(text);
    if rest.len() > 0 {
        lines.push(rest)
    } else {
        lines
    }
}

/// The text of a file that holds `lines`: each line with a line feed after it.
pub open spec fn terminated(lines: Seq<Seq<char>>) -> Seq<char>
    decreases lines.len(),
{
    if lines.len() == 0 {
        seq![]
    } else {
        terminated(lines.drop_last()) + lines.last() + seq!['\n']
    }
}

/// No line holds a line feed, and none ends in a carriage return: the lines can be
/// told apart again once they are written out.
pub open spec fn separable(lines: Seq<Seq<char>>) -> bool {
    forall|i: int|
        0 <= i < lines.len() ==> !(#[trigger] lines[i]).contains('\n') && strip_cr(lines[i])
            == lines[i]
}

/// The character for the digit `d`.
pub open spec fn digit(d: nat) -> char {
    if d == 0 {
        '0'
    } else if d == 1 {
        '1'
    } else if d == 2 {
        '2'
    } else if d == 3 {
        '3'
    } else if d == 4 {
        '4'
    } else if d == 5 {
        '5'
    } else if d == 6 {
        '6'
    } else if d == 7 {
        '7'
    } else if d == 8 {
        '8'
    } else {
        '9'
    }
}

/// `n` written in decimal digits, without leading zeros.
pub open spec fn decimal(n: nat) -> Seq<char>
    decreases n,
{
    if n < 10 {
        seq![digit(n)]
    } else {
        decimal(n / 10).push(digit(n % 10))
    }
}

/// The number of bytes that `text` takes as a string.
pub open spec fn byte_count(text: Seq<char>) -> usize {
    vstd::utf8::encode_utf8(text).len() as usize
}

/// `count` spaces.
pub open spec fn spaces(count: nat) -> Seq<char> {
    Seq::new(count, |i: int| ' ')
}

/// `text` in the middle of a field of `width` characters, with spaces on both
/// sides and the odd space, if there is one, on the right; `text` itself where it
/// is longer than the field.
pub open spec fn centered(text: Seq<char>, width: nat) -> Seq<char> {
    if text.len() >= width {
        text
    } else {
        let pad = (width - text.len()) as nat;
        spaces(pad / 2) + text + spaces((pad - pad / 2) as nat)
    }
}

/// `text` at the right end of a field of `width` characters, with spaces before
/// it; `text` itself where it is longer than the field.
pub open spec fn right_aligned(text: Seq<char>, width: nat) -> Seq<char> {
    if text.len() >= width {
        text
    } else {
        spaces((width - text.len()) as nat) + text
    }
}

/// `text` in exactly `width` characters: cut off behind them where it is longer,
/// with spaces after it where it is shorter.
pub open spec fn fitted(text: Seq<char>, width: nat) -> Seq<char> {
    if text.len() >= width {
        text.take(width as int)
    } else {
        text + spaces((width - text.len()) as nat)
    }
}

/// The character for a digit.
fn digit_char(d: usize) -> (c: char)
    requires
        d < 10,
    ensures
        c == digit(d as nat),
{
    if d == 0 {
        '0'
    } else if d == 1 {
        '1'
    } else if d == 2 {
        '2'
    } else if d == 3 {
        '3'
    } else if d == 4 {
        '4'
    } else if d == 5 {
        '5'
    } else if d == 6 {
        '6'
    } else if d == 7 {
        '7'
    } else if d == 8 {
        '8'
    } else {
        '9'
    }
}

/// Writes `n` in decimal digits.
pub fn decimal_string(n: usize) -> (text: String)
    ensures
        text@ == decimal(n as nat),
{
    // the digits from the last to the first
    let mut digits: Vec<char> = Vec::new();
    let mut rest = n;
    while rest >= 10
        invariant
            decimal(n as nat) == decimal(rest as nat) + digits@.reverse(),
        decreases rest,
    {
        let ghost before = digits@;
        digits.push(digit_char(rest % 10));
        proof {
            assert(digits@.reverse() =~= seq![digit((rest % 10) as nat)] + before.reverse());
            assert(decimal(rest as nat) + before.reverse() =~= decimal((rest / 10) as nat)
                + digits@.reverse());
        }
        rest = rest / 10;
    }
    let mut text = String::new();
    push_char(&mut text, digit_char(rest));
    let mut index = digits.len();
    while index > 0
        invariant
            index <= digits@.len(),
            text@ == decimal(rest as nat) + digits@.reverse().take(digits@.len() - index),
        decreases index,
    {
        index = index - 1;
        push_char(&mut text, digits[index]);
        proof {
            let reversed = digits@.reverse();
            let done = digits@.len() - index;
            assert(reversed.take(done) =~= reversed.take(done - 1).push(digits@[index as int]));
        }
    }
    proof {
        assert(digits@.reverse().take(digits@.len() as int) =~= digits@.reverse());
    }
    text
}

/// Appends `count` spaces to `text`.
pub fn push_spaces(text: &mut String, count: usize)
    ensures
        final(text)@ == old(text)@ + spaces(count as nat),
{
    let mut done: usize = 0;
    proof {
        assert(text@ =~= old(text)@ + spaces(0));
    }
    while done < count
        invariant
            done <= count,
            text@ == old(text)@ + spaces(done as nat),
        decreases count - done,
    {
        push_char(text, ' ');
        done = done + 1;
        proof {
            assert(spaces(done as nat) =~= spaces((done - 1) as nat).push(' '));
        }
    }
}

/// Appends `s` to `text`, in the middle of a field of `width` characters.
pub fn push_centered(text: &mut String, s: &str, width: usize)
    ensures
        final(text)@ == old(text)@ + centered(s@, width as nat),
{
    let len = s.unicode_len();
    if len >= width {
        text.append(s);
    } else {
        let pad = width - len;
        push_spaces(text, pad / 2);
        text.append(s);
        push_spaces(text, pad - pad / 2);
        proof {
            assert(text@ =~= old(text)@ + centered(s@, width as nat));
        }
    }
}

/// Appends `s` to `text`, at the right end of a field of `width` characters.
pub fn push_right_aligned(text: &mut String, s: &str, width: usize)
    ensures
        final(text)@ == old(text)@ + right_aligned(s@, width as nat),
{
    let len = s.unicode_len();
    if len >= width {
        text.append(s);
    } else {
        push_spaces(text, width - len);
        text.append(s);
        proof {
            assert(text@ =~= old(text)@ + right_aligned(s@, width as nat));
        }
    }
}

/// Cuts or pads `s` to exactly `width` characters.
pub fn fit_to_width(s: &str, width: usize) -> (text: String)
    ensures
        text@ == fitted(s@, width as nat),
{
    let chars = chars_of(s);
    if chars.len() >= width {
        string_of(&chars, width)
    } else {
        let mut text = string_of(&chars, chars.len());
        proof {
            assert(chars@.take(chars@.len() as int) =~= chars@);
        }
        push_spaces(&mut text, width - chars.len());
        text
    }
}

/// The characters of `text`, one by one.
pub fn chars_of(text: &str) -> (chars: Vec<char>)
    ensures
        chars@ == text@,
{
    let mut chars: Vec<char> = Vec::new();
    for c in it: text.chars()
        invariant
            chars@ == it.seq().take(it.index() as int),
            it.seq() == text@,
    {
        chars.push(c);
    }
    chars
}

/// The first `end` of `chars` as a string.
pub fn string_of(chars: &Vec<char>, end: usize) -> (text: String)
    requires
        end <= chars@.len(),
    ensures
        text@ == chars@.take(end as int),
{
    let mut text = String::new();
    let mut index: usize = 0;
    while index < end
        invariant
            index <= end <= chars@.len(),
            text@ == chars@.take(index as int),
        decreases end - index,
    {
        push_char(&mut text, chars[index]);
        index = index + 1;
        assert(chars@.take(index as int) =~= chars@.take(index - 1).push(chars@[index - 1]));
    }
    text
}

/// Splits `content` into its lines.
pub fn split_lines(content: &str) -> (lines: Vec<String>)
    ensures
        texts_of(lines@) == lines_of(content@),
{
    let chars = chars_of(content);
    let mut lines: Vec<String> = Vec::new();
    let mut rest: Vec<char> = Vec::new();
    let mut index: usize = 0;
    while index < chars.len()
        invariant
            chars@ == content@,
            index <= chars@.len(),
            (texts_of(lines@), rest@) == scan(chars@.take(index as int)),
        decreases chars@.len() - index,
    {
        let c = chars[index];
        proof {
            assert(chars@.take(index + 1).drop_last() =~= chars@.take(index as int));
        }
        let ghost before = texts_of(lines@);
        if c == '\n' {
            let len = rest.len();
            let end = if len > 0 && rest[len - 1] == '\r' {
                len - 1
            } else {
                len
            };
            let line = string_of(&rest, end);
            proof {
                assert(line@ =~= strip_cr(rest@));
            }
            lines.push(line);
            rest = Vec::new();
            proof {
                assert(texts_of(lines@) =~= before.push(line@));
            }
        } else {
            rest.push(c);
        }
        index = index + 1;
    }
    proof {
        assert(chars@.take(index as int) =~= chars@);
    }
    if rest.len() > 0 {
        let ghost before = texts_of(lines@);
        let line = string_of(&rest, rest.len());
        proof {
            assert(line@ =~= rest@);
        }
        lines.push(line);
        proof {
            assert(texts_of(lines@) =~= before.push(line@));
        }
    }
    lines
}

/// Scanning a text and then more text without a line feed completes no further
/// line.
pub proof fn lemma_scan_append(text: Seq<char>, more: Seq<char>)
    requires
        !more.contains('\n'),
    ensures
        scan(text + more) == (scan(text).0, scan(text).1 + more),
    decreases more.len(),
{
    if more.len() == 0 {
        assert(text + more =~= text);
        assert(scan(text).1 + more =~= scan(text).1);
    } else {
        let head = more.drop_last();
        assert(more.last() == more[more.len() - 1]);
        assert(more.contains(more.last()));
        assert(!head.contains('\n')) by {
            if head.contains('\n') {
                let i = choose|i: int| 0 <= i < head.len() && head[i] == '\n';
                assert(more[i] == '\n');
            }
        }
        lemma_scan_append(text, head);
        assert((text + more).drop_last() =~= text + head);
        assert((text + more).last() == more.last());
        assert(scan(text).1 + more =~= (scan(text).1 + head).push(more.last()));
    }
}

/// Lines that can be told apart are what their file falls into again.
pub proof fn lemma_lines_of_terminated(lines: Seq<Seq<char>>)
    requires
        separable(lines),
    ensures
        scan(terminated(lines)) == (lines, Seq::<char>::empty()),
        lines_of(terminated(lines)) == lines,
    decreases lines.len(),
{
    if lines.len() > 0 {
        let head = lines.drop_last();
        let last = lines.last();
        lemma_lines_of_terminated(head);
        lemma_scan_append(terminated(head), last);
        let text = terminated(head) + last;
        assert(terminated(lines).drop_last() =~= text);
        assert(terminated(lines).last() == '\n');
        assert(scan(text).1 =~= last);
        assert(head.push(strip_cr(last)) =~= lines);
    }
}

/// A text is its completed lines, a line feed after each, followed by what comes
/// after the last line feed, provided that it holds no carriage return.
pub proof fn lemma_terminated_scan(text: Seq<char>)
    requires
        !text.contains('\r'),
    ensures
        terminated(scan(text).0) + scan(text).1 == text,
    decreases text.len(),
{
    if text.len() == 0 {
        assert(terminated(scan(text).0) + scan(text).1 =~= text);
    } else {
        let head = text.drop_last();
        assert(!head.contains('\r')) by {
            if head.contains('\r') {
                let i = choose|i: int| 0 <= i < head.len() && head[i] == '\r';
                assert(text[i] == '\r');
            }
        }
        lemma_terminated_scan(head);
        let (lines, rest) = scan(head);
        assert(text =~= head.push(text.last()));
        if text.last() == '\n' {
            assert(strip_cr(rest) == rest) by {
                if rest.len() > 0 && rest.last() == '\r' {
                    assert(head == terminated(lines) + rest);
                    assert(head[head.len() - 1] == '\r');
                }
            }
            assert(lines.push(rest).drop_last() =~= lines);
            assert(terminated(lines.push(rest)) + Seq::<char>::empty() =~= (terminated(lines)
                + rest).push('\n'));
        } else {
            assert(terminated(lines) + rest.push(text.last()) =~= (terminated(lines) + rest).push(
                text.last(),
            ));
        }
    }
}

/// A text without carriage returns that is empty or ends in a line feed is, line
/// for line, what is written out for its lines.
pub proof fn lemma_terminated_lines_of(text: Seq<char>)
    requires
        !text.contains('\r'),
        text.len() == 0 || text.last() == '\n',
    ensures
        terminated(lines_of(text)) == text,
{
    lemma_terminated_scan(text);
    if text.len() > 0 {
        assert(scan(text).1 =~= Seq::<char>::empty());
    }
    assert(terminated(scan(text).0) + scan(text).1 =~= terminated(scan(text).0));
}

/// No line of a text holds a line feed.
pub proof fn lemma_lines_have_no_line_feed(text: Seq<char>)
    ensures
        forall|i: int| 0 <= i < scan(text).0.len() ==> !(#[trigger] scan(text).0[i]).contains('\n'),
        !scan(text).1.contains('\n'),
        forall|i: int|
            0 <= i < lines_of(text).len() ==> !(#[trigger] lines_of(text)[i]).contains('\n'),
    decreases text.len(),
{
    if text.len() > 0 {
        lemma_lines_have_no_line_feed(text.drop_last());
        let (lines, rest) = scan(text.drop_last());
        if text.last() == '\n' {
            assert(!strip_cr(rest).contains('\n')) by {
                if strip_cr(rest).contains('\n') {
                    let cut = strip_cr(rest);
                    let i = choose|i: int| 0 <= i < cut.len() && cut[i] == '\n';
                    assert(rest[i] == '\n');
                }
            }
        } else {
            assert(!rest.push(text.last()).contains('\n')) by {
                let more = rest.push(text.last());
                if more.contains('\n') {
                    let i = choose|i: int| 0 <= i < more.len() && more[i] == '\n';
                    if i < rest.len() {
                        assert(rest[i] == '\n');
                    }
                }
            }
        }
    }
}

/// A text has no more lines than characters, and no line is longer than the text.
pub proof fn lemma_lines_bound(text: Seq<char>)
    ensures
        scan(text).0.len() + scan(text).1.len() <= text.len(),
        forall|i: int|
            0 <= i < scan(text).0.len() ==> (#[trigger] scan(text).0[i]).len() <= text.len(),
        lines_of(text).len() <= text.len(),
        forall|i: int|
            0 <= i < lines_of(text).len() ==> (#[trigger] lines_of(text)[i]).len()
                <= text.len(),
    decreases text.len(),
{
    if text.len() > 0 {
        lemma_lines_bound(text.drop_last());
    }
}

} // verus!
