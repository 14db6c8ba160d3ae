//! Text helpers: decimal numbers and lines.

use vstd::prelude::*;
use vstd::string::*;

verus! {

/// The character of the decimal digit `digit`.
pub open spec fn digit_char(digit: nat) -> char
    recommends
        digit < 10,
{
    if digit == 0 {
        '0'
    } else if digit == 1 {
        '1'
    } else if digit == 2 {
        '2'
    } else if digit == 3 {
        '3'
    } else if digit == 4 {
        '4'
    } else if digit == 5 {
        '5'
    } else if digit == 6 {
        '6'
    } else if digit == 7 {
        '7'
    } else if digit == 8 {
        '8'
    } else {
        '9'
    }
}

/// `value` written in decimal, without leading zeros.
pub open spec fn decimal_text(value: nat) -> Seq<char>
    decreases value,
{
    if value < 10 {
        seq![digit_char(value)]
    } else {
        decimal_text(value / 10).push(digit_char(value % 10))
    }
}

fn digit_str(digit: u64) -> (text: &'static str)
    requires
        digit < 10,
    ensures
        text@ == seq![digit_char(digit as nat)],
{
    proof {
        reveal_strlit("0");
        reveal_strlit("1");
        reveal_strlit("2");
        reveal_strlit("3");
        reveal_strlit("4");
        reveal_strlit("5");
        reveal_strlit("6");
        reveal_strlit("7");
        reveal_strlit("8");
        reveal_strlit("9");
    }
    let text = if digit == 0 {
        "0"
    } else if digit == 1 {
        "1"
    } else if digit == 2 {
        "2"
    } else if digit == 3 {
        "3"
    } else if digit == 4 {
        "4"
    } else if digit == 5 {
        "5"
    } else if digit == 6 {
        "6"
    } else if digit == 7 {
        "7"
    } else if digit == 8 {
        "8"
    } else {
        "9"
    };
    assert(text@ =~= seq![digit_char(digit as nat)]);
    text
}

/// Writes `value` in decimal.
pub fn decimal_string(value: u64) -> (text: String)
    ensures
        text@ == decimal_text(value as nat),
    decreases value,
{
    if value < 10 {
        String::from_str(digit_str(value))
    } else {
        let mut text = decimal_string(value / 10);
        text.append(digit_str(value % 10));
        assert(text@ =~= decimal_text(value as nat));
        text
    }
}

/// Whether two texts are the same, character by character.
pub fn same_text(left: &str, right: &str) -> (same: bool)
    ensures
        same == (left@ == right@),
{
    let left_bytes = left.as_bytes();
    let right_bytes = right.as_bytes();
    proof {
        vstd::utf8::encode_utf8_decode_utf8(left@);
        vstd::utf8::encode_utf8_decode_utf8(right@);
    }
    if left_bytes.len() != right_bytes.len() {
        return false;
    }
    for index in 0..left_bytes.len()
        invariant
            left_bytes@.len() == right_bytes@.len(),
            left_bytes@ == vstd::utf8::encode_utf8(left@),
            right_bytes@ == vstd::utf8::encode_utf8(right@),
            forall|i: int| 0 <= i < index ==> left_bytes@[i] == right_bytes@[i],
    {
        if left_bytes[index] != right_bytes[index] {
            return false;
        }
    }
    assert(left_bytes@ =~= right_bytes@);
    true
}

/// Whether `left` comes before `right` in the order of the dictionary: at
/// the first place where the two differ `left` has the smaller byte, or
/// `left` ends there and `right` goes on.
pub open spec fn bytes_before(left: Seq<u8>, right: Seq<u8>) -> bool
    decreases left.len(),
{
    if right.len() == 0 {
        false
    } else if left.len() == 0 {
        true
    } else if left[0] != right[0] {
        left[0] < right[0]
    } else {
        bytes_before(left.drop_first(), right.drop_first())
    }
}

/// Whether `left` comes before `right` in the order of their UTF-8 bytes.
pub open spec fn text_before(left: Seq<char>, right: Seq<char>) -> bool {
    bytes_before(vstd::utf8::encode_utf8(left), vstd::utf8::encode_utf8(right))
}

/// Nothing comes before itself.
pub proof fn lemma_bytes_before_irreflexive(bytes: Seq<u8>)
    ensures
        !bytes_before(bytes, bytes),
    decreases bytes.len(),
{
    if bytes.len() > 0 {
        lemma_bytes_before_irreflexive(bytes.drop_first());
    }
}

/// Of two different byte strings exactly one comes before the other.
pub proof fn lemma_bytes_before_total(left: Seq<u8>, right: Seq<u8>)
    ensures
        left != right ==> (bytes_before(left, right) != bytes_before(right, left)),
        left == right ==> !bytes_before(left, right),
    decreases left.len(),
{
    if left == right {
        lemma_bytes_before_irreflexive(left);
    } else if left.len() > 0 && right.len() > 0 && left[0] == right[0] {
        lemma_bytes_before_total(left.drop_first(), right.drop_first());
        if left.drop_first() == right.drop_first() {
            assert(left =~= seq![left[0]] + left.drop_first());
            assert(right =~= seq![right[0]] + right.drop_first());
        }
    } else if left.len() == 0 && right.len() == 0 {
        assert(left =~= right);
    }
}

/// What comes before something that comes before a third comes before the
/// third.
pub proof fn lemma_bytes_before_transitive(first: Seq<u8>, second: Seq<u8>, third: Seq<u8>)
    requires
        bytes_before(first, second),
        bytes_before(second, third),
    ensures
        bytes_before(first, third),
    decreases first.len(),
{
    if first.len() > 0 && first[0] == second[0] && second[0] == third[0] {
        lemma_bytes_before_transitive(
            first.drop_first(),
            second.drop_first(),
            third.drop_first(),
        );
    }
}

/// The order of texts is a strict total order: of two different texts
/// exactly one comes before the other, and no text comes before itself.
pub proof fn lemma_text_before_total(left: Seq<char>, right: Seq<char>)
    ensures
        left != right ==> (text_before(left, right) != text_before(right, left)),
        left == right ==> !text_before(left, right),
{
    vstd::utf8::encode_utf8_decode_utf8(left);
    vstd::utf8::encode_utf8_decode_utf8(right);
    lemma_bytes_before_total(vstd::utf8::encode_utf8(left), vstd::utf8::encode_utf8(right));
}

/// The order of texts is transitive.
pub proof fn lemma_text_before_transitive(first: Seq<char>, second: Seq<char>, third: Seq<char>)
    requires
        text_before(first, second),
        text_before(second, third),
    ensures
        text_before(first, third),
{
    lemma_bytes_before_transitive(
        vstd::utf8::encode_utf8(first),
        vstd::utf8::encode_utf8(second),
        vstd::utf8::encode_utf8(third),
    );
}

/// Whether `left` comes before `right` in the order of their bytes.
pub fn is_text_before(left: &str, right: &str) -> (before: bool)
    ensures
        before == text_before(left@, right@),
{
    let left_bytes = left.as_bytes();
    let right_bytes = right.as_bytes();
    let mut index: usize = 0;
    assert(left_bytes@.skip(0) =~= left_bytes@);
    assert(right_bytes@.skip(0) =~= right_bytes@);
    while index < left_bytes.len() && index < right_bytes.len()
        invariant
            index <= left_bytes@.len(),
            index <= right_bytes@.len(),
            left_bytes@ == vstd::utf8::encode_utf8(left@),
            right_bytes@ == vstd::utf8::encode_utf8(right@),
            text_before(left@, right@) == bytes_before(
                left_bytes@.skip(index as int),
                right_bytes@.skip(index as int),
            ),
        decreases left_bytes@.len() - index,
    {
        proof {
            assert(left_bytes@.skip(index as int)[0] == left_bytes@[index as int]);
            assert(right_bytes@.skip(index as int)[0] == right_bytes@[index as int]);
            assert(left_bytes@.skip(index as int).drop_first() =~= left_bytes@.skip(index + 1));
            assert(right_bytes@.skip(index as int).drop_first() =~= right_bytes@.skip(
                index + 1,
            ));
        }
        if left_bytes[index] != right_bytes[index] {
            return left_bytes[index] < right_bytes[index];
        }
        index = index + 1;
    }
    index < right_bytes.len()
}

/// Index of the first line feed of `text`, or its length where it has none.
pub open spec fn first_line_feed(text: Seq<char>) -> nat
    decreases text.len(),
{
    if text.len() == 0 || text[0] == '\n' {
        0
    } else {
        1 + first_line_feed(text.drop_first())
    }
}

/// `line` without the carriage return at its end, if it has one there.
pub open spec fn without_carriage_return(line: Seq<char>) -> Seq<char> {
    if line.len() > 0 && line.last() == '\r' {
        line.drop_last()
    } else {
        line
    }
}

/// The lines of `text`. A line ends at a line feed, or at a carriage return
/// directly followed by one; neither belongs to the line. What follows the
/// last line feed is a line of its own unless it is empty, and keeps a
/// carriage return at its end.
pub open spec fn text_lines(text: Seq<char>) -> Seq<Seq<char>>
    decreases text.len(),
{
    if text.len() == 0 {
        Seq::empty()
    } else {
        let end = first_line_feed(text);
        if end >= text.len() {
            seq![text]
        } else {
            seq![without_carriage_return(text.subrange(0, end as int))] + text_lines(
                text.subrange(end as int + 1, text.len() as int),
            )
        }
    }
}

/// The views of the strings of `lines`.
pub open spec fn line_views(lines: Seq<String>) -> Seq<Seq<char>> {
    Seq::new(lines.len(), |i: int| lines[i]@)
}

proof fn lemma_first_line_feed(text: Seq<char>, at: int)
    requires
        0 <= at <= text.len(),
        forall|j: int| 0 <= j < at ==> text[j] != '\n',
        at == text.len() || text[at] == '\n',
    ensures
        first_line_feed(text) == at,
    decreases at,
{
    if at > 0 {
        let rest = text.drop_first();
        assert forall|j: int| 0 <= j < at - 1 implies rest[j] != '\n' by {
            assert(rest[j] == text[j + 1]);
        }
        lemma_first_line_feed(rest, at - 1);
    }
}

/// Splits `text` into its lines.
pub fn split_lines(text: &str) -> (lines: Vec<String>)
    ensures
        line_views(lines@) == text_lines(text@),
{
    let total = text.unicode_len();
    let mut lines: Vec<String> = Vec::new();
    let mut start: usize = 0;
    let mut at: usize = 0;
    let mut after_carriage_return = false;
    assert(text@.subrange(0, total as int) =~= text@);
    assert(line_views(lines@) =~= Seq::<Seq<char>>::empty());
    for c in it: text.chars()
        invariant
            it.seq() == text@,
            total == text@.len(),
            at == it.index(),
            start <= at <= total,
            forall|j: int| start <= j < at ==> text@[j] != '\n',
            after_carriage_return <==> (at > start && text@[at - 1] == '\r'),
            line_views(lines@) + text_lines(text@.subrange(start as int, total as int))
                == text_lines(text@),
    {
        if c == '\n' {
            let end = if after_carriage_return { at - 1 } else { at };
            let line = String::from_str(text.substring_char(start, end));
            proof {
                let rest = text@.subrange(start as int, total as int);
                assert forall|j: int| 0 <= j < at - start implies rest[j] != '\n' by {
                    assert(rest[j] == text@[start + j]);
                }
                lemma_first_line_feed(rest, at - start);
                assert(rest.subrange(0, at - start) =~= text@.subrange(start as int, at as int));
                assert(rest.subrange(at - start + 1, rest.len() as int) =~= text@.subrange(
                    at + 1,
                    total as int,
                ));
                assert(line@ =~= without_carriage_return(
                    text@.subrange(start as int, at as int),
                ));
                assert(line_views(lines@.push(line)) =~= line_views(lines@) + seq![line@]);
            }
            lines.push(line);
            start = at + 1;
            after_carriage_return = false;
        } else {
            after_carriage_return = c == '\r';
        }
        at = at + 1;
    }
    if start < total {
        let line = String::from_str(text.substring_char(start, total));
        proof {
            let rest = text@.subrange(start as int, total as int);
            assert forall|j: int| 0 <= j < total - start implies rest[j] != '\n' by {
                assert(rest[j] == text@[start + j]);
            }
            lemma_first_line_feed(rest, total - start);
            assert(line_views(lines@.push(line)) =~= line_views(lines@) + seq![line@]);
        }
        lines.push(line);
    } else {
        assert(text@.subrange(start as int, total as int) =~= Seq::<char>::empty());
    }
    lines
}

} // verus!
