//! Decoding of the device's response lines.

use vstd::prelude::*;
use vstd::string::*;
use crate::error::{outcome, Failure, ServoError, WriteOp};
use crate::text::{chars_of, decimal, digit_char};

verus! {

/// White space: the characters that Unicode gives the property White_Space.
pub open spec fn is_space(c: char) -> bool {
    let u = c as u32;
    (0x09 <= u && u <= 0x0D) || u == 0x20 || u == 0x85 || u == 0xA0 || u == 0x1680 || (0x2000 <= u
        && u <= 0x200A) || u == 0x2028 || u == 0x2029 || u == 0x202F || u == 0x205F || u == 0x3000
}

/// The length of the longest prefix of `s` made of white space only
/// (`spaces`), or of no white space at all (`!spaces`).
pub open spec fn run_len(s: Seq<char>, spaces: bool) -> nat
    decreases s.len(),
{
    if s.len() > 0 && is_space(s[0]) == spaces {
        1 + run_len(s.drop_first(), spaces)
    } else {
        0
    }
}

/// The number of white-space characters at the end of `s`.
pub open spec fn trailing_spaces(s: Seq<char>) -> nat
    decreases s.len(),
{
    if s.len() > 0 && is_space(s.last()) {
        1 + trailing_spaces(s.drop_last())
    } else {
        0
    }
}

/// `s` without the white space at its two ends.
pub open spec fn trimmed(s: Seq<char>) -> Seq<char> {
    let rest = s.skip(run_len(s, true) as int);
    rest.take(rest.len() - trailing_spaces(rest))
}

/// Whether the response acknowledges a command: trimmed, it reads `OK`.
pub open spec fn is_ack(response: Seq<char>) -> bool {
    trimmed(response) == seq!['O', 'K']
}

/// The word of index `k` (from zero) among the words of `s`, a word being a
/// longest run of characters that are not white space.
pub open spec fn word(s: Seq<char>, k: nat) -> Option<Seq<char>>
    decreases k,
{
    let rest = s.skip(run_len(s, true) as int);
    let n = run_len(rest, false);
    if n == 0 {
        None
    } else if k == 0 {
        Some(rest.take(n as int))
    } else {
        word(rest.skip(n as int), (k - 1) as nat)
    }
}

pub open spec fn is_digit(c: char) -> bool {
    '0' <= c && c <= '9'
}

/// The number that a sequence of decimal digits denotes.
pub open spec fn digits_value(digits: Seq<char>) -> nat
    decreases digits.len(),
{
    if digits.len() == 0 {
        0
    } else {
        digits_value(digits.drop_last()) * 10 + (digits.last() as u32 - 48) as nat
    }
}

/// `word` without the `+` that it may begin with.
pub open spec fn without_plus(word: Seq<char>) -> Seq<char> {
    if word.len() > 0 && word[0] == '+' {
        word.drop_first()
    } else {
        word
    }
}

pub open spec fn all_digits(digits: Seq<char>) -> bool {
    forall|i: int| 0 <= i < digits.len() ==> is_digit(#[trigger] digits[i])
}

/// The unsigned 8-bit integer that `word` denotes: an optional `+`, then one
/// or more decimal digits whose value is at most 255.
pub open spec fn parse_u8(word: Seq<char>) -> Option<u8> {
    let digits = without_plus(word);
    if digits.len() > 0 && all_digits(digits) && digits_value(digits) <= 255 {
        Some(digits_value(digits) as u8)
    } else {
        None
    }
}

/// The angle that a response to a query reports: its third word, read as an
/// unsigned 8-bit integer.
pub open spec fn reported_angle(response: Seq<char>) -> Option<u8> {
    match word(response, 2) {
        Some(w) => parse_u8(w),
        None => None,
    }
}

/// A prefix of a digit sequence denotes no more than the whole.
pub proof fn lemma_digits_value_prefix(digits: Seq<char>, n: int)
    requires
        0 <= n <= digits.len(),
        all_digits(digits),
    ensures
        digits_value(digits.take(n)) <= digits_value(digits),
    decreases digits.len(),
{
    if n == digits.len() {
        assert(digits.take(n) =~= digits);
    } else {
        lemma_digits_value_prefix(digits.drop_last(), n);
        assert(digits.drop_last().take(n) =~= digits.take(n));
    }
}

/// A decimal numeral is made of digits and denotes its number.
pub proof fn lemma_decimal_digits(n: nat)
    ensures
        decimal(n).len() > 0,
        all_digits(decimal(n)),
        digits_value(decimal(n)) == n,
    decreases n,
{
    let d = n % 10;
    assert(digit_char(d) as u32 == 48 + d);
    assert(decimal(n).last() == digit_char(d));
    if n < 10 {
        assert(decimal(n).drop_last() =~= Seq::<char>::empty());
        assert(digits_value(decimal(n).drop_last()) == 0);
    } else {
        lemma_decimal_digits(n / 10);
        assert(decimal(n).drop_last() =~= decimal(n / 10));
    }
}

/// An angle written as a decimal numeral is read back as itself.
pub proof fn decimal_is_read_back(angle: u8)
    ensures
        parse_u8(decimal(angle as nat)) == Some(angle),
{
    lemma_decimal_digits(angle as nat);
    assert(is_digit(decimal(angle as nat)[0]));
}

/// A word: one character or more, none of them white space.
pub open spec fn is_word(w: Seq<char>) -> bool {
    w.len() > 0 && forall|i: int| 0 <= i < w.len() ==> !is_space(#[trigger] w[i])
}

/// A run of white space (`spaces`), or of other characters (`!spaces`), goes
/// up to the first character of the other sort, or to the end.
pub proof fn lemma_run(w: Seq<char>, rest: Seq<char>, spaces: bool)
    requires
        forall|i: int| 0 <= i < w.len() ==> is_space(#[trigger] w[i]) == spaces,
        rest.len() == 0 || is_space(rest[0]) != spaces,
    ensures
        run_len(w + rest, spaces) == w.len(),
    decreases w.len(),
{
    let s = w + rest;
    if w.len() == 0 {
        assert(s =~= rest);
    } else {
        assert(s[0] == w[0]);
        assert(s.drop_first() =~= w.drop_first() + rest);
        assert forall|i: int| 0 <= i < w.drop_first().len() implies is_space(
            #[trigger] w.drop_first()[i],
        ) == spaces by {
            assert(w.drop_first()[i] == w[i + 1]);
        }
        lemma_run(w.drop_first(), rest, spaces);
    }
}

/// White space after a character that is none is all the white space at the
/// end.
pub proof fn lemma_trailing(head: Seq<char>, blanks: Seq<char>)
    requires
        head.len() == 0 || !is_space(head.last()),
        forall|i: int| 0 <= i < blanks.len() ==> is_space(#[trigger] blanks[i]),
    ensures
        trailing_spaces(head + blanks) == blanks.len(),
    decreases blanks.len(),
{
    let s = head + blanks;
    if blanks.len() == 0 {
        assert(s =~= head);
    } else {
        assert(s.last() == blanks.last());
        assert(s.drop_last() =~= head + blanks.drop_last());
        assert forall|i: int| 0 <= i < blanks.drop_last().len() implies is_space(
            #[trigger] blanks.drop_last()[i],
        ) by {
            assert(blanks.drop_last()[i] == blanks[i]);
        }
        lemma_trailing(head, blanks.drop_last());
    }
}

/// `OK` with nothing but white space before and after it is an
/// acknowledgement.
pub proof fn padded_ok_is_ack(before: Seq<char>, after: Seq<char>)
    requires
        forall|i: int| 0 <= i < before.len() ==> is_space(#[trigger] before[i]),
        forall|i: int| 0 <= i < after.len() ==> is_space(#[trigger] after[i]),
    ensures
        is_ack(before + seq!['O', 'K'] + after),
{
    let ok = seq!['O', 'K'];
    let s = before + ok + after;
    let tail = ok + after;
    assert(s =~= before + tail);
    assert(tail[0] == 'O');
    lemma_run(before, tail, true);
    assert(s.skip(before.len() as int) =~= tail);
    assert(ok.last() == 'K');
    lemma_trailing(ok, after);
    assert(tail.take(tail.len() - after.len()) =~= ok);
}

/// One blank before a character that is no white space is a run of one.
pub proof fn lemma_one_blank(rest: Seq<char>)
    requires
        rest.len() > 0,
        !is_space(rest[0]),
    ensures
        run_len(seq![' '] + rest, true) == 1,
        (seq![' '] + rest).skip(1) =~= rest,
{
    let s = seq![' '] + rest;
    assert(s[0] == ' ');
    assert(s.drop_first() =~= rest);
    assert(run_len(rest, true) == 0);
}

/// Where two words, each followed by a blank, come before the decimal
/// numeral of an angle, and the numeral ends the text or is followed by
/// white space, that angle is the one reported.
pub proof fn third_word_is_the_angle(
    first: Seq<char>,
    second: Seq<char>,
    angle: u8,
    rest: Seq<char>,
)
    requires
        is_word(first),
        is_word(second),
        rest.len() == 0 || is_space(rest[0]),
    ensures
        reported_angle(
            first + seq![' '] + second + seq![' '] + decimal(angle as nat) + rest,
        ) == Some(angle),
{
    let blank = seq![' '];
    let numeral = decimal(angle as nat);
    let s = first + blank + second + blank + numeral + rest;
    lemma_decimal_digits(angle as nat);
    decimal_is_read_back(angle);
    assert forall|i: int| 0 <= i < numeral.len() implies !is_space(#[trigger] numeral[i]) by {
        assert(is_digit(numeral[i]));
    }
    let s3 = numeral + rest;
    let s2 = blank + s3;
    let s1 = second + s2;
    let s0 = blank + s1;
    assert(s =~= first + s0);
    // the first word
    assert(s[0] == first[0]);
    assert(run_len(s, true) == 0);
    assert(s.skip(0) =~= s);
    assert(s0[0] == ' ');
    lemma_run(first, s0, false);
    assert(s.skip(first.len() as int) =~= s0);
    assert(word(s, 2) == word(s0, 1));
    // the second word
    assert(s1[0] == second[0]);
    lemma_one_blank(s1);
    assert(s2[0] == ' ');
    lemma_run(second, s2, false);
    assert(s1.skip(second.len() as int) =~= s2);
    assert(word(s0, 1) == word(s2, 0));
    // the numeral
    assert(s3[0] == numeral[0]);
    lemma_one_blank(s3);
    lemma_run(numeral, rest, false);
    assert(s3.take(numeral.len() as int) =~= numeral);
    assert(word(s2, 0) == Some(numeral));
}

pub fn is_space_char(c: char) -> (b: bool)
    ensures
        b == is_space(c),
{
    let u: u32 = c as u32;
    (0x09 <= u && u <= 0x0D) || u == 0x20 || u == 0x85 || u == 0xA0 || u == 0x1680 || (0x2000 <= u
        && u <= 0x200A) || u == 0x2028 || u == 0x2029 || u == 0x202F || u == 0x205F || u == 0x3000
}

/// The end of the run of white space (`spaces`) or of other characters
/// (`!spaces`) that starts at `from`.
fn run_end(v: &Vec<char>, from: usize, spaces: bool) -> (end: usize)
    requires
        from <= v@.len(),
    ensures
        from <= end <= v@.len(),
        end - from == run_len(v@.skip(from as int), spaces),
{
    let mut i: usize = from;
    while i < v.len() && is_space_char(v[i]) == spaces
        invariant
            from <= i <= v@.len(),
            run_len(v@.skip(from as int), spaces) == (i - from) + run_len(
                v@.skip(i as int),
                spaces,
            ),
        decreases v@.len() - i,
    {
        proof {
            assert(v@.skip(i as int)[0] == v@[i as int]);
            assert(v@.skip(i as int).drop_first() =~= v@.skip(i + 1));
        }
        i += 1;
    }
    proof {
        if i < v@.len() {
            assert(v@.skip(i as int)[0] == v@[i as int]);
        }
    }
    i
}

/// Whether the response, trimmed, reads `OK`.
pub fn is_ok_response(response: &str) -> (b: bool)
    ensures
        b == is_ack(response@),
{
    let v = chars_of(response);
    let start = run_end(&v, 0, true);
    let ghost rest = v@.skip(start as int);
    proof {
        assert(v@.skip(0) =~= v@);
    }
    let mut end: usize = v.len();
    proof {
        assert(rest.take(rest.len() as int) =~= rest);
    }
    while end > start && is_space_char(v[end - 1])
        invariant
            start <= end <= v@.len(),
            rest == v@.skip(start as int),
            trailing_spaces(rest) == (v@.len() - end) + trailing_spaces(rest.take(end - start)),
        decreases end,
    {
        proof {
            let cur = rest.take(end - start);
            assert(cur.last() == v@[end - 1]);
            assert(cur.drop_last() =~= rest.take(end - 1 - start));
        }
        end -= 1;
    }
    proof {
        let cur = rest.take(end - start);
        if end > start {
            assert(cur.last() == v@[end - 1]);
        }
        assert(trailing_spaces(cur) == 0);
        assert(trimmed(v@) == cur);
        if end - start == 2 {
            assert(cur[0] == v@[start as int]);
            assert(cur[1] == v@[start + 1]);
            if v@[start as int] == 'O' && v@[start + 1] == 'K' {
                assert(cur =~= seq!['O', 'K']);
            }
        }
    }
    end - start == 2 && v[start] == 'O' && v[start + 1] == 'K'
}

/// Reads the characters of `v` from `from` up to `to` as an unsigned 8-bit
/// integer.
fn parse_u8_range(v: &Vec<char>, from: usize, to: usize) -> (r: Option<u8>)
    requires
        from <= to <= v@.len(),
    ensures
        r == parse_u8(v@.subrange(from as int, to as int)),
{
    let ghost word = v@.subrange(from as int, to as int);
    let mut i: usize = from;
    if from < to && v[from] == '+' {
        i = from + 1;
    }
    let first: usize = i;
    let ghost digits = v@.subrange(first as int, to as int);
    proof {
        if first > from {
            assert(word[0] == '+');
            assert(word.drop_first() =~= digits);
        } else {
            if word.len() > 0 {
                assert(word[0] == v@[from as int]);
            }
            assert(word =~= digits);
        }
    }
    if first == to {
        return None;
    }
    let mut acc: u32 = 0;
    proof {
        assert(digits.take(0) =~= Seq::<char>::empty());
    }
    while i < to
        invariant
            first <= i <= to,
            to <= v@.len(),
            from <= first < to,
            digits == v@.subrange(first as int, to as int),
            word == v@.subrange(from as int, to as int),
            digits == without_plus(word),
            forall|j: int| 0 <= j < i - first ==> is_digit(#[trigger] digits[j]),
            acc == digits_value(digits.take(i - first)),
            acc <= 255,
        decreases to - i,
    {
        let c = v[i];
        proof {
            assert(digits[i - first] == c);
        }
        if !('0' <= c && c <= '9') {
            proof {
                assert(!is_digit(digits[i - first]));
                assert(parse_u8(word) == None::<u8>);
            }
            return None;
        }
        let d: u32 = c as u32 - 48;
        let ghost more = digits.take(i + 1 - first);
        proof {
            assert(more.drop_last() =~= digits.take(i - first));
            assert(more.last() == c);
        }
        acc = acc * 10 + d;
        if acc > 255 {
            proof {
                if all_digits(digits) {
                    lemma_digits_value_prefix(digits, i + 1 - first);
                    assert(digits_value(more) == acc);
                    assert(digits_value(digits) > 255);
                }
                assert(parse_u8(word) == None::<u8>);
            }
            return None;
        }
        i += 1;
    }
    proof {
        assert(digits.take(to - first) =~= digits);
    }
    Some(acc as u8)
}

/// The angle that the response reports, if it reports one.
pub fn read_angle(response: &str) -> (r: Option<u8>)
    ensures
        r == reported_angle(response@),
{
    let v = chars_of(response);
    let mut from: usize = 0;
    let mut k: usize = 0;
    proof {
        assert(v@.skip(0) =~= v@);
    }
    while k < 3
        invariant
            k <= 2,
            from <= v@.len(),
            v@ == response@,
            word(v@, 2) == word(v@.skip(from as int), (2 - k) as nat),
        decreases 3 - k,
    {
        let ghost s = v@.skip(from as int);
        let start = run_end(&v, from, true);
        let end = run_end(&v, start, false);
        proof {
            assert(s.skip(start - from) =~= v@.skip(start as int));
            assert(v@.skip(start as int).skip(end - start) =~= v@.skip(end as int));
            assert(v@.skip(start as int).take(end - start) =~= v@.subrange(
                start as int,
                end as int,
            ));
            assert(s.skip(run_len(s, true) as int) == v@.skip(start as int));
            assert(run_len(v@.skip(start as int), false) == end - start);
            if end > start && k < 2 {
                assert(word(s, (2 - k) as nat) == word(
                    v@.skip(end as int),
                    (2 - k - 1) as nat,
                ));
            }
        }
        if end == start {
            return None;
        }
        if k == 2 {
            return parse_u8_range(&v, start, end);
        }
        from = end;
        k += 1;
    }
    None
}

/// Judges the response to a command: acknowledged, or rejected with the raw
/// response.
pub fn check_ack(op: WriteOp, response: &str) -> (r: Result<(), ServoError>)
    ensures
        outcome(r) == if is_ack(response@) {
            Ok::<(), Failure>(())
        } else {
            Err(Failure::Rejected(op, response@))
        },
{
    if is_ok_response(response) {
        Ok(())
    } else {
        Err(ServoError::Rejected(op, String::from_str(response)))
    }
}

/// Judges the response to a query: the angle it reports, or a parse failure
/// with the raw response.
pub fn parse_angle_response(response: &str) -> (r: Result<u8, ServoError>)
    ensures
        outcome(r) == match reported_angle(response@) {
            Some(angle) => Ok::<u8, Failure>(angle),
            None => Err(Failure::Unparsable(response@)),
        },
{
    match read_angle(response) {
        Some(angle) => Ok(angle),
        None => Err(ServoError::Unparsable(String::from_str(response))),
    }
}

} // verus!
