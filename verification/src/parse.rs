//! Reading a field out of line-oriented text: the first line with a given
//! prefix, the second word of a line, and a decimal number.

use crate::text::{
    copy_range, matches_at, occurs_at, run_len, scan_run, starts_with_text, CharClass,
};
use vstd::prelude::*;

verus! {

/// The first line of `text` that begins with `prefix`, if there is one.
/// Lines end at a line feed or at the end of the text; a carriage return
/// before the line feed stays with its line.
pub open spec fn find_line(text: Seq<char>, prefix: Seq<char>) -> Option<Seq<char>>
    decreases text.len(),
{
    let end = run_len(text, CharClass::LineBody) as int;
    if text.len() == 0 {
        None
    } else if starts_with_text(text.take(end), prefix) {
        Some(text.take(end))
    } else if end >= text.len() {
        None
    } else {
        find_line(text.skip(end + 1), prefix)
    }
}

/// The second of the words of `line`, if it has two. Words are the runs of
/// characters between white space.
pub open spec fn second_word(line: Seq<char>) -> Option<Seq<char>> {
    let first = line.skip(run_len(line, CharClass::Space) as int);
    let gap = first.skip(run_len(first, CharClass::Word) as int);
    let second = gap.skip(run_len(gap, CharClass::Space) as int);
    if second.len() == 0 {
        None
    } else {
        Some(second.take(run_len(second, CharClass::Word) as int))
    }
}

/// Whether `c` is a decimal digit.
pub open spec fn is_digit(c: char) -> bool {
    '0' <= c <= '9'
}

/// Whether `s` is made of decimal digits only.
pub open spec fn all_digits(s: Seq<char>) -> bool {
    forall|i: int| 0 <= i < s.len() ==> is_digit(#[trigger] s[i])
}

/// The number that a run of decimal digits writes.
pub open spec fn decimal_value(digits: Seq<char>) -> nat
    decreases digits.len(),
{
    if digits.len() == 0 {
        0
    } else {
        (10 * decimal_value(digits.drop_last()) + (digits.last() as u32 - '0' as u32)) as nat
    }
}

/// The number that `s` writes in decimal: digits only, at least one, with
/// at most a plus sign before them, and not more than a `usize` holds.
pub open spec fn parsed_usize(s: Seq<char>) -> Option<usize> {
    let digits = if s.len() > 0 && s[0] == '+' {
        s.drop_first()
    } else {
        s
    };
    if digits.len() > 0 && all_digits(digits) && decimal_value(digits) <= usize::MAX {
        Some(decimal_value(digits) as usize)
    } else {
        None
    }
}

/// A run of digits writes at least what each of its prefixes writes.
pub proof fn lemma_decimal_value_grows(digits: Seq<char>, k: int)
    requires
        all_digits(digits),
        0 <= k <= digits.len(),
    ensures
        decimal_value(digits.take(k)) <= decimal_value(digits),
    decreases digits.len() - k,
{
    if k < digits.len() {
        lemma_decimal_value_grows(digits, k + 1);
        assert(digits.take(k + 1).drop_last() =~= digits.take(k));
        assert(is_digit(digits[k]));
    } else {
        assert(digits.take(k) =~= digits);
    }
}

/// Finds the first line of `text` that begins with `prefix` and returns its
/// characters.
pub fn first_line_with(text: &Vec<char>, prefix: &Vec<char>) -> (line: Option<Vec<char>>)
    ensures
        match line {
            Some(found) => find_line(text@, prefix@) == Some(found@),
            None => find_line(text@, prefix@) is None,
        },
{
    let mut pos: usize = 0;
    assert(text@.skip(0) =~= text@);
    while pos < text.len()
        invariant
            pos <= text.len(),
            find_line(text@, prefix@) == find_line(text@.skip(pos as int), prefix@),
        decreases text.len() - pos,
    {
        let end = scan_run(text, pos, CharClass::LineBody);
        let ghost rest = text@.skip(pos as int);
        let ghost body = rest.take(end - pos);
        proof {
            assert(body =~= text@.subrange(pos as int, end as int));
            if prefix.len() <= end - pos {
                assert(body.subrange(0, prefix.len() as int) =~= text@.subrange(
                    pos as int,
                    pos + prefix.len(),
                ));
            }
            assert(starts_with_text(body, prefix@) == (prefix.len() <= end - pos && occurs_at(
                text@,
                prefix@,
                pos as int,
            )));
        }
        if prefix.len() <= end - pos && matches_at(text, prefix, pos) {
            return Some(copy_range(text, pos, end));
        }
        if end == text.len() {
            return None;
        }
        proof {
            assert(rest.skip(end - pos + 1) =~= text@.skip(end + 1));
        }
        pos = end + 1;
    }
    None
}

/// Picks the second word out of `line`.
pub fn second_word_of(line: &Vec<char>) -> (word: Option<Vec<char>>)
    ensures
        match word {
            Some(w) => second_word(line@) == Some(w@),
            None => second_word(line@) is None,
        },
{
    let first = scan_run(line, 0, CharClass::Space);
    let gap = scan_run(line, first, CharClass::Word);
    let second = scan_run(line, gap, CharClass::Space);
    let end = scan_run(line, second, CharClass::Word);
    proof {
        assert(line@.skip(0) =~= line@);
        assert(line@.skip(first as int).skip(gap - first) =~= line@.skip(gap as int));
        assert(line@.skip(gap as int).skip(second - gap) =~= line@.skip(second as int));
        assert(line@.skip(second as int).take(end - second) =~= line@.subrange(
            second as int,
            end as int,
        ));
    }
    if second == line.len() {
        None
    } else {
        Some(copy_range(line, second, end))
    }
}

/// Reads a decimal number that fits a `usize`.
pub fn parse_usize(s: &Vec<char>) -> (value: Option<usize>)
    ensures
        value == parsed_usize(s@),
{
    let start: usize = if s.len() > 0 && s[0] == '+' {
        1
    } else {
        0
    };
    let ghost digits = if s.len() > 0 && s@[0] == '+' {
        s@.drop_first()
    } else {
        s@
    };
    assert(digits =~= s@.skip(start as int));
    if start == s.len() {
        return None;
    }
    let mut value: usize = 0;
    let mut k: usize = start;
    while k < s.len()
        invariant
            start <= k <= s.len(),
            digits == s@.skip(start as int),
            digits == if s.len() > 0 && s@[0] == '+' {
                s@.drop_first()
            } else {
                s@
            },
            all_digits(digits.take(k - start)),
            value == decimal_value(digits.take(k - start)),
        decreases s.len() - k,
    {
        let c = s[k];
        let ghost upto = digits.take(k - start + 1);
        proof {
            assert(upto.drop_last() =~= digits.take(k - start));
            assert(upto.last() == c);
        }
        if c < '0' || c > '9' {
            assert(!is_digit(digits[k - start]));
            return None;
        }
        let d: usize = (c as u32 - '0' as u32) as usize;
        let next = match value.checked_mul(10) {
            Some(tens) => tens.checked_add(d),
            None => None,
        };
        match next {
            Some(n) => {
                value = n;
            },
            None => {
                proof {
                    assert(decimal_value(upto) > usize::MAX);
                    if all_digits(digits) {
                        lemma_decimal_value_grows(digits, k - start + 1);
                    }
                }
                return None;
            },
        }
        assert forall|i: int| 0 <= i < upto.len() implies is_digit(#[trigger] upto[i]) by {
            if i < k - start {
                assert(upto[i] == digits.take(k - start)[i]);
            }
        }
        k = k + 1;
    }
    assert(digits.take(k - start) =~= digits);
    Some(value)
}

} // verus!
