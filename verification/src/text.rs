//! Character-level helpers: reading a string's characters, writing and
//! reading decimal numbers, and comparing words without regard to ASCII case.

use vstd::prelude::*;
use vstd::string::*;

verus! {

/// `String::push` appends one character to the end of a string.
pub assume_specification[ String::push ](text: &mut String, ch: char)
    ensures
        final(text)@ == old(text)@.push(ch),
;

/// The characters of `s`, in order.
pub fn chars_of(s: &str) -> (chars: Vec<char>)
    ensures
        chars@ == s@,
{
    let mut chars: Vec<char> = Vec::new();
    for c in it: s.chars()
        invariant
            chars@ == it.seq().take(it.index()),
            it.seq() == s@,
    {
        chars.push(c);
    }
    chars
}

/// The character that writes the digit `d`.
pub open spec fn digit_char(d: nat) -> char {
    if d == 0 {
        '0'
    } else if d == 1 {
        '1'
    } else if d == 2 {
        '2'
    } else if d == 3 {
        '3'
    } else if d == 4 {
        '4'
    } else if d == 5 {
        '5'
    } else if d == 6 {
        '6'
    } else if d == 7 {
        '7'
    } else if d == 8 {
        '8'
    } else {
        '9'
    }
}

/// Whether `c` is one of the ten ASCII digits.
pub open spec fn is_digit(c: char) -> bool {
    '0' <= c <= '9'
}

/// The number that the digit `c` writes.
pub open spec fn digit_value(c: char) -> nat {
    (c as u32 - '0' as u32) as nat
}

/// `n` written in base ten, without leading zeros.
pub open spec fn decimal(n: nat) -> Seq<char>
    decreases n,
{
    if n < 10 {
        seq![digit_char(n)]
    } else {
        decimal(n / 10).push(digit_char(n % 10))
    }
}

/// The number that a run of digits writes in base ten; 0 for the empty run.
pub open spec fn digits_value(s: Seq<char>) -> nat
    decreases s.len(),
{
    if s.len() == 0 {
        0
    } else {
        digits_value(s.drop_last()) * 10 + digit_value(s.last())
    }
}

/// Whether every character of `s` is an ASCII digit.
pub open spec fn all_digits(s: Seq<char>) -> bool {
    forall|i: int| 0 <= i < s.len() ==> is_digit(#[trigger] s[i])
}

/// The digits of an unsigned number's text: the text itself, or what follows
/// a single leading `+` that does not stand alone.
pub open spec fn unsigned_digits(s: Seq<char>) -> Seq<char> {
    if s.len() > 1 && s[0] == '+' {
        s.subrange(1, s.len() as int)
    } else {
        s
    }
}

/// What `s` reads as an unsigned 32-bit number: an optional `+`, then one or
/// more digits whose value fits. Anything else reads as nothing.
pub open spec fn parsed_u32(s: Seq<char>) -> Option<u32> {
    let digits = unsigned_digits(s);
    if digits.len() > 0 && all_digits(digits) && digits_value(digits) <= u32::MAX {
        Some(digits_value(digits) as u32)
    } else {
        None
    }
}

/// `c` with an ASCII capital letter replaced by its small letter.
pub open spec fn ascii_lower(c: char) -> char {
    if 'A' <= c <= 'Z' {
        ((c as u32) + 32) as char
    } else {
        c
    }
}

/// `s` with every ASCII capital letter replaced by its small letter.
pub open spec fn lowered(s: Seq<char>) -> Seq<char> {
    Seq::new(s.len(), |i: int| ascii_lower(s[i]))
}

fn digit(d: u32) -> (c: char)
    requires
        d < 10,
    ensures
        c == digit_char(d as nat),
{
    if d == 0 {
        '0'
    } else if d == 1 {
        '1'
    } else if d == 2 {
        '2'
    } else if d == 3 {
        '3'
    } else if d == 4 {
        '4'
    } else if d == 5 {
        '5'
    } else if d == 6 {
        '6'
    } else if d == 7 {
        '7'
    } else if d == 8 {
        '8'
    } else {
        '9'
    }
}

/// Appends `n` in base ten to `out`.
pub fn append_decimal(out: &mut String, n: u32)
    ensures
        final(out)@ == old(out)@ + decimal(n as nat),
    decreases n,
{
    if n < 10 {
        out.push(digit(n));
    } else {
        append_decimal(out, n / 10);
        out.push(digit(n % 10));
    }
}

/// A run of digits is worth at least as much as any run it starts with.
pub proof fn lemma_digits_value_grows(s: Seq<char>, k: int)
    requires
        0 <= k <= s.len(),
    ensures
        digits_value(s.take(k)) <= digits_value(s),
    decreases s.len(),
{
    if k == s.len() {
        assert(s.take(k) == s);
    } else {
        lemma_digits_value_grows(s.drop_last(), k);
        assert(s.drop_last().take(k) == s.take(k));
    }
}

/// Reads `chars[from..]` as an unsigned 32-bit number.
pub fn parse_u32(chars: &Vec<char>, from: usize) -> (number: Option<u32>)
    requires
        from <= chars.len(),
    ensures
        number == parsed_u32(chars@.subrange(from as int, chars.len() as int)),
{
    let len = chars.len();
    let ghost text = chars@.subrange(from as int, len as int);
    let start: usize = if len - from > 1 && chars[from] == '+' {
        from + 1
    } else {
        from
    };
    let ghost digits = unsigned_digits(text);
    assert(digits == chars@.subrange(start as int, len as int));
    if start == len {
        return None;
    }
    let mut value: u32 = 0;
    let mut i: usize = start;
    while i < len
        invariant
            from <= start <= i <= len == chars.len(),
            digits == chars@.subrange(start as int, len as int),
            digits == unsigned_digits(chars@.subrange(from as int, len as int)),
            all_digits(digits.take(i - start)),
            value == digits_value(digits.take(i - start)),
        decreases len - i,
    {
        let c = chars[i];
        let ghost before = digits.take(i - start);
        let ghost with_c = digits.take(i - start + 1);
        assert(with_c.drop_last() == before);
        assert(with_c.last() == c);
        if !('0' <= c && c <= '9') {
            assert(!is_digit(digits[i - start]));
            return None;
        }
        let d: u32 = c as u32 - '0' as u32;
        if value > (u32::MAX - d) / 10 {
            proof {
                lemma_digits_value_grows(digits, i - start + 1);
            }
            return None;
        }
        value = value * 10 + d;
        assert(all_digits(with_c)) by {
            assert forall|j: int| 0 <= j < with_c.len() implies is_digit(#[trigger] with_c[j]) by {
                if j < before.len() {
                    assert(with_c[j] == before[j]);
                }
            }
        }
        i += 1;
    }
    assert(digits.take(i - start) == digits);
    Some(value)
}

fn lowers_to(a: char, b: char) -> (same: bool)
    ensures
        same == (ascii_lower(a) == b),
{
    if 'A' <= a && a <= 'Z' {
        a as u32 + 32 == b as u32
    } else {
        a == b
    }
}

/// Whether `chars[..len]` spells `word` once its ASCII capitals are made small.
pub fn spells(chars: &Vec<char>, len: usize, word: &str) -> (same: bool)
    requires
        len <= chars.len(),
    ensures
        same == (lowered(chars@.take(len as int)) == word@),
{
    let letters = chars_of(word);
    let ghost token = chars@.take(len as int);
    if letters.len() != len {
        return false;
    }
    let mut i: usize = 0;
    while i < len
        invariant
            i <= len <= chars.len(),
            letters.len() == len,
            letters@ == word@,
            token == chars@.take(len as int),
            forall|j: int| 0 <= j < i ==> ascii_lower(token[j]) == #[trigger] letters[j],
        decreases len - i,
    {
        if !lowers_to(chars[i], letters[i]) {
            assert(lowered(token)[i as int] != word@[i as int]);
            return false;
        }
        i += 1;
    }
    assert(lowered(token) =~= word@);
    true
}

/// How many characters of `s` come before its first space; all of them where
/// it has none.
pub open spec fn token_len(s: Seq<char>) -> nat
    decreases s.len(),
{
    if s.len() == 0 || s[0] == ' ' {
        0
    } else {
        1 + token_len(s.drop_first())
    }
}

/// `token_len` finds the first space: no space comes before it, and it ends
/// at a space or at the end.
pub proof fn lemma_token_len(s: Seq<char>)
    ensures
        token_len(s) <= s.len(),
        forall|j: int| 0 <= j < token_len(s) ==> #[trigger] s[j] != ' ',
        token_len(s) < s.len() ==> s[token_len(s) as int] == ' ',
    decreases s.len(),
{
    if s.len() == 0 || s[0] == ' ' {
    } else {
        let rest = s.drop_first();
        lemma_token_len(rest);
        assert forall|j: int| 0 <= j < token_len(s) implies #[trigger] s[j] != ' ' by {
            if j > 0 {
                assert(s[j] == rest[j - 1]);
            }
        }
        if token_len(s) < s.len() {
            assert(s[token_len(s) as int] == rest[token_len(rest) as int]);
        }
    }
}

/// The index of the first space in `chars`, or their count where there is none.
pub fn token_end(chars: &Vec<char>) -> (end: usize)
    ensures
        end == token_len(chars@),
        end <= chars.len(),
{
    let mut i: usize = 0;
    assert(chars@.skip(0) == chars@);
    while i < chars.len() && chars[i] != ' '
        invariant
            i <= chars.len(),
            token_len(chars@) == i + token_len(chars@.skip(i as int)),
        decreases chars.len() - i,
    {
        assert(chars@.skip(i as int).drop_first() == chars@.skip(i + 1));
        i += 1;
    }
    i
}

/// A decimal numeral has at least one character, and all are digits.
pub proof fn lemma_decimal_digits(n: nat)
    ensures
        decimal(n).len() >= 1,
        all_digits(decimal(n)),
    decreases n,
{
    if n >= 10 {
        lemma_decimal_digits(n / 10);
        let numeral = decimal(n);
        assert forall|i: int| 0 <= i < numeral.len() implies is_digit(#[trigger] numeral[i]) by {
            if i < numeral.len() - 1 {
                assert(numeral[i] == decimal(n / 10)[i]);
            }
        }
    }
}

/// Different numbers have different decimal numerals.
pub proof fn lemma_decimal_injective(a: nat, b: nat)
    requires
        decimal(a) == decimal(b),
    ensures
        a == b,
    decreases a,
{
    lemma_decimal_digits(a / 10);
    lemma_decimal_digits(b / 10);
    if a >= 10 && b >= 10 {
        assert(decimal(a).last() == digit_char(a % 10));
        assert(decimal(b).last() == digit_char(b % 10));
        assert(decimal(a).drop_last() == decimal(a / 10));
        assert(decimal(b).drop_last() == decimal(b / 10));
        lemma_decimal_injective(a / 10, b / 10);
        assert(a % 10 == b % 10);
    } else if a < 10 && b < 10 {
        assert(decimal(a)[0] == digit_char(a));
        assert(decimal(b)[0] == digit_char(b));
    } else if a < 10 {
        assert(decimal(a).len() == 1);
        assert(decimal(b).len() == decimal(b / 10).len() + 1);
    } else {
        assert(decimal(b).len() == 1);
        assert(decimal(a).len() == decimal(a / 10).len() + 1);
    }
}

} // verus!
