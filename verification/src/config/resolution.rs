//! Screen resolutions as text: `WIDTHxHEIGHT`, two positive 16-bit decimal
//! numbers around a literal `x`.

use vstd::prelude::*;
use vstd::string::*;

verus! {

/// Whether a character is a decimal digit.
pub open spec fn is_digit(c: char) -> bool {
    '0' <= c && c <= '9'
}

/// The value of a decimal digit.
pub open spec fn digit_value(c: char) -> int {
    c as int - '0' as int
}

/// The character of a digit value below ten.
pub open spec fn digit_char(d: int) -> char {
    if d == 0 {
        '0'
    } else if d == 1 {
        '1'
    } else if d == 2 {
        '2'
    } else if d == 3 {
        '3'
    } else if d == 4 {
        '4'
    } else if d == 5 {
        '5'
    } else if d == 6 {
        '6'
    } else if d == 7 {
        '7'
    } else if d == 8 {
        '8'
    } else {
        '9'
    }
}

/// Whether every character of a text is a decimal digit.
pub open spec fn all_digits(s: Seq<char>) -> bool {
    forall|i: int| 0 <= i < s.len() ==> is_digit(#[trigger] s[i])
}

/// The number that a run of digits denotes, most significant digit first.
pub open spec fn digits_value(s: Seq<char>) -> int
    decreases s.len(),
{
    if s.len() == 0 {
        0
    } else {
        digits_value(s.drop_last()) * 10 + digit_value(s.last())
    }
}

/// A text without the `+` sign that may lead it.
pub open spec fn unsigned_part(s: Seq<char>) -> Seq<char> {
    if s.len() > 0 && s[0] == '+' {
        s.skip(1)
    } else {
        s
    }
}

/// The 16-bit number that a text denotes: an optional `+`, then one or more
/// decimal digits whose value is at most 65535. Any other text denotes none.
pub open spec fn numeral_value(s: Seq<char>) -> Option<u16> {
    let body = unsigned_part(s);
    if body.len() > 0 && all_digits(body) && digits_value(body) <= 65535 {
        Some(digits_value(body) as u16)
    } else {
        None
    }
}

/// The shortest decimal text of a number: no sign and no leading zero.
pub open spec fn decimal(n: nat) -> Seq<char>
    decreases n,
{
    if n < 10 {
        seq![digit_char(n as int)]
    } else {
        decimal(n / 10).push(digit_char((n % 10) as int))
    }
}

/// The first position at or after `from` that holds `c`, or the text's length
/// where there is none.
pub open spec fn find_char(s: Seq<char>, c: char, from: int) -> int
    decreases s.len() - from,
{
    if from < 0 || from >= s.len() {
        s.len() as int
    } else if s[from] == c {
        from
    } else {
        find_char(s, c, from + 1)
    }
}

/// The resolution that a text denotes: the text up to its first `x` and the
/// text after it both denote a 16-bit number, and neither number is zero.
pub open spec fn resolution_of(s: Seq<char>) -> Option<(u16, u16)> {
    let i = find_char(s, 'x', 0);
    if i >= s.len() {
        None
    } else {
        match (numeral_value(s.subrange(0, i)), numeral_value(s.subrange(i + 1, s.len() as int))) {
            (Some(w), Some(h)) => if w > 0 && h > 0 {
                Some((w, h))
            } else {
                None
            },
            _ => None,
        }
    }
}

/// The text of a resolution: the two numbers in shortest decimal form around
/// an `x`.
pub open spec fn resolution_text(w: u16, h: u16) -> Seq<char> {
    decimal(w as nat) + seq!['x'] + decimal(h as nat)
}

/// The text that a malformed resolution is rejected with.
pub open spec fn invalid_resolution_message() -> Seq<char> {
    "Incorrect resolution format, should be WIDTHxHEIGHT."@
}

/// The value of a run of digits is at least the value of each of its
/// prefixes.
proof fn lemma_prefix_value(s: Seq<char>, k: int)
    requires
        all_digits(s),
        0 <= k <= s.len(),
    ensures
        0 <= digits_value(s.subrange(0, k)) <= digits_value(s),
    decreases s.len(),
{
    if s.len() == 0 {
    } else if k == s.len() {
        assert(s.subrange(0, k) =~= s);
        lemma_prefix_value(s.drop_last(), k - 1);
    } else {
        lemma_prefix_value(s.drop_last(), k);
        assert(s.drop_last().subrange(0, k) =~= s.subrange(0, k));
    }
}

/// Where `c` stands at `at` and nowhere between `from` and `at`, the search
/// from `from` ends at `at`.
proof fn lemma_find_char_at(s: Seq<char>, c: char, from: int, at: int)
    requires
        0 <= from <= at < s.len(),
        s[at] == c,
        forall|j: int| from <= j < at ==> s[j] != c,
    ensures
        find_char(s, c, from) == at,
    decreases at - from,
{
    if from < at {
        lemma_find_char_at(s, c, from + 1, at);
    }
}

/// The shortest decimal text of a number is a non-empty run of digits that
/// denotes the number, and starts with `0` only for zero itself.
pub proof fn lemma_decimal_is_numeral(n: nat)
    ensures
        decimal(n).len() > 0,
        all_digits(decimal(n)),
        digits_value(decimal(n)) == n,
        n > 0 ==> decimal(n)[0] != '0',
    decreases n,
{
    if n < 10 {
        let t = decimal(n);
        assert(digits_value(t.drop_last()) == 0);
    } else {
        lemma_decimal_is_numeral(n / 10);
        let t = decimal(n);
        assert(t.drop_last() =~= decimal(n / 10));
        assert forall|i: int| 0 <= i < t.len() implies is_digit(#[trigger] t[i]) by {}
    }
}

/// Whether a text is a run of digits in shortest form: not empty, and with a
/// leading `0` only where it is the single digit `0`.
pub open spec fn is_shortest_numeral(s: Seq<char>) -> bool {
    s.len() > 0 && all_digits(s) && (s.len() == 1 || s[0] != '0')
}

/// A run of digits in shortest form is the decimal text of its own value.
pub proof fn lemma_shortest_numeral_is_decimal(s: Seq<char>)
    requires
        is_shortest_numeral(s),
    ensures
        digits_value(s) >= 0,
        s.len() > 1 ==> digits_value(s) >= 10,
        decimal(digits_value(s) as nat) == s,
    decreases s.len(),
{
    if s.len() == 1 {
        assert(digits_value(s.drop_last()) == 0);
    } else {
        let front = s.drop_last();
        assert forall|i: int| 0 <= i < front.len() implies is_digit(#[trigger] front[i]) by {}
        lemma_shortest_numeral_is_decimal(front);
        if front.len() == 1 {
            assert(digits_value(front.drop_last()) == 0);
        }
    }
}

/// Formatting a resolution and reading the text back gives the resolution
/// again, for every pair of positive 16-bit numbers.
pub proof fn lemma_parse_of_formatted(w: u16, h: u16)
    requires
        w > 0,
        h > 0,
    ensures
        resolution_of(resolution_text(w, h)) == Some((w, h)),
{
    let a = decimal(w as nat);
    let b = decimal(h as nat);
    let s = resolution_text(w, h);
    lemma_decimal_is_numeral(w as nat);
    lemma_decimal_is_numeral(h as nat);
    assert forall|j: int| 0 <= j < a.len() implies s[j] != 'x' by {}
    lemma_find_char_at(s, 'x', 0, a.len() as int);
    assert(s.subrange(0, a.len() as int) =~= a);
    assert(s.subrange(a.len() as int + 1, s.len() as int) =~= b);
}

/// Whether a text is a resolution in the form that formatting produces: two
/// runs of digits in shortest form around the one `x`.
pub open spec fn is_formatted_resolution(s: Seq<char>) -> bool {
    let i = find_char(s, 'x', 0);
    &&& i < s.len()
    &&& is_shortest_numeral(s.subrange(0, i))
    &&& is_shortest_numeral(s.subrange(i + 1, s.len() as int))
}

/// Reading a resolution from a text in formatted form and formatting the
/// result gives the text again.
pub proof fn lemma_formatted_of_parsed(s: Seq<char>)
    requires
        is_formatted_resolution(s),
        resolution_of(s) is Some,
    ensures
        resolution_text(resolution_of(s)->Some_0.0, resolution_of(s)->Some_0.1) == s,
{
    let i = find_char(s, 'x', 0);
    let a = s.subrange(0, i);
    let b = s.subrange(i + 1, s.len() as int);
    lemma_find_char_in_range(s, 'x', 0);
    lemma_shortest_numeral_is_decimal(a);
    lemma_shortest_numeral_is_decimal(b);
}

/// The search ends at or after its start, and where it ends inside the text
/// it ends on the character searched for.
proof fn lemma_find_char_in_range(s: Seq<char>, c: char, from: int)
    requires
        0 <= from <= s.len(),
    ensures
        from <= find_char(s, c, from) <= s.len(),
        find_char(s, c, from) < s.len() ==> s[find_char(s, c, from)] == c,
    decreases s.len() - from,
{
    if from < s.len() && s[from] != c {
        lemma_find_char_in_range(s, c, from + 1);
    }
}

/// Reads the 16-bit number between two positions of a text.
fn parse_numeral(s: &str, from: usize, to: usize) -> (r: Option<u16>)
    requires
        from <= to <= s@.len(),
    ensures
        r == numeral_value(s@.subrange(from as int, to as int)),
{
    let ghost whole = s@.subrange(from as int, to as int);
    let mut start: usize = from;
    if start < to && s.get_char(start) == '+' {
        start = start + 1;
    }
    let ghost body = s@.subrange(start as int, to as int);
    assert(body =~= unsigned_part(whole));
    if start == to {
        return None;
    }
    let mut acc: u32 = 0;
    let mut k: usize = start;
    while k < to
        invariant
            from <= start <= k <= to <= s@.len(),
            body == s@.subrange(start as int, to as int),
            body == unsigned_part(s@.subrange(from as int, to as int)),
            body.len() > 0,
            acc as int == digits_value(body.subrange(0, k - start)),
            acc <= 65535,
            forall|j: int| 0 <= j < k - start ==> is_digit(#[trigger] body[j]),
        decreases to - k,
    {
        let c = s.get_char(k);
        if !('0' <= c && c <= '9') {
            assert(!is_digit(body[k - start]));
            return None;
        }
        let d: u32 = (c as u32) - ('0' as u32);
        let next: u32 = acc * 10 + d;
        proof {
            let longer = body.subrange(0, k - start + 1);
            assert(longer.drop_last() =~= body.subrange(0, k - start));
            if next > 65535 && all_digits(body) {
                lemma_prefix_value(body, k - start + 1);
            }
        }
        if next > 65535 {
            return None;
        }
        acc = next;
        k = k + 1;
    }
    assert(body.subrange(0, k - start) =~= body);
    Some(acc as u16)
}

/// Reads a resolution of the form `WIDTHxHEIGHT`.
///
/// The text is accepted exactly when [`resolution_of`] gives it a value: then
/// that value is returned. Every other text is rejected with the one fixed
/// message.
pub fn parse_resolution(resolution_str: &str) -> (r: Result<(u16, u16), String>)
    ensures
        match resolution_of(resolution_str@) {
            Some(p) => r == Ok::<(u16, u16), String>(p),
            None => r is Err && r->Err_0@ == invalid_resolution_message(),
        },
{
    let n: usize = resolution_str.unicode_len();
    let mut i: usize = 0;
    while i < n && resolution_str.get_char(i) != 'x'
        invariant
            i <= n == resolution_str@.len(),
            find_char(resolution_str@, 'x', 0) == find_char(resolution_str@, 'x', i as int),
        decreases n - i,
    {
        i = i + 1;
    }
    if i < n {
        let width = parse_numeral(resolution_str, 0, i);
        let height = parse_numeral(resolution_str, i + 1, n);
        match (width, height) {
            (Some(w), Some(h)) => {
                if w > 0 && h > 0 {
                    return Ok((w, h));
                }
            },
            _ => {},
        }
    }
    Err(String::from_str("Incorrect resolution format, should be WIDTHxHEIGHT."))
}

/// The character of a digit value below ten.
fn digit_to_char(d: u32) -> (c: char)
    requires
        d < 10,
    ensures
        c == digit_char(d as int),
{
    if d == 0 {
        '0'
    } else if d == 1 {
        '1'
    } else if d == 2 {
        '2'
    } else if d == 3 {
        '3'
    } else if d == 4 {
        '4'
    } else if d == 5 {
        '5'
    } else if d == 6 {
        '6'
    } else if d == 7 {
        '7'
    } else if d == 8 {
        '8'
    } else {
        '9'
    }
}

/// Appends the shortest decimal text of a number.
pub fn push_decimal(out: &mut String, n: u32)
    ensures
        final(out)@ == old(out)@ + decimal(n as nat),
    decreases n,
{
    if n >= 10 {
        push_decimal(out, n / 10);
    }
    out.push(digit_to_char(n % 10));
    assert(final(out)@ =~= old(out)@ + decimal(n as nat));
}

/// Writes a resolution as `WIDTHxHEIGHT`, each number in shortest decimal
/// form.
pub fn format_resolution(width: u16, height: u16) -> (r: String)
    ensures
        r@ == resolution_text(width, height),
{
    let mut out = String::new();
    push_decimal(&mut out, width as u32);
    out.push('x');
    push_decimal(&mut out, height as u32);
    out
}

} // verus!
