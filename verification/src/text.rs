//! Text handling shared by the rest of the library: decimal notation, trimming
//! and case-insensitive comparison, each with its mathematical meaning.

use vstd::prelude::*;

verus! {

/// `String::push`: the character is added at the end of the text.
#[verifier::external_body]
pub(crate) fn push_char(text: &mut String, c: char)
    ensures
        final(text)@ == old(text)@.push(c),
{
    text.push(c)
}

/// The characters of a text, in order.
pub fn chars_of(text: &str) -> (out: Vec<char>)
    ensures
        out@ == text@,
{
    let mut out: Vec<char> = Vec::new();
    for c in it: text.chars()
        invariant
            it.seq() == text@,
            out@ == it.seq().take(it.index() as int),
    {
        out.push(c);
    }
    out
}

/// The text made of the characters `chars[from..to]`.
pub fn text_of(chars: &Vec<char>, from: usize, to: usize) -> (out: String)
    requires
        from <= to <= chars@.len(),
    ensures
        out@ == chars@.subrange(from as int, to as int),
{
    let mut out = String::new();
    let mut i: usize = from;
    while i < to
        invariant
            from <= i <= to <= chars@.len(),
            out@ == chars@.subrange(from as int, i as int),
        decreases to - i,
    {
        push_char(&mut out, chars[i]);
        i = i + 1;
    }
    out
}

// ---------------------------------------------------------------------------
// Decimal notation
// ---------------------------------------------------------------------------

/// The character that writes the digit `d`.
pub open spec fn digit_char(d: nat) -> char {
    if d == 0 {
        '0'
    } else if d == 1 {
        '1'
    } else if d == 2 {
        '2'
    } else if d == 3 {
        '3'
    } else if d == 4 {
        '4'
    } else if d == 5 {
        '5'
    } else if d == 6 {
        '6'
    } else if d == 7 {
        '7'
    } else if d == 8 {
        '8'
    } else {
        '9'
    }
}

/// Whether `c` is one of the ten ASCII digits.
pub open spec fn is_digit(c: char) -> bool {
    '0' <= c && c <= '9'
}

/// The number that the digit `c` stands for.
pub open spec fn digit_value(c: char) -> nat
    recommends
        is_digit(c),
{
    (c as u32 - '0' as u32) as nat
}

/// The decimal notation of `n`, without sign or leading zeros.
pub open spec fn decimal_digits(n: nat) -> Seq<char>
    decreases n,
{
    if n < 10 {
        seq![digit_char(n)]
    } else {
        decimal_digits(n / 10).push(digit_char(n % 10))
    }
}

/// Whether every character of `s` is a digit.
pub open spec fn all_digits(s: Seq<char>) -> bool {
    forall|i: int| 0 <= i < s.len() ==> is_digit(#[trigger] s[i])
}

/// The number that a run of digits writes, the last digit counting least.
pub open spec fn digits_value(s: Seq<char>) -> nat
    decreases s.len(),
{
    if s.len() == 0 {
        0
    } else {
        digits_value(s.drop_last()) * 10 + digit_value(s.last())
    }
}

/// What a run of digits reads as: its number, if there is at least one digit,
/// nothing but digits, and the number does not exceed `limit`.
pub open spec fn unsigned_of(s: Seq<char>, limit: nat) -> Option<nat> {
    if s.len() > 0 && all_digits(s) && digits_value(s) <= limit {
        Some(digits_value(s))
    } else {
        None
    }
}

/// What a text reads as where a `+` may come before the digits.
pub open spec fn plus_unsigned_of(s: Seq<char>, limit: nat) -> Option<nat> {
    if s.len() > 0 && s[0] == '+' {
        unsigned_of(s.skip(1), limit)
    } else {
        unsigned_of(s, limit)
    }
}

/// What a text reads as where a `-` may come before the digits.
pub open spec fn signed_of(s: Seq<char>, most: nat, least: nat) -> Option<int> {
    if s.len() > 0 && s[0] == '-' {
        match unsigned_of(s.skip(1), least) {
            Some(n) => Some(-(n as int)),
            None => None,
        }
    } else {
        match unsigned_of(s, most) {
            Some(n) => Some(n as int),
            None => None,
        }
    }
}

/// The digit character for a number below ten.
pub fn digit_of(d: u8) -> (c: char)
    requires
        d < 10,
    ensures
        c == digit_char(d as nat),
        is_digit(c),
        digit_value(c) == d,
{
    (48u8 + d) as char
}

/// Appends the decimal notation of `n` to `out`.
pub fn append_decimal(out: &mut String, n: u128)
    ensures
        final(out)@ == old(out)@ + decimal_digits(n as nat),
    decreases n,
{
    if n >= 10 {
        append_decimal(out, n / 10);
    }
    let d: u8 = (n % 10) as u8;
    push_char(out, digit_of(d));
    proof {
        if n >= 10 {
            assert(old(out)@ + decimal_digits(n as nat) =~= (old(out)@ + decimal_digits(
                (n / 10) as nat,
            )).push(digit_char((n % 10) as nat)));
        } else {
            assert(old(out)@ + decimal_digits(n as nat) =~= old(out)@.push(digit_char(n as nat)));
        }
    }
}

/// The decimal notation of `n`.
pub fn decimal_text(n: u128) -> (out: String)
    ensures
        out@ == decimal_digits(n as nat),
{
    let mut out = String::new();
    append_decimal(&mut out, n);
    assert(Seq::<char>::empty() + decimal_digits(n as nat) =~= decimal_digits(n as nat));
    out
}

/// A run of digits that is continued writes at least what it wrote before.
pub proof fn lemma_digits_value_grows(s: Seq<char>, k: int)
    requires
        0 <= k <= s.len(),
    ensures
        digits_value(s.take(k)) <= digits_value(s),
    decreases s.len() - k,
{
    if k < s.len() {
        lemma_digits_value_grows(s, k + 1);
        assert(s.take(k + 1).drop_last() =~= s.take(k));
    } else {
        assert(s.take(k) =~= s);
    }
}

/// Decimal notation consists of digits and reads back as the number written.
pub proof fn lemma_decimal_round_trip(n: nat)
    ensures
        decimal_digits(n).len() > 0,
        all_digits(decimal_digits(n)),
        digits_value(decimal_digits(n)) == n,
    decreases n,
{
    if n < 10 {
        let s = decimal_digits(n);
        assert(s.drop_last() =~= Seq::<char>::empty());
        assert(digits_value(s.drop_last()) == 0);
        assert(s.last() == digit_char(n));
    } else {
        lemma_decimal_round_trip(n / 10);
        let s = decimal_digits(n);
        assert(s.drop_last() =~= decimal_digits(n / 10));
        assert(s.last() == digit_char(n % 10));
        assert forall|i: int| 0 <= i < s.len() implies is_digit(#[trigger] s[i]) by {
            if i < s.len() - 1 {
                assert(s[i] == decimal_digits(n / 10)[i]);
            }
        }
    }
}

/// Reads `chars[from..]` as a run of digits that writes a number up to `limit`.
pub fn parse_digits(chars: &Vec<char>, from: usize, limit: u128) -> (r: Option<u128>)
    requires
        from <= chars@.len(),
    ensures
        match r {
            Some(n) => unsigned_of(chars@.skip(from as int), limit as nat) == Some(n as nat),
            None => unsigned_of(chars@.skip(from as int), limit as nat) is None,
        },
{
    let n: usize = chars.len();
    if from >= n {
        return None;
    }
    let ghost s = chars@.skip(from as int);
    let mut acc: u128 = 0;
    let mut i: usize = from;
    while i < n
        invariant
            from <= i <= n,
            n == chars@.len(),
            s == chars@.skip(from as int),
            all_digits(s.take(i - from)),
            acc == digits_value(s.take(i - from)),
            acc <= limit,
        decreases n - i,
    {
        let c: char = chars[i];
        assert(s[i - from] == c);
        if c < '0' || c > '9' {
            assert(!is_digit(s[i - from]));
            return None;
        }
        let d: u128 = (c as u32 - '0' as u32) as u128;
        proof {
            assert(s.take(i - from + 1).drop_last() =~= s.take(i - from));
            assert(s.take(i - from + 1).last() == c);
            assert(digits_value(s.take(i - from + 1)) == acc * 10 + d);
            lemma_digits_value_grows(s, i - from + 1);
        }
        if limit < d || acc > (limit - d) / 10 {
            assert(acc * 10 + d > limit);
            return None;
        }
        acc = acc * 10 + d;
        proof {
            assert forall|j: int| 0 <= j < s.take(i - from + 1).len() implies is_digit(
                #[trigger] s.take(i - from + 1)[j],
            ) by {
                if j < i - from {
                    assert(s.take(i - from)[j] == s[j]);
                }
            }
        }
        i = i + 1;
    }
    assert(s.take(i - from) =~= s);
    Some(acc)
}

/// Reads a text as an unsigned number up to `limit`, as `str::parse` reads the
/// unsigned integer types: a `+` may come first, then only digits.
pub fn parse_unsigned(text: &str, limit: u128) -> (r: Option<u128>)
    ensures
        match r {
            Some(n) => plus_unsigned_of(text@, limit as nat) == Some(n as nat),
            None => plus_unsigned_of(text@, limit as nat) is None,
        },
{
    let chars = chars_of(text);
    if chars.len() > 0 && chars[0] == '+' {
        parse_digits(&chars, 1, limit)
    } else {
        assert(chars@.skip(0) =~= chars@);
        parse_digits(&chars, 0, limit)
    }
}

// ---------------------------------------------------------------------------
// Trimming
// ---------------------------------------------------------------------------

/// `s` without the run of `c` at its start.
pub open spec fn trim_start(s: Seq<char>, c: char) -> Seq<char>
    decreases s.len(),
{
    if s.len() > 0 && s[0] == c {
        trim_start(s.skip(1), c)
    } else {
        s
    }
}

/// `s` without the run of `c` at its end.
pub open spec fn trim_end(s: Seq<char>, c: char) -> Seq<char>
    decreases s.len(),
{
    if s.len() > 0 && s.last() == c {
        trim_end(s.drop_last(), c)
    } else {
        s
    }
}

/// `s` without the runs of `c` at its start and at its end.
pub open spec fn trimmed(s: Seq<char>, c: char) -> Seq<char> {
    trim_end(trim_start(s, c), c)
}

/// A text that does not begin with `c` has no run of `c` at its start.
pub proof fn lemma_trim_start_keeps(s: Seq<char>, c: char)
    requires
        s.len() == 0 || s[0] != c,
    ensures
        trim_start(s, c) == s,
{
}

/// A run of `c` after a text that does not end with `c` is what is left out
/// at the end.
pub proof fn lemma_trim_end_drops_run(s: Seq<char>, c: char, n: nat)
    requires
        s.len() == 0 || s.last() != c,
    ensures
        trim_end(s + Seq::new(n, |i: int| c), c) == s,
    decreases n,
{
    let run = Seq::new(n, |i: int| c);
    if n == 0 {
        assert(s + run =~= s);
    } else {
        let shorter = Seq::new((n - 1) as nat, |i: int| c);
        assert((s + run).last() == c);
        assert((s + run).drop_last() =~= s + shorter);
        lemma_trim_end_drops_run(s, c, (n - 1) as nat);
    }
}

/// The text without the runs of `c` at its start and at its end.
pub fn trim_matches(text: &str, c: char) -> (out: String)
    ensures
        out@ == trimmed(text@, c),
{
    let chars = chars_of(text);
    let n: usize = chars.len();
    let mut a: usize = 0;
    assert(chars@.skip(0) =~= chars@);
    while a < n && chars[a] == c
        invariant
            a <= n,
            n == chars@.len(),
            trim_start(chars@, c) == trim_start(chars@.skip(a as int), c),
        decreases n - a,
    {
        proof {
            assert(chars@.skip(a as int)[0] == chars@[a as int]);
            assert(chars@.skip(a as int).skip(1) =~= chars@.skip(a + 1));
        }
        a = a + 1;
    }
    proof {
        if a < n {
            assert(chars@.skip(a as int)[0] == chars@[a as int]);
        }
        assert(chars@.skip(a as int) =~= chars@.subrange(a as int, n as int));
    }
    let mut b: usize = n;
    while b > a && chars[b - 1] == c
        invariant
            a <= b <= n,
            n == chars@.len(),
            trimmed(chars@, c) == trim_end(chars@.subrange(a as int, b as int), c),
        decreases b,
    {
        proof {
            let t = chars@.subrange(a as int, b as int);
            assert(t.last() == chars@[b - 1]);
            assert(t.drop_last() =~= chars@.subrange(a as int, b - 1));
        }
        b = b - 1;
    }
    proof {
        let t = chars@.subrange(a as int, b as int);
        if b > a {
            assert(t.last() == chars@[b - 1]);
        }
    }
    text_of(&chars, a, b)
}

// ---------------------------------------------------------------------------
// Comparison without regard to ASCII case
// ---------------------------------------------------------------------------

/// The lower-case form of an ASCII capital; any other character unchanged.
pub open spec fn ascii_lower(c: char) -> char {
    if 'A' <= c && c <= 'Z' {
        ((c as u32 + 32) as u8) as char
    } else {
        c
    }
}

/// Whether two texts are equal once ASCII capitals are read as lower case.
pub open spec fn same_ignoring_ascii_case(a: Seq<char>, b: Seq<char>) -> bool {
    &&& a.len() == b.len()
    &&& forall|i: int| 0 <= i < a.len() ==> ascii_lower(#[trigger] a[i]) == ascii_lower(b[i])
}

/// The lower-case form of an ASCII capital; any other character unchanged.
pub fn to_ascii_lower(c: char) -> (r: char)
    ensures
        r == ascii_lower(c),
{
    if 'A' <= c && c <= 'Z' {
        ((c as u32 + 32) as u8) as char
    } else {
        c
    }
}

/// Whether two texts are equal once ASCII capitals are read as lower case.
pub fn eq_ignore_ascii_case(a: &str, b: &str) -> (r: bool)
    ensures
        r == same_ignoring_ascii_case(a@, b@),
{
    let x = chars_of(a);
    let y = chars_of(b);
    if x.len() != y.len() {
        return false;
    }
    let n: usize = x.len();
    let mut i: usize = 0;
    while i < n
        invariant
            i <= n,
            n == x@.len(),
            n == y@.len(),
            x@ == a@,
            y@ == b@,
            forall|j: int| 0 <= j < i ==> ascii_lower(#[trigger] x@[j]) == ascii_lower(y@[j]),
        decreases n - i,
    {
        if to_ascii_lower(x[i]) != to_ascii_lower(y[i]) {
            assert(ascii_lower(a@[i as int]) != ascii_lower(b@[i as int]));
            return false;
        }
        i = i + 1;
    }
    true
}

} // verus!
