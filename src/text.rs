//! Character-sequence helpers used to read and write the text formats.
use vstd::prelude::*;

verus! {

/// The character for a decimal digit.
pub open spec fn digit_char(d: nat) -> char {
    ((d % 10) + 48) as char
}

pub open spec fn is_digit(c: char) -> bool {
    '0' <= c && c <= '9'
}

/// Decimal digits of `n`, without leading zeros.
pub open spec fn decimal(n: nat) -> Seq<char>
    decreases n,
{
    if n < 10 {
        seq![digit_char(n)]
    } else {
        decimal(n / 10).push(digit_char(n % 10))
    }
}

/// Decimal digits of `n`, left-padded with zeros to at least `width` characters.
pub open spec fn padded(n: nat, width: nat) -> Seq<char> {
    let d = decimal(n);
    if d.len() >= width {
        d
    } else {
        Seq::new((width - d.len()) as nat, |i: int| '0') + d
    }
}

/// Value of a sequence of decimal digits.
pub open spec fn digits_value(s: Seq<char>) -> nat
    decreases s.len(),
{
    if s.len() == 0 {
        0
    } else {
        digits_value(s.drop_last()) * 10 + ((s.last() as nat) - 48) as nat
    }
}

pub open spec fn all_digits(s: Seq<char>) -> bool {
    forall|i: int| 0 <= i < s.len() ==> is_digit(#[trigger] s[i])
}

/// What `str::parse::<u16>` accepts: an optional `+`, then one or more digits,
/// whose value fits in 16 bits.
pub open spec fn unsigned_body(s: Seq<char>) -> Seq<char> {
    if s.len() > 0 && s[0] == '+' {
        s.drop_first()
    } else {
        s
    }
}

pub open spec fn parse_u16_spec(s: Seq<char>) -> Option<u16> {
    let body = unsigned_body(s);
    if body.len() > 0 && all_digits(body) && digits_value(body) < 65536 {
        Some(digits_value(body) as u16)
    } else {
        None
    }
}

/// Relies on `String::push`: the character is added at the end.
#[verifier::external_body]
pub(crate) fn push_char(s: &mut String, c: char)
    ensures
        final(s)@ == old(s)@.push(c),
{
    s.push(c)
}

/// A new string holding the characters of `s`.
pub fn owned(s: &str) -> (r: String)
    ensures
        r@ == s@,
{
    let mut r = String::new();
    r.append(s);
    r
}

/// Character-wise equality of two strings.
pub fn str_eq(a: &str, b: &str) -> (r: bool)
    ensures
        r == (a@ == b@),
{
    let n = a.unicode_len();
    if n != b.unicode_len() {
        return false;
    }
    let mut i: usize = 0;
    while i < n
        invariant
            n == a@.len(),
            n == b@.len(),
            0 <= i <= n,
            a@.subrange(0, i as int) == b@.subrange(0, i as int),
        decreases n - i,
    {
        if a.get_char(i) != b.get_char(i) {
            assert(a@[i as int] != b@[i as int]);
            return false;
        }
        assert(a@.subrange(0, i + 1) == a@.subrange(0, i as int).push(a@[i as int]));
        assert(b@.subrange(0, i + 1) == b@.subrange(0, i as int).push(b@[i as int]));
        i = i + 1;
    }
    assert(a@ == a@.subrange(0, n as int));
    assert(b@ == b@.subrange(0, n as int));
    true
}

/// Whether `s` begins with `p`.
pub fn starts_with(s: &str, p: &str) -> (r: bool)
    ensures
        r == (p@.len() <= s@.len() && s@.subrange(0, p@.len() as int) == p@),
{
    let n = p.unicode_len();
    if n > s.unicode_len() {
        return false;
    }
    let head = s.substring_char(0, n);
    str_eq(head, p)
}

/// Whether `s` ends with `p`.
pub fn ends_with(s: &str, p: &str) -> (r: bool)
    ensures
        r == (p@.len() <= s@.len() && s@.subrange(s@.len() - p@.len(), s@.len() as int) == p@),
{
    let n = p.unicode_len();
    let m = s.unicode_len();
    if n > m {
        return false;
    }
    let tail = s.substring_char(m - n, m);
    str_eq(tail, p)
}

/// Appends the decimal digits of `n`, zero-padded to `width`.
pub fn push_padded(out: &mut String, n: u64, width: usize)
    ensures
        final(out)@ == old(out)@ + padded(n as nat, width as nat),
    decreases n,
{
    if n < 10 {
        let mut k: usize = 1;
        while k < width
            invariant
                1 <= k <= if width > 1 { width } else { 1 },
                out@ == old(out)@ + Seq::new((k - 1) as nat, |i: int| '0'),
            decreases width - k,
        {
            push_char(out, '0');
            assert(Seq::new(k as nat, |i: int| '0') == Seq::new((k - 1) as nat, |i: int| '0').push('0'));
            k = k + 1;
        }
        let c = ((n as u8) + 48) as char;
        assert(c == digit_char(n as nat));
        push_char(out, c);
        assert(decimal(n as nat) == seq![digit_char(n as nat)]);
        if width <= 1 {
            assert(Seq::new(0, |i: int| '0') + decimal(n as nat) == decimal(n as nat));
        }
        assert(out@ == old(out)@ + padded(n as nat, width as nat));
    } else {
        let w = if width > 0 { width - 1 } else { 0 };
        push_padded(out, n / 10, w);
        push_char(out, ((n % 10) as u8 + 48) as char);
        proof {
            lemma_padded_step(n as nat, width as nat);
        }
    }
}

proof fn lemma_decimal_len(n: nat)
    ensures
        decimal(n).len() >= 1,
    decreases n,
{
    if n >= 10 {
        lemma_decimal_len(n / 10);
    }
}

proof fn lemma_padded_step(n: nat, width: nat)
    requires
        n >= 10,
    ensures
        padded(n, width) == padded(n / 10, if width > 0 { (width - 1) as nat } else { 0 }).push(
            digit_char(n % 10),
        ),
{
    let w: nat = if width > 0 { (width - 1) as nat } else { 0 };
    lemma_decimal_len(n / 10);
    let d = decimal(n / 10);
    assert(decimal(n) == d.push(digit_char(n % 10)));
    if d.len() >= w {
        assert(padded(n / 10, w) == d);
    } else {
        let z = Seq::new((w - d.len()) as nat, |i: int| '0');
        assert((z + d).push(digit_char(n % 10)) == z + d.push(digit_char(n % 10)));
    }
}

/// Parses an unsigned 16-bit decimal number as `str::parse::<u16>` does.
pub fn parse_u16(s: &str) -> (r: Option<u16>)
    ensures
        r == parse_u16_spec(s@),
{
    let n = s.unicode_len();
    let mut start: usize = 0;
    if n > 0 && s.get_char(0) == '+' {
        start = 1;
    }
    let ghost body = s@.subrange(start as int, n as int);
    assert(body =~= unsigned_body(s@));
    if start >= n {
        return None;
    }
    let mut i: usize = start;
    let mut v: u32 = 0;
    while i < n
        invariant
            start <= i <= n,
            n == s@.len(),
            body == s@.subrange(start as int, n as int),
            body == unsigned_body(s@),
            all_digits(s@.subrange(start as int, i as int)),
            v as nat == digits_value(s@.subrange(start as int, i as int)),
            v < 65536,
        decreases n - i,
    {
        let c = s.get_char(i);
        let ghost prefix = s@.subrange(start as int, i as int);
        let ghost next = s@.subrange(start as int, i + 1);
        assert(next.drop_last() == prefix);
        if !('0' <= c && c <= '9') {
            assert(body[i - start] == c);
            assert(!is_digit(body[i - start]));
            assert(!all_digits(body));
            return None;
        }
        let nv = v * 10 + ((c as u32) - 48);
        assert(next.last() == c);
        assert(digits_value(next) == nv as nat);
        if nv >= 65536 {
            proof {
                if all_digits(body) {
                    assert(body.subrange(0, (i + 1 - start) as int) == next);
                    lemma_digits_value_grows(body, (i + 1 - start) as int);
                }
                assert(!(all_digits(body) && digits_value(body) < 65536));
            }
            return None;
        }
        v = nv;
        i = i + 1;
    }
    assert(s@.subrange(start as int, n as int) == body);
    Some(v as u16)
}

proof fn lemma_digits_value_grows(s: Seq<char>, k: int)
    requires
        0 <= k <= s.len(),
        all_digits(s),
    ensures
        digits_value(s) >= digits_value(s.subrange(0, k)),
    decreases s.len(),
{
    if k < s.len() {
        assert(s.drop_last().subrange(0, k) == s.subrange(0, k));
        lemma_digits_value_grows(s.drop_last(), k);
    } else {
        assert(s.subrange(0, k) == s);
    }
}

/// Index of the first `c` at or after `i`, or the length.
pub open spec fn find_char(s: Seq<char>, c: char, i: int) -> int
    decreases s.len() - i,
{
    if i >= s.len() || i < 0 || s[i] == c {
        i
    } else {
        find_char(s, c, i + 1)
    }
}

/// Index of the first space at or after `i`, or the length.
pub open spec fn word_end(s: Seq<char>, i: int) -> int {
    find_char(s, ' ', i)
}

/// Index of the first `c` in `s`, or its length.
pub fn find(s: &str, c: char) -> (k: usize)
    ensures
        k == find_char(s@, c, 0),
        k <= s@.len(),
{
    let n = s.unicode_len();
    let mut i: usize = 0;
    while i < n && s.get_char(i) != c
        invariant
            0 <= i <= n,
            n == s@.len(),
            find_char(s@, c, i as int) == find_char(s@, c, 0),
        decreases n - i,
    {
        i = i + 1;
    }
    i
}

pub open spec fn pow10(n: nat) -> nat
    decreases n,
{
    if n == 0 {
        1
    } else {
        10 * pow10((n - 1) as nat)
    }
}

proof fn lemma_pow10_mono(i: nat, j: nat)
    requires
        i <= j,
    ensures
        pow10(i) <= pow10(j),
    decreases j,
{
    if i < j {
        lemma_pow10_mono(i, (j - 1) as nat);
    }
}

/// Reads one to nine decimal digits.
pub fn parse_digits(s: &str) -> (r: Option<u64>)
    ensures
        r is Some <==> 1 <= s@.len() <= 9 && all_digits(s@),
        r is Some ==> r->0 == digits_value(s@) && r->0 < 1_000_000_000,
{
    let n = s.unicode_len();
    if n < 1 || n > 9 {
        return None;
    }
    proof {
        reveal_with_fuel(pow10, 10);
        lemma_pow10_mono(n as nat, 9);
    }
    let mut i: usize = 0;
    let mut v: u64 = 0;
    while i < n
        invariant
            0 <= i <= n,
            n == s@.len(),
            n <= 9,
            pow10(n as nat) <= 1_000_000_000,
            all_digits(s@.subrange(0, i as int)),
            v as nat == digits_value(s@.subrange(0, i as int)),
            v < pow10(i as nat),
        decreases n - i,
    {
        let c = s.get_char(i);
        if !('0' <= c && c <= '9') {
            assert(!is_digit(s@[i as int]));
            return None;
        }
        proof {
            lemma_pow10_mono((i + 1) as nat, n as nat);
        }
        let ghost next = s@.subrange(0, i + 1);
        assert(next.drop_last() == s@.subrange(0, i as int));
        v = v * 10 + ((c as u32) - 48) as u64;
        i = i + 1;
    }
    assert(s@.subrange(0, n as int) == s@);
    Some(v)
}

/// A number written with `n` digits is below `10^n`.
pub proof fn lemma_digits_value_bound(s: Seq<char>)
    requires
        all_digits(s),
    ensures
        digits_value(s) < pow10(s.len()),
    decreases s.len(),
{
    if s.len() > 0 {
        assert(all_digits(s.drop_last()));
        lemma_digits_value_bound(s.drop_last());
    }
}

} // verus!
