//! Character-level helpers shared by the domain: Unicode whitespace trimming,
//! appending characters, and zero-padded decimal rendering.

use vstd::prelude::*;

verus! {

/// The characters with the Unicode `White_Space` property (PropList.txt).
pub open spec fn is_white_space(c: char) -> bool {
    let u = c as u32;
    ||| 0x09 <= u <= 0x0D
    ||| u == 0x20
    ||| u == 0x85
    ||| u == 0xA0
    ||| u == 0x1680
    ||| 0x2000 <= u <= 0x200A
    ||| u == 0x2028
    ||| u == 0x2029
    ||| u == 0x202F
    ||| u == 0x205F
    ||| u == 0x3000
}

/// `s` without its leading whitespace.
pub open spec fn trim_start(s: Seq<char>) -> Seq<char>
    decreases s.len(),
{
    if s.len() > 0 && is_white_space(s[0]) {
        trim_start(s.drop_first())
    } else {
        s
    }
}

/// `s` without its trailing whitespace.
pub open spec fn trim_end(s: Seq<char>) -> Seq<char>
    decreases s.len(),
{
    if s.len() > 0 && is_white_space(s.last()) {
        trim_end(s.drop_last())
    } else {
        s
    }
}

/// `s` without leading and trailing whitespace, as `str::trim` gives it.
pub open spec fn trimmed(s: Seq<char>) -> Seq<char> {
    trim_end(trim_start(s))
}

/// `char::is_whitespace`: true exactly for the characters with the Unicode
/// `White_Space` property, which `is_white_space` lists.
#[verifier::external_body]
fn char_is_whitespace(c: char) -> (b: bool)
    ensures
        b == is_white_space(c),
{
    c.is_whitespace()
}

/// `String::push`: appends one character.
#[verifier::external_body]
pub(crate) fn push_char(s: &mut String, c: char)
    ensures
        final(s)@ == old(s)@.push(c),
{
    s.push(c)
}

/// The characters of `s`, in order.
pub fn chars_of(s: &str) -> (v: Vec<char>)
    ensures
        v@ == s@,
{
    let mut v: Vec<char> = Vec::new();
    for c in it: s.chars()
        invariant
            v@ == it.seq().take(it.index() as int),
    {
        v.push(c);
    }
    v
}

proof fn lemma_trim_start_step(s: Seq<char>, i: int)
    requires
        0 <= i < s.len(),
        is_white_space(s[i]),
    ensures
        trim_start(s.subrange(i, s.len() as int)) == trim_start(s.subrange(i + 1, s.len() as int)),
{
    let t = s.subrange(i, s.len() as int);
    assert(t.drop_first() =~= s.subrange(i + 1, s.len() as int));
}

proof fn lemma_trim_end_step(s: Seq<char>, start: int, end: int)
    requires
        0 <= start < end <= s.len(),
        is_white_space(s[end - 1]),
    ensures
        trim_end(s.subrange(start, end)) == trim_end(s.subrange(start, end - 1)),
{
    let t = s.subrange(start, end);
    assert(t.drop_last() =~= s.subrange(start, end - 1));
}

/// `str::trim`: the slice of `s` without leading and trailing whitespace.
pub fn trim(s: &str) -> (r: &str)
    ensures
        r@ == trimmed(s@),
{
    let v = chars_of(s);
    let n = v.len();
    let mut start: usize = 0;
    proof {
        assert(s@.subrange(0, n as int) =~= s@);
    }
    while start < n && char_is_whitespace(v[start])
        invariant
            v@ == s@,
            n == v.len(),
            start <= n,
            trim_start(s@) == trim_start(s@.subrange(start as int, n as int)),
        decreases n - start,
    {
        proof {
            lemma_trim_start_step(s@, start as int);
        }
        start = start + 1;
    }
    proof {
        let t = s@.subrange(start as int, n as int);
        if start < n {
            assert(t[0] == v@[start as int]);
        } else {
            assert(t =~= Seq::<char>::empty());
        }
    }
    let mut end: usize = n;
    while end > start && char_is_whitespace(v[end - 1])
        invariant
            v@ == s@,
            n == v.len(),
            start <= end <= n,
            trim_start(s@) == s@.subrange(start as int, n as int),
            trim_end(s@.subrange(start as int, n as int)) == trim_end(
                s@.subrange(start as int, end as int),
            ),
        decreases end,
    {
        proof {
            lemma_trim_end_step(s@, start as int, end as int);
        }
        end = end - 1;
    }
    s.substring_char(start, end)
}

/// Trimming twice trims no more than trimming once.
pub proof fn lemma_trimmed_idempotent(s: Seq<char>)
    ensures
        trimmed(trimmed(s)) == trimmed(s),
{
    lemma_trim_start_fixed(s);
    lemma_trim_start_of_trimmed(trim_start(s));
    lemma_trim_end_idempotent(trim_start(s));
}

proof fn lemma_trim_start_fixed(s: Seq<char>)
    ensures
        trim_start(trim_start(s)) == trim_start(s),
        trim_start(s).len() > 0 ==> !is_white_space(trim_start(s)[0]),
    decreases s.len(),
{
    if s.len() > 0 && is_white_space(s[0]) {
        lemma_trim_start_fixed(s.drop_first());
    }
}

proof fn lemma_trim_end_idempotent(s: Seq<char>)
    ensures
        trim_end(trim_end(s)) == trim_end(s),
        trim_end(s).len() > 0 ==> !is_white_space(trim_end(s).last()),
    decreases s.len(),
{
    if s.len() > 0 && is_white_space(s.last()) {
        lemma_trim_end_idempotent(s.drop_last());
    }
}

/// Cutting trailing whitespace from a sequence that starts with a
/// non-whitespace character keeps that first character.
proof fn lemma_trim_end_keeps_front(s: Seq<char>)
    requires
        s.len() > 0,
        !is_white_space(s[0]),
    ensures
        trim_end(s).len() > 0,
        trim_end(s)[0] == s[0],
    decreases s.len(),
{
    if is_white_space(s.last()) {
        assert(s.len() > 1);
        lemma_trim_end_keeps_front(s.drop_last());
    }
}

proof fn lemma_trim_start_of_trimmed(s: Seq<char>)
    requires
        trim_start(s) == s,
    ensures
        trim_start(trim_end(s)) == trim_end(s),
{
    if trim_end(s).len() > 0 {
        if s.len() > 0 && is_white_space(s[0]) {
            lemma_trim_start_fixed(s.drop_first());
            lemma_trim_start_fixed(s);
        }
        lemma_trim_start_fixed(s);
        lemma_trim_end_keeps_front(s);
    }
}

/// The ASCII digit for `d` (0 to 9).
pub open spec fn digit_char(d: int) -> char {
    (('0' as int) + d) as char
}

/// The decimal digits of `n`, most significant first, without leading zeros.
pub open spec fn decimal(n: nat) -> Seq<char>
    decreases n,
{
    if n < 10 {
        seq![digit_char(n as int)]
    } else {
        decimal(n / 10).push(digit_char((n % 10) as int))
    }
}

/// `decimal(n)` left-padded with `'0'` to at least `width` characters,
/// as the format `{:0width$}` renders a non-negative integer.
pub open spec fn zero_padded(n: nat, width: nat) -> Seq<char> {
    let d = decimal(n);
    let pad: nat = if width > d.len() { (width - d.len()) as nat } else { 0 };
    Seq::new(pad, |i: int| '0') + d
}

/// `n` rendered with `{:0width$}`: a minus sign for negative numbers, then
/// the magnitude zero-padded so that sign and digits fill `width` characters.
pub open spec fn sign_padded(n: int, width: nat) -> Seq<char> {
    if n < 0 {
        seq!['-'] + zero_padded((-n) as nat, if width > 0 { (width - 1) as nat } else { 0 })
    } else {
        zero_padded(n as nat, width)
    }
}

/// Ten to the power `k`.
pub open spec fn pow10(k: nat) -> nat
    decreases k,
{
    if k == 0 { 1 } else { 10 * pow10((k - 1) as nat) }
}

/// A number below `10^k` has at most `k` decimal digits.
pub proof fn lemma_decimal_len_bound(n: nat, k: nat)
    requires
        k >= 1,
        n < pow10(k),
    ensures
        decimal(n).len() <= k,
    decreases n,
{
    if n >= 10 {
        assert(k >= 2) by {
            if k == 1 {
                assert(pow10(1) == 10 * pow10(0));
            }
        }
        let k1 = (k - 1) as nat;
        assert(pow10(k) == 10 * pow10(k1));
        assert(n / 10 < pow10(k1)) by (nonlinear_arith)
            requires
                n < 10 * pow10(k1),
        ;
        lemma_decimal_len_bound(n / 10, k1);
    }
}

/// A number of at least `10^k` has more than `k` decimal digits.
pub proof fn lemma_decimal_len_at_least(n: nat, k: nat)
    requires
        n >= pow10(k),
    ensures
        decimal(n).len() >= k + 1,
    decreases k,
{
    if k > 0 {
        let k1 = (k - 1) as nat;
        assert(pow10(k) == 10 * pow10(k1));
        assert(pow10(k1) >= 1) by {
            lemma_pow10_positive(k1);
        }
        assert(n / 10 >= pow10(k1)) by (nonlinear_arith)
            requires
                n >= 10 * pow10(k1),
        ;
        lemma_decimal_len_at_least(n / 10, k1);
    }
}

proof fn lemma_pow10_positive(k: nat)
    ensures
        pow10(k) >= 1,
    decreases k,
{
    if k > 0 {
        lemma_pow10_positive((k - 1) as nat);
    }
}

/// The width of a zero-padded number is the padding width once the digits fit.
pub proof fn lemma_zero_padded_len(n: nat, width: nat)
    requires
        width >= 1,
        n < pow10(width),
    ensures
        zero_padded(n, width).len() == width,
{
    lemma_decimal_len_bound(n, width);
}

fn digit(d: u64) -> (c: char)
    requires
        d < 10,
    ensures
        c == digit_char(d as int),
{
    let b: u8 = d as u8;
    (48u8 + b) as char
}

/// Appends the decimal digits of `n`.
pub fn push_decimal(out: &mut String, n: u64)
    ensures
        final(out)@ == old(out)@ + decimal(n as nat),
    decreases n,
{
    if n >= 10 {
        push_decimal(out, n / 10);
        push_char(out, digit(n % 10));
        proof {
            assert(old(out)@ + decimal(n as nat) =~= old(out)@ + decimal((n / 10) as nat) + seq![
                digit_char((n % 10) as int),
            ]);
        }
    } else {
        push_char(out, digit(n));
        proof {
            assert(old(out)@ + decimal(n as nat) =~= old(out)@.push(digit_char(n as int)));
        }
    }
}

/// Appends `n` zero-padded to `width` characters (`{:0width$}`).
pub fn push_zero_padded(out: &mut String, n: u64, width: usize)
    ensures
        final(out)@ == old(out)@ + zero_padded(n as nat, width as nat),
{
    let mut digits = String::new();
    push_decimal(&mut digits, n);
    let len = digits.as_str().unicode_len();
    let ghost d = decimal(n as nat);
    let ghost start = out@;
    let mut i = len;
    while i < width
        invariant
            digits@ == d,
            len == d.len(),
            len <= i,
            i <= width || i == len,
            out@ == start + Seq::new((i - len) as nat, |j: int| '0'),
        decreases width - i,
    {
        push_char(out, '0');
        proof {
            assert(out@ =~= start + Seq::new((i + 1 - len) as nat, |j: int| '0'));
        }
        i = i + 1;
    }
    out.append(digits.as_str());
    proof {
        let pad: nat = if width > d.len() { (width - d.len()) as nat } else { 0 };
        assert(i - len == pad);
        assert(out@ =~= start + zero_padded(n as nat, width as nat));
    }
}

/// Appends `n` in the form `{:0width$}` gives a signed integer.
pub fn push_sign_padded(out: &mut String, n: i64, width: usize)
    ensures
        final(out)@ == old(out)@ + sign_padded(n as int, width as nat),
{
    if n < 0 {
        push_char(out, '-');
        let magnitude: u64 = if n == i64::MIN {
            9223372036854775808u64
        } else {
            (-n) as u64
        };
        let w = if width > 0 { width - 1 } else { 0 };
        push_zero_padded(out, magnitude, w);
        proof {
            assert(out@ =~= old(out)@ + sign_padded(n as int, width as nat));
        }
    } else {
        push_zero_padded(out, n as u64, width);
    }
}

/// Lexicographic order of texts by code point (for ASCII text, the order in
/// which SQLite compares TEXT values byte by byte).
pub open spec fn text_less(a: Seq<char>, b: Seq<char>) -> bool
    decreases a.len(),
{
    if a.len() == 0 {
        b.len() > 0
    } else if b.len() == 0 {
        false
    } else if a[0] != b[0] {
        (a[0] as u32) < (b[0] as u32)
    } else {
        text_less(a.drop_first(), b.drop_first())
    }
}

/// Texts that start with prefixes of one length compare by their prefixes
/// first, then by the rest.
pub proof fn lemma_text_less_concat(a1: Seq<char>, r1: Seq<char>, a2: Seq<char>, r2: Seq<char>)
    requires
        a1.len() == a2.len(),
    ensures
        text_less(a1 + r1, a2 + r2) <==> (text_less(a1, a2) || (a1 == a2 && text_less(r1, r2))),
        (a1 + r1 == a2 + r2) <==> (a1 == a2 && r1 == r2),
    decreases a1.len(),
{
    if a1.len() == 0 {
        assert(a1 + r1 =~= r1);
        assert(a2 + r2 =~= r2);
        assert(a1 =~= a2);
    } else {
        let x = a1 + r1;
        let y = a2 + r2;
        assert(x[0] == a1[0]);
        assert(y[0] == a2[0]);
        assert(x.drop_first() =~= a1.drop_first() + r1);
        assert(y.drop_first() =~= a2.drop_first() + r2);
        lemma_text_less_concat(a1.drop_first(), r1, a2.drop_first(), r2);
        if a1 == a2 {
            assert(a1.drop_first() == a2.drop_first());
        }
        if a1[0] == a2[0] && a1.drop_first() == a2.drop_first() {
            assert forall|i: int| 0 <= i < a1.len() implies a1[i] == a2[i] by {
                if i > 0 {
                    assert(a1[i] == a1.drop_first()[i - 1]);
                    assert(a2[i] == a2.drop_first()[i - 1]);
                }
            }
            assert(a1 =~= a2);
        }
        if x == y {
            assert(x[0] == y[0]);
            assert(x.drop_first() == y.drop_first());
            assert(a1.drop_first() + r1 == a2.drop_first() + r2);
            assert(a1 =~= a2) by {
                assert forall|i: int| 0 <= i < a1.len() implies a1[i] == a2[i] by {
                    assert(x[i] == a1[i]);
                    assert(y[i] == a2[i]);
                }
            }
            assert(r1 =~= r2) by {
                assert forall|i: int| 0 <= i < r1.len() implies r1[i] == r2[i] by {
                    assert(x[a1.len() + i] == r1[i]);
                    assert(y[a2.len() + i] == r2[i]);
                }
            }
        }
    }
}

/// The last `w` decimal digits of `n`, most significant first (leading
/// zeros included).
pub open spec fn fixed_digits(n: nat, w: nat) -> Seq<char>
    decreases w,
{
    if w == 0 {
        Seq::empty()
    } else {
        fixed_digits(n / 10, (w - 1) as nat).push(digit_char((n % 10) as int))
    }
}

proof fn lemma_fixed_digits_zero(w: nat)
    ensures
        fixed_digits(0, w) == Seq::new(w, |i: int| '0'),
    decreases w,
{
    if w > 0 {
        lemma_fixed_digits_zero((w - 1) as nat);
        assert(fixed_digits(0, w) =~= Seq::new(w, |i: int| '0'));
    }
}

/// A number that fits in `w` digits, zero-padded to `w`, is its last `w`
/// digits.
pub proof fn lemma_zero_padded_fixed(n: nat, w: nat)
    requires
        w >= 1,
        n < pow10(w),
    ensures
        zero_padded(n, w) == fixed_digits(n, w),
    decreases w,
{
    if n < 10 {
        lemma_fixed_digits_zero((w - 1) as nat);
        assert(fixed_digits(n, w) == fixed_digits(0, (w - 1) as nat).push(digit_char(n as int)));
        assert(zero_padded(n, w) =~= fixed_digits(n, w));
    } else {
        assert(w >= 2) by {
            if w == 1 {
                assert(pow10(1) == 10 * pow10(0));
            }
        }
        let w1 = (w - 1) as nat;
        assert(pow10(w) == 10 * pow10(w1));
        assert(n / 10 < pow10(w1)) by (nonlinear_arith)
            requires
                n < 10 * pow10(w1),
        ;
        lemma_zero_padded_fixed(n / 10, w1);
        lemma_decimal_len_bound(n / 10, w1);
        assert(decimal(n) == decimal(n / 10).push(digit_char((n % 10) as int)));
        assert(zero_padded(n, w) =~= zero_padded(n / 10, w1).push(digit_char((n % 10) as int)));
    }
}

/// Fixed-width digit texts compare as the numbers they write.
pub proof fn lemma_fixed_digits_order(m: nat, n: nat, w: nat)
    requires
        m < pow10(w),
        n < pow10(w),
    ensures
        fixed_digits(m, w).len() == w,
        fixed_digits(n, w).len() == w,
        text_less(fixed_digits(m, w), fixed_digits(n, w)) <==> m < n,
        fixed_digits(m, w) == fixed_digits(n, w) <==> m == n,
    decreases w,
{
    if w == 0 {
        assert(fixed_digits(m, w) =~= fixed_digits(n, w));
    } else {
        let w1 = (w - 1) as nat;
        assert(pow10(w) == 10 * pow10(w1));
        assert(m / 10 < pow10(w1)) by (nonlinear_arith)
            requires
                m < 10 * pow10(w1),
        ;
        assert(n / 10 < pow10(w1)) by (nonlinear_arith)
            requires
                n < 10 * pow10(w1),
        ;
        lemma_fixed_digits_order(m / 10, n / 10, w1);
        let a = fixed_digits(m / 10, w1);
        let b = fixed_digits(n / 10, w1);
        let x = seq![digit_char((m % 10) as int)];
        let y = seq![digit_char((n % 10) as int)];
        assert(fixed_digits(m, w) =~= a + x);
        assert(fixed_digits(n, w) =~= b + y);
        lemma_text_less_concat(a, x, b, y);
        assert(x.drop_first() =~= Seq::<char>::empty());
        assert(y.drop_first() =~= Seq::<char>::empty());
        assert(digit_char((m % 10) as int) as u32 == 48 + m % 10);
        assert(digit_char((n % 10) as int) as u32 == 48 + n % 10);
        assert(text_less(x, y) <==> m % 10 < n % 10) by {
            reveal_with_fuel(text_less, 2);
            assert(x[0] == digit_char((m % 10) as int));
            assert(y[0] == digit_char((n % 10) as int));
        }
        assert(x == y <==> m % 10 == n % 10) by {
            if x == y {
                assert(x[0] == y[0]);
            }
        }
    }
}

} // verus!
