use vstd::prelude::*;
use vstd::string::*;
use crate::text::{char_string, join3};

verus! {

/// A decimal number held in thousandths: `milli == 1100` stands for `1.100`.
#[derive(Clone, Copy, PartialEq, Eq, Structural, Debug)]
pub struct Decimal {
    pub milli: i64,
}

/// Whole parts at or above this bound are not accepted by the parser.
pub const WHOLE_LIMIT: u64 = 1_000_000_000_000_000;

pub open spec fn is_digit(c: char) -> bool {
    '0' <= c && c <= '9'
}

pub open spec fn digit_value(c: char) -> int {
    c as int - '0' as int
}

pub open spec fn all_digits(s: Seq<char>) -> bool {
    forall|i: int| 0 <= i < s.len() ==> #[trigger] is_digit(s[i])
}

/// The number that a string of decimal digits spells.
pub open spec fn digits_value(s: Seq<char>) -> int
    decreases s.len(),
{
    if s.len() == 0 {
        0
    } else {
        digits_value(s.drop_last()) * 10 + digit_value(s.last())
    }
}

/// Index of the first '.', or the length when there is none.
pub open spec fn dot_pos(s: Seq<char>) -> nat
    decreases s.len(),
{
    if s.len() == 0 || s[0] == '.' {
        0
    } else {
        1 + dot_pos(s.drop_first())
    }
}

pub open spec fn whole_part(s: Seq<char>) -> Seq<char> {
    s.take(dot_pos(s) as int)
}

pub open spec fn frac_part(s: Seq<char>) -> Seq<char> {
    if dot_pos(s) < s.len() {
        s.skip(dot_pos(s) + 1int)
    } else {
        Seq::empty()
    }
}

/// The first three fractional digits as thousandths; later digits are dropped.
pub open spec fn frac_milli(f: Seq<char>) -> int {
    if f.len() >= 3 {
        digits_value(f.take(3))
    } else if f.len() == 2 {
        digits_value(f) * 10
    } else {
        digits_value(f) * 100
    }
}

/// An unsigned decimal: digits, optionally a '.' and more digits, at least one digit in all.
pub open spec fn unsigned_milli(s: Seq<char>) -> Option<int> {
    let w = whole_part(s);
    let f = frac_part(s);
    if all_digits(w) && all_digits(f) && w.len() + f.len() > 0 && digits_value(w)
        < WHOLE_LIMIT {
        Some(digits_value(w) * 1000 + frac_milli(f))
    } else {
        None
    }
}

/// The value of a decimal text in thousandths, with an optional leading sign.
pub open spec fn parse_milli(s: Seq<char>) -> Option<int> {
    if s.len() > 0 && s[0] == '-' {
        match unsigned_milli(s.drop_first()) {
            Some(v) => Some(-v),
            None => None,
        }
    } else if s.len() > 0 && s[0] == '+' {
        unsigned_milli(s.drop_first())
    } else {
        unsigned_milli(s)
    }
}

pub open spec fn parse_decimal(s: Seq<char>) -> Option<Decimal> {
    match parse_milli(s) {
        Some(v) => Some(Decimal { milli: v as i64 }),
        None => None,
    }
}

proof fn lemma_digits_value_nonneg(s: Seq<char>)
    requires
        all_digits(s),
    ensures
        digits_value(s) >= 0,
    decreases s.len(),
{
    if s.len() > 0 {
        assert(is_digit(s[s.len() - 1]));
        lemma_digits_value_nonneg(s.drop_last());
    }
}

proof fn lemma_digits_value_prefix(s: Seq<char>, i: int)
    requires
        all_digits(s),
        0 <= i <= s.len(),
    ensures
        digits_value(s.take(i)) <= digits_value(s),
    decreases s.len(),
{
    if i < s.len() {
        assert(s.drop_last().take(i) =~= s.take(i));
        lemma_digits_value_prefix(s.drop_last(), i);
        lemma_digits_value_nonneg(s.drop_last());
        assert(is_digit(s[s.len() - 1]));
    } else {
        assert(s.take(i) =~= s);
    }
}

proof fn lemma_digits_value_step(s: Seq<char>, a: int, b: int)
    requires
        0 <= a < b <= s.len(),
    ensures
        digits_value(s.subrange(a, b)) == digits_value(s.subrange(a, b - 1)) * 10
            + digit_value(s[b - 1]),
{
    assert(s.subrange(a, b).drop_last() =~= s.subrange(a, b - 1));
}

proof fn lemma_dot_pos(s: Seq<char>, d: int)
    requires
        0 <= d <= s.len(),
        forall|j: int| 0 <= j < d ==> s[j] != '.',
        d < s.len() ==> s[d] == '.',
    ensures
        dot_pos(s) == d,
    decreases s.len(),
{
    if s.len() > 0 && s[0] != '.' {
        lemma_dot_pos(s.drop_first(), d - 1);
    }
}

/// The digits at `[a, b)` of `s`, with their value, or `None` at the first non-digit.
fn scan_digits(s: &str, a: usize, b: usize, limit: u64) -> (r: Option<u64>)
    requires
        a <= b <= s@.len(),
        0 < limit <= WHOLE_LIMIT,
    ensures
        match r {
            Some(v) => all_digits(s@.subrange(a as int, b as int)) && v == digits_value(
                s@.subrange(a as int, b as int),
            ) && v < limit,
            None => !all_digits(s@.subrange(a as int, b as int)) || digits_value(
                s@.subrange(a as int, b as int),
            ) >= limit,
        },
{
    let ghost t = s@.subrange(a as int, b as int);
    let mut acc: u64 = 0;
    let mut k: usize = a;
    while k < b
        invariant
            a <= k <= b <= s@.len(),
            0 < limit <= WHOLE_LIMIT,
            t == s@.subrange(a as int, b as int),
            all_digits(s@.subrange(a as int, k as int)),
            acc == digits_value(s@.subrange(a as int, k as int)),
            acc < limit,
        decreases b - k,
    {
        let c = s.get_char(k);
        proof {
            lemma_digits_value_step(s@, a as int, k + 1);
            assert(s@.subrange(a as int, k + 1) =~= t.take(k + 1 - a));
        }
        if !('0' <= c && c <= '9') {
            assert(!is_digit(t[k - a]));
            return None;
        }
        let d = (c as u32 - '0' as u32) as u64;
        let next = acc * 10 + d;
        assert(all_digits(s@.subrange(a as int, k + 1))) by {
            assert forall|i: int| 0 <= i < k + 1 - a implies #[trigger] is_digit(
                s@.subrange(a as int, k + 1)[i],
            ) by {
                if i < k - a {
                    assert(s@.subrange(a as int, k + 1)[i] == s@.subrange(a as int, k as int)[i]);
                }
            }
        }
        if next >= limit {
            proof {
                if all_digits(t) {
                    lemma_digits_value_prefix(t, k + 1 - a);
                }
            }
            return None;
        }
        acc = next;
        k = k + 1;
    }
    assert(s@.subrange(a as int, k as int) =~= t);
    Some(acc)
}

/// Parse an unsigned decimal into thousandths.
fn parse_unsigned(s: &str) -> (r: Option<u64>)
    ensures
        match r {
            Some(v) => unsigned_milli(s@) == Some(v as int) && v < 1_000_000_000_000_000_000,
            None => unsigned_milli(s@) is None,
        },
{
    let n = s.unicode_len();
    let mut d: usize = 0;
    while d < n && s.get_char(d) != '.'
        invariant
            d <= n,
            n == s@.len(),
            forall|j: int| 0 <= j < d ==> s@[j] != '.',
        decreases n - d,
    {
        d = d + 1;
    }
    proof {
        lemma_dot_pos(s@, d as int);
        assert(whole_part(s@) =~= s@.subrange(0, d as int));
    }
    let whole = match scan_digits(s, 0, d, WHOLE_LIMIT) {
        Some(w) => w,
        None => return None,
    };
    let start = if d < n { d + 1 } else { n };
    assert(frac_part(s@) =~= s@.subrange(start as int, n as int));
    let flen = n - start;
    let cut = if flen > 3 { start + 3 } else { n };
    let frac3 = match scan_digits(s, start, cut, 1000) {
        Some(f) => f,
        None => {
            assert(!all_digits(frac_part(s@))) by {
                let f = frac_part(s@);
                let g = s@.subrange(start as int, cut as int);
                if all_digits(f) {
                    assert forall|i: int| 0 <= i < g.len() implies #[trigger] is_digit(g[i]) by {
                        assert(g[i] == f[i]);
                    }
                    assert(digits_value(g) < 1000) by {
                        if g.len() == 3 {
                            assert(g =~= s@.subrange(start as int, cut as int));
                            lemma_three_digits(g);
                        } else {
                            lemma_three_digits(g);
                        }
                    }
                }
            }
            return None;
        },
    };
    if cut < n {
        if !check_digits(s, cut, n) {
            proof {
                let f = frac_part(s@);
                let h = s@.subrange(cut as int, n as int);
                if all_digits(f) {
                    assert forall|i: int| 0 <= i < h.len() implies #[trigger] is_digit(h[i]) by {
                        assert(h[i] == f[i + 3]);
                    }
                }
            }
            return None;
        }
        assert(all_digits(frac_part(s@))) by {
            let f = frac_part(s@);
            assert forall|i: int| 0 <= i < f.len() implies #[trigger] is_digit(f[i]) by {
                if i < 3 {
                    assert(f[i] == s@.subrange(start as int, cut as int)[i]);
                } else {
                    assert(f[i] == s@.subrange(cut as int, n as int)[i - 3]);
                }
            }
        }
    }
    if d == 0 && flen == 0 {
        return None;
    }
    proof {
        let f = frac_part(s@);
        if f.len() >= 3 {
            assert(f.take(3) =~= s@.subrange(start as int, cut as int));
        } else {
            assert(f =~= s@.subrange(start as int, cut as int));
        }
    }
    proof {
        lemma_digits_value_bound(s@.subrange(start as int, cut as int));
        assert(pow10(0) == 1);
        assert(pow10(1) == 10);
        assert(pow10(2) == 100);
    }
    let scaled = if flen >= 3 {
        frac3
    } else if flen == 2 {
        frac3 * 10
    } else {
        frac3 * 100
    };
    Some(whole * 1000 + scaled)
}

pub open spec fn pow10(n: nat) -> nat
    decreases n,
{
    if n == 0 {
        1
    } else {
        10 * pow10((n - 1) as nat)
    }
}

proof fn lemma_digits_value_bound(g: Seq<char>)
    requires
        all_digits(g),
    ensures
        0 <= digits_value(g) < pow10(g.len()),
    decreases g.len(),
{
    if g.len() > 0 {
        assert(is_digit(g[g.len() - 1]));
        lemma_digits_value_bound(g.drop_last());
        let a = digits_value(g.drop_last());
        let p = pow10((g.len() - 1) as nat);
        let d = digit_value(g.last());
        assert(a * 10 + d < 10 * p) by (nonlinear_arith)
            requires
                0 <= a < p,
                0 <= d <= 9,
        ;
    }
}

proof fn lemma_three_digits(g: Seq<char>)
    requires
        g.len() <= 3,
        all_digits(g),
    ensures
        digits_value(g) < 1000,
{
    lemma_digits_value_bound(g);
    assert(pow10(0) == 1);
    assert(pow10(1) == 10);
    assert(pow10(2) == 100);
    assert(pow10(3) == 1000);
}

/// Whether every character at `[a, b)` of `s` is a decimal digit.
fn check_digits(s: &str, a: usize, b: usize) -> (r: bool)
    requires
        a <= b <= s@.len(),
    ensures
        r == all_digits(s@.subrange(a as int, b as int)),
{
    let mut k: usize = a;
    while k < b
        invariant
            a <= k <= b <= s@.len(),
            forall|j: int| a <= j < k ==> is_digit(#[trigger] s@[j]),
        decreases b - k,
    {
        let c = s.get_char(k);
        if !('0' <= c && c <= '9') {
            assert(s@.subrange(a as int, b as int)[k - a] == c);
            assert(!is_digit(s@.subrange(a as int, b as int)[k - a]));
            return false;
        }
        k = k + 1;
    }
    assert forall|i: int| 0 <= i < b - a implies #[trigger] is_digit(
        s@.subrange(a as int, b as int)[i],
    ) by {
        assert(s@.subrange(a as int, b as int)[i] == s@[a + i]);
    }
    true
}

pub open spec fn digit_char(d: int) -> char {
    if d == 0 {
        '0'
    } else if d == 1 {
        '1'
    } else if d == 2 {
        '2'
    } else if d == 3 {
        '3'
    } else if d == 4 {
        '4'
    } else if d == 5 {
        '5'
    } else if d == 6 {
        '6'
    } else if d == 7 {
        '7'
    } else if d == 8 {
        '8'
    } else {
        '9'
    }
}

/// The decimal digits of `n`, most significant first, without leading zeros.
pub open spec fn nat_text(n: nat) -> Seq<char>
    decreases n,
{
    if n < 10 {
        seq![digit_char(n as int)]
    } else {
        nat_text(n / 10).push(digit_char((n % 10) as int))
    }
}

/// The digits of `n`, with leading zeros up to `width` characters.
pub open spec fn padded_text(n: nat, width: nat) -> Seq<char> {
    let t = nat_text(n);
    if t.len() < width {
        Seq::new((width - t.len()) as nat, |i: int| '0') + t
    } else {
        t
    }
}

pub open spec fn abs(m: int) -> nat {
    if m < 0 {
        (-m) as nat
    } else {
        m as nat
    }
}

/// The magnitude of `m` thousandths in units of `10^-places`, rounded half away from zero.
pub open spec fn rounded(m: int, places: nat) -> nat {
    let unit = pow10((3 - places) as nat);
    ((abs(m) + unit / 2) / unit) as nat
}

/// The text of `m` thousandths with `places` fractional digits.
pub open spec fn decimal_text(m: int, places: nat) -> Seq<char> {
    let q = rounded(m, places);
    let p = pow10(places);
    let sign = if m < 0 && q > 0 {
        seq!['-']
    } else {
        Seq::empty()
    };
    if places == 0 {
        sign + nat_text(q)
    } else {
        sign + nat_text(q / p) + seq!['.'] + padded_text(q % p, places)
    }
}

fn digit_char_exec(d: u64) -> (c: char)
    requires
        d < 10,
    ensures
        c == digit_char(d as int),
{
    match d {
        0 => '0',
        1 => '1',
        2 => '2',
        3 => '3',
        4 => '4',
        5 => '5',
        6 => '6',
        7 => '7',
        8 => '8',
        _ => '9',
    }
}

/// The decimal digits of `n`.
fn nat_string(n: u64) -> (r: String)
    ensures
        r@ == nat_text(n as nat),
{
    let mut cur = n;
    let mut acc = String::new();
    loop
        invariant
            nat_text(n as nat) == nat_text(cur as nat) + acc@,
        decreases cur,
    {
        let d = digit_char_exec(cur % 10);
        let ds = char_string(d);
        let joined = join3(ds.as_str(), "", acc.as_str());
        proof {
            reveal_strlit("");
            if cur >= 10 {
                assert(nat_text(cur as nat) == nat_text((cur / 10) as nat).push(d));
                assert(nat_text(cur as nat) + acc@ =~= nat_text((cur / 10) as nat) + joined@);
            } else {
                assert(nat_text(cur as nat) + acc@ =~= joined@);
            }
        }
        acc = joined;
        if cur < 10 {
            return acc;
        }
        cur = cur / 10;
    }
}

/// The digits of `n` with leading zeros up to `width` characters.
fn padded_string(n: u64, width: usize) -> (r: String)
    ensures
        r@ == padded_text(n as nat, width as nat),
{
    let t = nat_string(n);
    let len = t.as_str().unicode_len();
    let mut acc = t;
    let mut k: usize = len;
    while k < width
        invariant
            len == nat_text(n as nat).len(),
            len <= k,
            k <= width ==> acc@ =~= Seq::new((k - len) as nat, |i: int| '0') + nat_text(
                n as nat,
            ),
            k > width ==> k == len,
            len >= width ==> acc@ == nat_text(n as nat),
        decreases width - k,
    {
        let z = char_string('0');
        acc = join3(z.as_str(), "", acc.as_str());
        proof {
            reveal_strlit("");
        }
        k = k + 1;
    }
    proof {
        if len >= width {
            assert(Seq::new((k - len) as nat, |i: int| '0') =~= Seq::<char>::empty());
        }
    }
    acc
}

impl Decimal {
    /// Parse a decimal text, such as `-3.25`; `None` where it is no such number.
    pub fn parse(s: &str) -> (r: Option<Decimal>)
        ensures
            r == parse_decimal(s@),
    {
        let n = s.unicode_len();
        if n > 0 {
            let c = s.get_char(0);
            if c == '-' || c == '+' {
                let body = s.substring_char(1, n);
                assert(body@ =~= s@.drop_first());
                return match parse_unsigned(body) {
                    Some(v) => {
                        let m = v as i64;
                        if c == '-' {
                            Some(Decimal { milli: -m })
                        } else {
                            Some(Decimal { milli: m })
                        }
                    },
                    None => None,
                };
            }
        }
        match parse_unsigned(s) {
            Some(v) => Some(Decimal { milli: v as i64 }),
            None => None,
        }
    }

    /// The text of this number with `places` fractional digits, rounded half away from zero.
    pub fn to_text(&self, places: usize) -> (r: String)
        requires
            places <= 3,
        ensures
            r@ == decimal_text(self.milli as int, places as nat),
    {
        let mag: u64 = if self.milli < 0 {
            ((-(self.milli + 1)) as u64) + 1
        } else {
            self.milli as u64
        };
        let unit: u64 = if places == 0 {
            1000
        } else if places == 1 {
            100
        } else if places == 2 {
            10
        } else {
            1
        };
        let p: u64 = if places == 0 {
            1
        } else if places == 1 {
            10
        } else if places == 2 {
            100
        } else {
            1000
        };
        proof {
            assert(pow10(0) == 1);
            assert(pow10(1) == 10);
            assert(pow10(2) == 100);
            assert(pow10(3) == 1000);
            assert(unit == pow10((3 - places) as nat));
            assert(p == pow10(places as nat));
        }
        let q = mag / unit + (if mag % unit >= unit - unit / 2 { 1u64 } else { 0u64 });
        assert(q == rounded(self.milli as int, places as nat)) by (nonlinear_arith)
            requires
                q == mag / unit + (if mag % unit >= unit - unit / 2 { 1int } else { 0int }),
                mag == abs(self.milli as int),
                unit == pow10((3 - places) as nat),
                unit == 1 || unit == 10 || unit == 100 || unit == 1000,
                rounded(self.milli as int, places as nat) == (abs(self.milli as int) + pow10((3 - places) as nat) / 2) / pow10((3 - places) as nat),
        ;
        let sign = if self.milli < 0 && q > 0 {
            char_string('-')
        } else {
            String::new()
        };
        let whole = nat_string(q / p);
        if places == 0 {
            let r = join3(sign.as_str(), whole.as_str(), "");
            proof {
                reveal_strlit("");
                assert(r@ =~= decimal_text(self.milli as int, places as nat));
            }
            r
        } else {
            let frac = padded_string(q % p, places);
            let dot = char_string('.');
            let head = join3(sign.as_str(), whole.as_str(), dot.as_str());
            let r = join3(head.as_str(), frac.as_str(), "");
            proof {
                reveal_strlit("");
                assert(r@ =~= decimal_text(self.milli as int, places as nat));
            }
            r
        }
    }
}

proof fn lemma_digit_char(d: int)
    requires
        0 <= d < 10,
    ensures
        is_digit(digit_char(d)),
        digit_value(digit_char(d)) == d,
{
}

proof fn lemma_nat_text(n: nat)
    ensures
        all_digits(nat_text(n)),
        digits_value(nat_text(n)) == n,
        nat_text(n).len() >= 1,
        n < 10 ==> nat_text(n).len() == 1,
        n < 100 ==> nat_text(n).len() <= 2,
        n < 1000 ==> nat_text(n).len() <= 3,
    decreases n,
{
    if n < 10 {
        lemma_digit_char(n as int);
        assert(nat_text(n).drop_last() =~= Seq::<char>::empty());
        assert(digits_value(Seq::<char>::empty()) == 0);
        assert(nat_text(n).last() == digit_char(n as int));
        assert(digits_value(nat_text(n)) == digits_value(nat_text(n).drop_last()) * 10
            + digit_value(nat_text(n).last()));
    } else {
        lemma_nat_text(n / 10);
        lemma_digit_char((n % 10) as int);
        let t = nat_text(n);
        assert(t.drop_last() =~= nat_text(n / 10));
        assert(t.last() == digit_char((n % 10) as int));
        assert(n == (n / 10) * 10 + n % 10) by (nonlinear_arith);
        assert(digits_value(t) == digits_value(t.drop_last()) * 10 + digit_value(t.last()));
        assert forall|i: int| 0 <= i < t.len() implies #[trigger] is_digit(t[i]) by {
            if i < t.len() - 1 {
                assert(t[i] == nat_text(n / 10)[i]);
            }
        }
    }
}

proof fn lemma_zeros_value(k: nat)
    ensures
        all_digits(Seq::new(k, |i: int| '0')),
        digits_value(Seq::new(k, |i: int| '0')) == 0,
    decreases k,
{
    if k > 0 {
        lemma_zeros_value((k - 1) as nat);
        assert(Seq::new(k, |i: int| '0').drop_last() =~= Seq::new((k - 1) as nat, |i: int| '0'));
    }
}

proof fn lemma_leading_zeros(k: nat, t: Seq<char>)
    ensures
        digits_value(Seq::new(k, |i: int| '0') + t) == digits_value(t),
    decreases t.len(),
{
    let z = Seq::new(k, |i: int| '0');
    if t.len() == 0 {
        assert(z + t =~= z);
        lemma_zeros_value(k);
    } else {
        assert((z + t).drop_last() =~= z + t.drop_last());
        lemma_leading_zeros(k, t.drop_last());
    }
}

proof fn lemma_padded_text(r: nat)
    requires
        r < 1000,
    ensures
        padded_text(r, 3).len() == 3,
        all_digits(padded_text(r, 3)),
        digits_value(padded_text(r, 3)) == r,
{
    lemma_nat_text(r);
    let t = nat_text(r);
    if t.len() < 3 {
        let z = Seq::new((3 - t.len()) as nat, |i: int| '0');
        lemma_leading_zeros((3 - t.len()) as nat, t);
        lemma_zeros_value((3 - t.len()) as nat);
        assert forall|i: int| 0 <= i < 3 implies #[trigger] is_digit((z + t)[i]) by {
            if i < z.len() {
                assert((z + t)[i] == z[i]);
            } else {
                assert((z + t)[i] == t[i - z.len()]);
            }
        }
    }
}

/// The unsigned text `w.rrr` reads back as `w * 1000 + r`.
proof fn lemma_unsigned_round_trip(w: nat, r: nat)
    requires
        w < WHOLE_LIMIT,
        r < 1000,
    ensures
        unsigned_milli(nat_text(w) + seq!['.'] + padded_text(r, 3)) == Some((w * 1000 + r) as int),
{
    let a = nat_text(w);
    let b = padded_text(r, 3);
    let s = a + seq!['.'] + b;
    lemma_nat_text(w);
    lemma_padded_text(r);
    assert forall|j: int| 0 <= j < a.len() implies s[j] != '.' by {
        assert(s[j] == a[j]);
        assert(is_digit(a[j]));
    }
    assert(s[a.len() as int] == '.');
    lemma_dot_pos(s, a.len() as int);
    assert(whole_part(s) =~= a);
    assert(frac_part(s) =~= b);
    assert(b.take(3) =~= b);
}

/// Text written with three fractional digits reads back as the same number.
pub proof fn lemma_decimal_text_round_trip(m: i64)
    requires
        -1_000_000_000_000_000_000 < m < 1_000_000_000_000_000_000,
    ensures
        parse_decimal(decimal_text(m as int, 3)) == Some(Decimal { milli: m }),
{
    assert(pow10(0) == 1);
    assert(pow10(1) == 10);
    assert(pow10(2) == 100);
    assert(pow10(3) == 1000);
    let q = rounded(m as int, 3);
    assert(pow10((3 - 3) as nat) == 1);
    assert(q == abs(m as int));
    let w = q / 1000;
    let r = q % 1000;
    lemma_unsigned_round_trip(w, r);
    lemma_nat_text(w);
    let body = nat_text(w) + seq!['.'] + padded_text(r, 3);
    assert(body[0] == nat_text(w)[0]);
    assert(is_digit(nat_text(w)[0]));
    let t = decimal_text(m as int, 3);
    if m < 0 && q > 0 {
        assert(t =~= seq!['-'] + body);
        assert(t.drop_first() =~= body);
    } else {
        assert(t =~= body);
    }
}

/// A parsed number lies strictly within a billion billion thousandths of zero.
pub proof fn lemma_parse_bounded(s: Seq<char>)
    requires
        parse_decimal(s) is Some,
    ensures
        -1_000_000_000_000_000_000 < parse_decimal(s)->0.milli < 1_000_000_000_000_000_000,
        parse_milli(s) == Some(parse_decimal(s)->0.milli as int),
{
    let body = if s.len() > 0 && (s[0] == '-' || s[0] == '+') {
        s.drop_first()
    } else {
        s
    };
    let w = whole_part(body);
    let f = frac_part(body);
    lemma_digits_value_nonneg(w);
    if f.len() >= 3 {
        assert forall|i: int| 0 <= i < 3 implies #[trigger] is_digit(f.take(3)[i]) by {
            assert(f.take(3)[i] == f[i]);
        }
        lemma_three_digits(f.take(3));
        lemma_digits_value_nonneg(f.take(3));
    } else {
        lemma_three_digits(f);
        lemma_digits_value_nonneg(f);
        lemma_digits_value_bound(f);
        assert(pow10(0) == 1);
        assert(pow10(1) == 10);
        assert(pow10(2) == 100);
    }
}

/// The text of zero with no fractional digits reads back as zero.
pub proof fn lemma_zero_text_round_trip()
    ensures
        parse_decimal(decimal_text(0, 0)) == Some(Decimal { milli: 0 }),
{
    assert(pow10(0) == 1);
    assert(pow10(1) == 10);
    assert(pow10(2) == 100);
    assert(pow10(3) == 1000);
    assert(rounded(0, 0) == 0);
    let t = decimal_text(0, 0);
    assert(t =~= seq!['0']);
    assert(dot_pos(t.drop_first()) == 0);
    assert(dot_pos(t) == 1);
    assert(whole_part(t) =~= t);
    assert(frac_part(t) =~= Seq::<char>::empty());
    assert(t.drop_last() =~= Seq::<char>::empty());
    assert(digits_value(t) == 0);
}

} // verus!
