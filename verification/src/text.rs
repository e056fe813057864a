//! Character-level helpers: decimal rendering and whitespace trimming.

use vstd::prelude::*;

verus! {

/// The decimal digit character for `d < 10`.
pub open spec fn digit_char(d: nat) -> char {
    if d == 0 { '0' }
    else if d == 1 { '1' }
    else if d == 2 { '2' }
    else if d == 3 { '3' }
    else if d == 4 { '4' }
    else if d == 5 { '5' }
    else if d == 6 { '6' }
    else if d == 7 { '7' }
    else if d == 8 { '8' }
    else { '9' }
}

/// The decimal rendering of `n`, as `format!("{}", n)` writes it.
pub open spec fn decimal(n: nat) -> Seq<char>
    decreases n,
{
    if n < 10 {
        seq![digit_char(n)]
    } else {
        decimal(n / 10) + seq![digit_char(n % 10)]
    }
}

/// A one-character string holding the digit `d`.
fn digit_str(d: u32) -> (res: &'static str)
    requires
        d < 10,
    ensures
        res@ == seq![digit_char(d as nat)],
{
    if d == 0 {
        proof { reveal_strlit("0"); }
        "0"
    } else if d == 1 {
        proof { reveal_strlit("1"); }
        "1"
    } else if d == 2 {
        proof { reveal_strlit("2"); }
        "2"
    } else if d == 3 {
        proof { reveal_strlit("3"); }
        "3"
    } else if d == 4 {
        proof { reveal_strlit("4"); }
        "4"
    } else if d == 5 {
        proof { reveal_strlit("5"); }
        "5"
    } else if d == 6 {
        proof { reveal_strlit("6"); }
        "6"
    } else if d == 7 {
        proof { reveal_strlit("7"); }
        "7"
    } else if d == 8 {
        proof { reveal_strlit("8"); }
        "8"
    } else {
        proof { reveal_strlit("9"); }
        "9"
    }
}

/// Renders `n` in decimal.
pub fn decimal_string(n: u32) -> (res: String)
    ensures
        res@ == decimal(n as nat),
{
    let mut m: u32 = n / 10;
    let mut acc = String::from_str(digit_str(n % 10));
    while m > 0
        invariant
            m > 0 ==> decimal(n as nat) == decimal(m as nat) + acc@,
            m == 0 ==> decimal(n as nat) == acc@,
        decreases m,
    {
        let d = digit_str(m % 10);
        let ghost old_acc = acc@;
        acc = String::from_str(d).concat(acc.as_str());
        proof {
            assert(decimal(m as nat) == decimal((m / 10) as nat) + seq![digit_char((m % 10) as nat)]
                || m < 10);
            if m >= 10 {
                assert(decimal(m as nat) + old_acc =~= decimal((m / 10) as nat) + acc@);
            } else {
                assert(decimal(m as nat) + old_acc =~= acc@);
            }
        }
        m = m / 10;
    }
    acc
}

/// Whether `c` has the Unicode `White_Space` property, which is what
/// `char::is_whitespace` tests: the 25 code points listed in the Unicode
/// Character Database (PropList.txt).
pub open spec fn char_is_whitespace(c: char) -> bool {
    let n = c as u32;
    ||| 0x9 <= n <= 0xD
    ||| n == 0x20
    ||| n == 0x85
    ||| n == 0xA0
    ||| n == 0x1680
    ||| 0x2000 <= n <= 0x200A
    ||| n == 0x2028
    ||| n == 0x2029
    ||| n == 0x202F
    ||| n == 0x205F
    ||| n == 0x3000
}

/// Whether `c` is whitespace, as `char::is_whitespace` decides.
pub fn is_whitespace(c: char) -> (res: bool)
    ensures
        res == char_is_whitespace(c),
{
    let n = c as u32;
    (0x9 <= n && n <= 0xD) || n == 0x20 || n == 0x85 || n == 0xA0 || n == 0x1680 || (0x2000 <= n
        && n <= 0x200A) || n == 0x2028 || n == 0x2029 || n == 0x202F || n == 0x205F || n == 0x3000
}

/// Number of leading whitespace characters of `s`.
pub open spec fn leading_ws(s: Seq<char>) -> nat
    decreases s.len(),
{
    if s.len() > 0 && char_is_whitespace(s[0]) {
        1 + leading_ws(s.drop_first())
    } else {
        0
    }
}

/// Number of trailing whitespace characters of `s`.
pub open spec fn trailing_ws(s: Seq<char>) -> nat
    decreases s.len(),
{
    if s.len() > 0 && char_is_whitespace(s.last()) {
        1 + trailing_ws(s.drop_last())
    } else {
        0
    }
}

/// `s` without its leading and trailing whitespace, as `str::trim` returns it.
pub open spec fn trimmed(s: Seq<char>) -> Seq<char> {
    let t = s.skip(leading_ws(s) as int);
    t.take(t.len() - trailing_ws(t))
}

/// `leading_ws` is the length of the longest all-whitespace prefix.
proof fn lemma_leading_ws(s: Seq<char>, k: nat)
    requires
        k <= s.len(),
        forall|i: int| 0 <= i < k ==> char_is_whitespace(#[trigger] s[i]),
        k == s.len() || !char_is_whitespace(s[k as int]),
    ensures
        leading_ws(s) == k,
    decreases k,
{
    if k > 0 {
        let r = s.drop_first();
        assert forall|i: int| 0 <= i < k - 1 implies char_is_whitespace(#[trigger] r[i]) by {
            assert(r[i] == s[i + 1]);
        }
        if k < s.len() {
            assert(r[k - 1] == s[k as int]);
        }
        assert(char_is_whitespace(s[0]));
        lemma_leading_ws(r, (k - 1) as nat);
    }
}

/// `trailing_ws` is the length of the longest all-whitespace suffix.
proof fn lemma_trailing_ws(s: Seq<char>, k: nat)
    requires
        k <= s.len(),
        forall|i: int| s.len() - k <= i < s.len() ==> char_is_whitespace(#[trigger] s[i]),
        k == s.len() || !char_is_whitespace(s[s.len() - 1 - k]),
    ensures
        trailing_ws(s) == k,
    decreases k,
{
    if k > 0 {
        let r = s.drop_last();
        assert forall|i: int| r.len() - (k - 1) <= i < r.len() implies char_is_whitespace(
            #[trigger] r[i],
        ) by {
            assert(r[i] == s[i]);
        }
        if k < s.len() {
            assert(r[r.len() - 1 - (k - 1)] == s[s.len() - 1 - k]);
        }
        assert(char_is_whitespace(s[s.len() - 1]));
        lemma_trailing_ws(r, (k - 1) as nat);
    }
}

/// Returns `s` without leading and trailing whitespace, as `str::trim` does.
pub fn trim(s: &str) -> (res: String)
    ensures
        res@ == trimmed(s@),
{
    let n = s.unicode_len();
    let mut start: usize = 0;
    while start < n && is_whitespace(s.get_char(start))
        invariant
            n == s@.len(),
            start <= n,
            forall|i: int| 0 <= i < start ==> char_is_whitespace(#[trigger] s@[i]),
        decreases n - start,
    {
        start = start + 1;
    }
    proof {
        lemma_leading_ws(s@, start as nat);
    }
    let ghost t = s@.skip(start as int);
    let mut end: usize = n;
    while end > start && is_whitespace(s.get_char(end - 1))
        invariant
            n == s@.len(),
            start <= end <= n,
            t == s@.skip(start as int),
            forall|i: int| end <= i < n ==> char_is_whitespace(#[trigger] s@[i]),
        decreases end - start,
    {
        end = end - 1;
    }
    proof {
        assert forall|i: int| t.len() - (n - end) <= i < t.len() implies char_is_whitespace(
            #[trigger] t[i],
        ) by {
            assert(t[i] == s@[i + start]);
        }
        if end > start {
            assert(t[t.len() - 1 - (n - end)] == s@[end - 1]);
        }
        lemma_trailing_ws(t, (n - end) as nat);
        assert(trimmed(s@) =~= s@.subrange(start as int, end as int));
    }
    s.substring_char(start, end).to_owned()
}

/// Whether `c` is one of the ASCII digits `0`..`9`.
pub open spec fn is_digit(c: char) -> bool {
    '0' <= c && c <= '9'
}

/// The number that a string of decimal digits denotes, most significant
/// digit first.
pub open spec fn digits_value(s: Seq<char>) -> int
    decreases s.len(),
{
    if s.len() == 0 {
        0
    } else {
        digits_value(s.drop_last()) * 10 + (s.last() as int - '0' as int)
    }
}

/// The digit character of `d` is the `d`-th character after `0`.
pub proof fn lemma_digit_char(d: nat)
    requires
        d < 10,
    ensures
        digit_char(d) as nat == '0' as nat + d,
        is_digit(digit_char(d)),
{
}

/// `decimal(n)` is the base-10 rendering of `n`: a non-empty string of
/// digits, without a leading zero unless `n` is zero, that denotes `n`.
pub proof fn lemma_decimal_is_base_ten(n: nat)
    ensures
        decimal(n).len() > 0,
        forall|i: int| 0 <= i < decimal(n).len() ==> is_digit(#[trigger] decimal(n)[i]),
        digits_value(decimal(n)) == n,
        n > 0 ==> decimal(n)[0] != '0',
        n == 0 ==> decimal(n) == seq!['0'],
    decreases n,
{
    if n < 10 {
        lemma_digit_char(n);
        assert(decimal(n).drop_last() =~= Seq::<char>::empty());
        assert(digits_value(Seq::<char>::empty()) == 0);
    } else {
        lemma_decimal_is_base_ten(n / 10);
        lemma_digit_char(n % 10);
        let d = decimal(n);
        assert(d.drop_last() =~= decimal(n / 10));
        assert(d.last() == digit_char(n % 10));
        assert(digits_value(d) == (n / 10) as int * 10 + (n % 10) as int);
        assert((n / 10) as int * 10 + (n % 10) as int == n) by (nonlinear_arith);
        assert forall|i: int| 0 <= i < d.len() implies is_digit(#[trigger] d[i]) by {
            if i < d.len() - 1 {
                assert(d[i] == decimal(n / 10)[i]);
            }
        }
        assert(d[0] == decimal(n / 10)[0]);
    }
}

/// `trimmed(s)` is the part of `s` between its leading and its trailing
/// whitespace: a contiguous piece of `s`, with nothing but whitespace before
/// and after it, that neither starts nor ends with whitespace. No character
/// inside is dropped.
pub proof fn lemma_trimmed_is_inner_part(s: Seq<char>)
    ensures
        exists|a: int, b: int|
            {
                &&& 0 <= a <= b <= s.len()
                &&& trimmed(s) == s.subrange(a, b)
                &&& forall|i: int| 0 <= i < a ==> char_is_whitespace(#[trigger] s[i])
                &&& forall|i: int| b <= i < s.len() ==> char_is_whitespace(#[trigger] s[i])
                &&& a < b ==> !char_is_whitespace(s[a]) && !char_is_whitespace(s[b - 1])
            },
{
    lemma_leading_ws_props(s);
    let a = leading_ws(s) as int;
    let t = s.skip(a);
    lemma_trailing_ws_props(t);
    let b = a + t.len() - trailing_ws(t);
    assert(trimmed(s) =~= s.subrange(a, b));
    assert forall|i: int| b <= i < s.len() implies char_is_whitespace(#[trigger] s[i]) by {
        assert(s[i] == t[i - a]);
    }
    if a < b {
        assert(s[a] == t[0]);
        assert(s[b - 1] == t[t.len() - trailing_ws(t) - 1]);
        if a == b - 1 {
        }
    }
    assert(0 <= a <= b <= s.len());
}

/// A string without surrounding whitespace is its own trimmed form.
pub proof fn lemma_trimmed_keeps_clean_string(s: Seq<char>)
    requires
        s.len() > 0,
        !char_is_whitespace(s[0]),
        !char_is_whitespace(s.last()),
    ensures
        trimmed(s) == s,
{
    lemma_leading_ws(s, 0);
    assert(s.skip(0) =~= s);
    lemma_trailing_ws(s, 0);
    assert(s.take(s.len() as int) =~= s);
}

/// What `leading_ws` counts: a whitespace prefix followed by a
/// non-whitespace character or the end.
proof fn lemma_leading_ws_props(s: Seq<char>)
    ensures
        leading_ws(s) <= s.len(),
        forall|i: int| 0 <= i < leading_ws(s) ==> char_is_whitespace(#[trigger] s[i]),
        leading_ws(s) < s.len() ==> !char_is_whitespace(s[leading_ws(s) as int]),
    decreases s.len(),
{
    if s.len() > 0 && char_is_whitespace(s[0]) {
        let r = s.drop_first();
        lemma_leading_ws_props(r);
        assert forall|i: int| 0 <= i < leading_ws(s) implies char_is_whitespace(#[trigger] s[i]) by {
            if i > 0 {
                assert(s[i] == r[i - 1]);
            }
        }
        if leading_ws(s) < s.len() {
            assert(s[leading_ws(s) as int] == r[leading_ws(r) as int]);
        }
    }
}

/// What `trailing_ws` counts: a whitespace suffix preceded by a
/// non-whitespace character or the start.
proof fn lemma_trailing_ws_props(s: Seq<char>)
    ensures
        trailing_ws(s) <= s.len(),
        forall|i: int| s.len() - trailing_ws(s) <= i < s.len() ==> char_is_whitespace(#[trigger] s[i]),
        trailing_ws(s) < s.len() ==> !char_is_whitespace(s[s.len() - trailing_ws(s) - 1]),
    decreases s.len(),
{
    if s.len() > 0 && char_is_whitespace(s.last()) {
        let r = s.drop_last();
        lemma_trailing_ws_props(r);
        assert forall|i: int| s.len() - trailing_ws(s) <= i < s.len() implies char_is_whitespace(
            #[trigger] s[i],
        ) by {
            if i < s.len() - 1 {
                assert(s[i] == r[i]);
            }
        }
        if trailing_ws(s) < s.len() {
            assert(s[s.len() - trailing_ws(s) - 1] == r[r.len() - trailing_ws(r) - 1]);
        }
    }
}

} // verus!
