//! Text helpers: literal find-and-replace, decimal rendering, and comparison of strings.
use vstd::prelude::*;
use vstd::string::*;

verus! {

/// `s` with each occurrence of `pat`, found scanning left to right without overlap, replaced
/// by `rep`. An empty pattern leaves `s` unchanged.
pub open spec fn replaced(s: Seq<char>, pat: Seq<char>, rep: Seq<char>) -> Seq<char>
    decreases s.len(),
{
    if s.len() == 0 || pat.len() == 0 {
        s
    } else if pat.len() <= s.len() && s.subrange(0, pat.len() as int) == pat {
        rep + replaced(s.subrange(pat.len() as int, s.len() as int), pat, rep)
    } else {
        seq![s[0]] + replaced(s.subrange(1, s.len() as int), pat, rep)
    }
}

/// The character of a decimal digit.
pub open spec fn digit_char(d: nat) -> char {
    if d == 0 {
        '0'
    } else if d == 1 {
        '1'
    } else if d == 2 {
        '2'
    } else if d == 3 {
        '3'
    } else if d == 4 {
        '4'
    } else if d == 5 {
        '5'
    } else if d == 6 {
        '6'
    } else if d == 7 {
        '7'
    } else if d == 8 {
        '8'
    } else {
        '9'
    }
}

/// The decimal representation of `n`, without leading zeros.
pub open spec fn decimal(n: nat) -> Seq<char>
    decreases n,
{
    if n < 10 {
        seq![digit_char(n)]
    } else {
        decimal(n / 10).push(digit_char(n % 10))
    }
}

/// A length in thousandths shown in units with one decimal, rounding halves up.
pub open spec fn one_decimal(thousandths: nat) -> Seq<char> {
    let tenths = (thousandths + 50) / 100;
    decimal(tenths / 10) + seq!['.', digit_char(tenths % 10)]
}

/// Whether two strings hold the same characters.
pub fn same_text(a: &str, b: &str) -> (r: bool)
    ensures
        r == (a@ == b@),
{
    let n = a.unicode_len();
    if n != b.unicode_len() {
        return false;
    }
    let mut i: usize = 0;
    while i < n
        invariant
            n == a@.len(),
            n == b@.len(),
            i <= n,
            forall|j: int| 0 <= j < i ==> a@[j] == b@[j],
        decreases n - i,
    {
        if a.get_char(i) != b.get_char(i) {
            return false;
        }
        i = i + 1;
    }
    assert(a@ =~= b@);
    true
}

/// Whether `pat` occurs in `s` at character position `i`.
fn occurs_at(s: &str, i: usize, pat: &str) -> (r: bool)
    requires
        i + pat@.len() <= s@.len(),
        s@.len() <= usize::MAX,
    ensures
        r == (s@.subrange(i as int, i + pat@.len()) == pat@),
{
    let k = pat.unicode_len();
    let mut j: usize = 0;
    while j < k
        invariant
            k == pat@.len(),
            i + k <= s@.len(),
            s@.len() <= usize::MAX,
            j <= k,
            forall|l: int| 0 <= l < j ==> s@[i + l] == pat@[l],
        decreases k - j,
    {
        if s.get_char(i + j) != pat.get_char(j) {
            assert(s@.subrange(i as int, i + k)[j as int] != pat@[j as int]);
            return false;
        }
        j = j + 1;
    }
    assert(s@.subrange(i as int, i + k) =~= pat@);
    true
}

/// Replaces every occurrence of `pat` in `s` by `rep`, scanning left to right.
pub fn replace_all(s: &str, pat: &str, rep: &str) -> (r: String)
    ensures
        r@ == replaced(s@, pat@, rep@),
{
    let n = s.unicode_len();
    let k = pat.unicode_len();
    if k == 0 {
        return String::from_str(s);
    }
    let mut out = String::new();
    let mut i: usize = 0;
    assert(s@.subrange(0, n as int) =~= s@);
    while i < n
        invariant
            n == s@.len(),
            k == pat@.len(),
            0 < k,
            i <= n,
            out@ + replaced(s@.subrange(i as int, n as int), pat@, rep@) == replaced(s@, pat@, rep@),
        decreases n - i,
    {
        let ghost t = s@.subrange(i as int, n as int);
        if k <= n - i && occurs_at(s, i, pat) {
            assert(t.subrange(0, k as int) =~= s@.subrange(i as int, i + k));
            assert(t.subrange(k as int, t.len() as int) =~= s@.subrange(i + k, n as int));
            out.append(rep);
            i = i + k;
        } else {
            assert(k <= t.len() ==> t.subrange(0, k as int) =~= s@.subrange(i as int, i + k));
            assert(t.subrange(1, t.len() as int) =~= s@.subrange(i + 1, n as int));
            let one = s.substring_char(i, i + 1);
            assert(one@ =~= seq![t[0]]);
            out.append(one);
            i = i + 1;
        }
    }
    assert(s@.subrange(n as int, n as int) =~= Seq::<char>::empty());
    assert(out@ + Seq::<char>::empty() =~= out@);
    out
}

/// The one-character string of a decimal digit.
fn digit_str(d: u64) -> (r: &'static str)
    requires
        d < 10,
    ensures
        r@ == seq![digit_char(d as nat)],
{
    proof {
        reveal_strlit("0");
        reveal_strlit("1");
        reveal_strlit("2");
        reveal_strlit("3");
        reveal_strlit("4");
        reveal_strlit("5");
        reveal_strlit("6");
        reveal_strlit("7");
        reveal_strlit("8");
        reveal_strlit("9");
    }
    let r = if d == 0 {
        "0"
    } else if d == 1 {
        "1"
    } else if d == 2 {
        "2"
    } else if d == 3 {
        "3"
    } else if d == 4 {
        "4"
    } else if d == 5 {
        "5"
    } else if d == 6 {
        "6"
    } else if d == 7 {
        "7"
    } else if d == 8 {
        "8"
    } else {
        "9"
    };
    assert(r@ =~= seq![digit_char(d as nat)]);
    r
}

/// The decimal representation of `n`.
pub fn decimal_string(n: u64) -> (r: String)
    ensures
        r@ == decimal(n as nat),
{
    let mut out = String::from_str(digit_str(n % 10));
    let mut m: u64 = n / 10;
    assert(decimal(n as nat) == (if m == 0 {
        Seq::<char>::empty()
    } else {
        decimal(m as nat)
    }) + out@) by {
        if m == 0 {
            assert(decimal(n as nat) =~= Seq::<char>::empty() + out@);
        } else {
            assert(decimal(n as nat) =~= decimal(m as nat) + out@);
        }
    }
    while m > 0
        invariant
            decimal(n as nat) == (if m == 0 {
                Seq::<char>::empty()
            } else {
                decimal(m as nat)
            }) + out@,
        decreases m,
    {
        let d = digit_str(m % 10);
        let ghost old_out = out@;
        out = String::from_str(d).concat(out.as_str());
        proof {
            if m < 10 {
                assert(decimal(m as nat) =~= seq![digit_char((m % 10) as nat)]);
                assert(Seq::<char>::empty() + out@ =~= decimal(m as nat) + old_out);
            } else {
                assert(decimal(m as nat) + old_out =~= decimal((m / 10) as nat) + out@);
            }
        }
        m = m / 10;
    }
    assert(Seq::<char>::empty() + out@ =~= out@);
    out
}

/// A length in thousandths, shown in whole units with one decimal (halves round up).
pub fn one_decimal_string(thousandths: u64) -> (r: String)
    ensures
        r@ == one_decimal(thousandths as nat),
{
    let tenths: u64 = ((thousandths as u128 + 50) / 100) as u64;
    let whole = decimal_string(tenths / 10);
    let dot = String::from_str(".");
    let digit = digit_str(tenths % 10);
    proof {
        reveal_strlit(".");
    }
    let tail = dot.concat(digit);
    let r = whole.concat(tail.as_str());
    assert(r@ =~= one_decimal(thousandths as nat));
    r
}

/// What `str::to_lowercase` returns for a string.
pub uninterp spec fn lowercase_of(s: Seq<char>) -> Seq<char>;

/// Every character is ASCII.
pub open spec fn all_ascii(s: Seq<char>) -> bool {
    forall|i: int| 0 <= i < s.len() ==> (s[i] as u32) < 128
}

/// The code of an ASCII character after folding upper case to lower case.
pub open spec fn ascii_fold(c: char) -> u32 {
    if 65 <= (c as u32) <= 90 {
        (c as u32 + 32) as u32
    } else {
        c as u32
    }
}

/// `t` is `s` with its ASCII upper-case letters made lower case.
pub open spec fn is_ascii_lowered(s: Seq<char>, t: Seq<char>) -> bool {
    t.len() == s.len() && forall|i: int| 0 <= i < s.len() ==> (t[i] as u32) == ascii_fold(s[i])
}

/// Relies on `str::to_lowercase`: the result depends on the characters alone; on ASCII
/// text it maps `A`..`Z` to `a`..`z` and keeps every other character.
#[verifier::external_body]
pub(crate) fn lowercase(s: &str) -> (r: String)
    ensures
        r@ == lowercase_of(s@),
        all_ascii(s@) ==> is_ascii_lowered(s@, r@),
{
    s.to_lowercase()
}

/// Two ASCII strings that agree up to letter case lower to the same string.
pub proof fn lemma_ascii_lowered_agree(a: Seq<char>, b: Seq<char>, la: Seq<char>, lb: Seq<char>)
    requires
        a.len() == b.len(),
        forall|i: int| 0 <= i < a.len() ==> ascii_fold(a[i]) == ascii_fold(b[i]),
        is_ascii_lowered(a, la),
        is_ascii_lowered(b, lb),
    ensures
        la == lb,
{
    assert forall|i: int| 0 <= i < la.len() implies la[i] == lb[i] by {
        assert((la[i] as u32) == (lb[i] as u32));
        vstd::utf8::char_u32_cast(la[i], la[i] as u32);
        vstd::utf8::char_u32_cast(lb[i], lb[i] as u32);
    }
    assert(la =~= lb);
}

/// What `str::trim` returns for a string.
pub uninterp spec fn trimmed_of(s: Seq<char>) -> Seq<char>;

/// Relies on `str::trim`: the text without its leading and trailing white space; the result
/// depends on the characters alone.
#[verifier::external_body]
pub(crate) fn trim(s: &str) -> (r: &str)
    ensures
        r@ == trimmed_of(s@),
{
    s.trim()
}

/// The decimal representation of a signed integer.
pub open spec fn signed_decimal(v: int) -> Seq<char> {
    if v < 0 {
        "-"@ + decimal((-v) as nat)
    } else {
        decimal(v as nat)
    }
}

/// A signed length in thousandths, shown in whole units with one decimal.
pub open spec fn signed_one_decimal(v: int) -> Seq<char> {
    if v < 0 {
        "-"@ + one_decimal((-v) as nat)
    } else {
        one_decimal(v as nat)
    }
}

fn magnitude(v: i64) -> (r: u64)
    ensures
        r == if v < 0 {
            -v
        } else {
            v as int
        },
{
    if v < 0 {
        (0 - (v as i128)) as u64
    } else {
        v as u64
    }
}

/// The decimal representation of `v`, with a leading minus sign when negative.
pub fn signed_decimal_string(v: i64) -> (r: String)
    ensures
        r@ == signed_decimal(v as int),
{
    let digits = decimal_string(magnitude(v));
    if v < 0 {
        String::from_str("-").concat(digits.as_str())
    } else {
        digits
    }
}

/// A signed length in thousandths, in whole units with one decimal.
pub fn signed_one_decimal_string(v: i64) -> (r: String)
    ensures
        r@ == signed_one_decimal(v as int),
{
    let digits = one_decimal_string(magnitude(v));
    if v < 0 {
        String::from_str("-").concat(digits.as_str())
    } else {
        digits
    }
}

/// `pat` occurs in `s` as a run of consecutive characters.
pub open spec fn occurs_in(s: Seq<char>, pat: Seq<char>) -> bool {
    exists|i: int| 0 <= i && i + pat.len() <= s.len() && #[trigger] s.subrange(i, i + pat.len()) == pat
}

/// Relies on `str::contains` with a string pattern: whether `pat` occurs in `s`.
#[verifier::external_body]
pub(crate) fn contains_text(s: &str, pat: &str) -> (r: bool)
    ensures
        r == occurs_in(s@, pat@),
{
    s.contains(pat)
}

} // verus!
