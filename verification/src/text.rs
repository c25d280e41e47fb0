//! Text building blocks with exact specifications: decimal rendering of
//! integers, upper-case hexadecimal bytes, removal of every occurrence of a
//! pattern, and splitting on a single separator.

use vstd::prelude::*;

verus! {

/// The ASCII digit for a value below ten.
pub open spec fn digit_char(d: nat) -> char {
    if d == 0 { '0' }
    else if d == 1 { '1' }
    else if d == 2 { '2' }
    else if d == 3 { '3' }
    else if d == 4 { '4' }
    else if d == 5 { '5' }
    else if d == 6 { '6' }
    else if d == 7 { '7' }
    else if d == 8 { '8' }
    else { '9' }
}

/// Whether a character is an ASCII decimal digit.
pub open spec fn is_digit(c: char) -> bool {
    '0' <= c && c <= '9'
}

/// The decimal rendering of a natural number, as `to_string` prints it:
/// most significant digit first, no leading zero.
pub open spec fn decimal(n: nat) -> Seq<char>
    decreases n,
{
    if n < 10 {
        seq![digit_char(n)]
    } else {
        decimal(n / 10).push(digit_char(n % 10))
    }
}

/// Every character of a decimal rendering is a digit, and it is never empty.
pub proof fn lemma_decimal_digits(n: nat)
    ensures
        decimal(n).len() >= 1,
        forall|i: int| 0 <= i < decimal(n).len() ==> is_digit(#[trigger] decimal(n)[i]),
    decreases n,
{
    if n >= 10 {
        lemma_decimal_digits(n / 10);
    }
}

proof fn lemma_digit_char_injective(a: nat, b: nat)
    requires
        a < 10,
        b < 10,
        digit_char(a) == digit_char(b),
    ensures
        a == b,
{
}

/// Two numbers with the same decimal rendering are equal.
pub proof fn lemma_decimal_injective(a: nat, b: nat)
    requires
        decimal(a) == decimal(b),
    ensures
        a == b,
    decreases a + b,
{
    if a < 10 && b < 10 {
        assert(decimal(a) == seq![digit_char(a)]);
        assert(decimal(b) == seq![digit_char(b)]);
        assert(decimal(a)[0] == digit_char(a));
        assert(decimal(b)[0] == digit_char(b));
        lemma_digit_char_injective(a, b);
    } else if a < 10 {
        lemma_decimal_digits(b / 10);
        assert(decimal(b).len() >= 2);
    } else if b < 10 {
        lemma_decimal_digits(a / 10);
        assert(decimal(a).len() >= 2);
    } else {
        let da = decimal(a);
        let db = decimal(b);
        assert(da.last() == digit_char(a % 10));
        assert(db.last() == digit_char(b % 10));
        lemma_digit_char_injective(a % 10, b % 10);
        assert(da.drop_last() =~= decimal(a / 10));
        assert(db.drop_last() =~= decimal(b / 10));
        lemma_decimal_injective(a / 10, b / 10);
    }
}

fn digit_str(d: u64) -> (s: &'static str)
    requires
        d < 10,
    ensures
        s@ == seq![digit_char(d as nat)],
{
    proof {
        reveal_strlit("0");
        reveal_strlit("1");
        reveal_strlit("2");
        reveal_strlit("3");
        reveal_strlit("4");
        reveal_strlit("5");
        reveal_strlit("6");
        reveal_strlit("7");
        reveal_strlit("8");
        reveal_strlit("9");
    }
    if d == 0 { "0" }
    else if d == 1 { "1" }
    else if d == 2 { "2" }
    else if d == 3 { "3" }
    else if d == 4 { "4" }
    else if d == 5 { "5" }
    else if d == 6 { "6" }
    else if d == 7 { "7" }
    else if d == 8 { "8" }
    else { "9" }
}

/// Appends the decimal rendering of `n` to `out`.
pub fn push_decimal(out: &mut String, n: u64)
    ensures
        final(out)@ == old(out)@ + decimal(n as nat),
    decreases n,
{
    if n < 10 {
        out.append(digit_str(n));
    } else {
        push_decimal(out, n / 10);
        out.append(digit_str(n % 10));
    }
}

/// The decimal rendering of `n`.
pub fn u64_to_decimal(n: u64) -> (res: String)
    ensures
        res@ == decimal(n as nat),
{
    let mut res = String::new();
    push_decimal(&mut res, n);
    assert(res@ =~= decimal(n as nat));
    res
}

/// The upper-case hexadecimal digit for a value below sixteen.
pub open spec fn hex_digit(d: nat) -> char {
    if d < 10 {
        digit_char(d)
    } else if d == 10 { 'A' }
    else if d == 11 { 'B' }
    else if d == 12 { 'C' }
    else if d == 13 { 'D' }
    else if d == 14 { 'E' }
    else { 'F' }
}

/// A byte as two upper-case hexadecimal digits, as `{:02X}` prints it.
pub open spec fn hex_byte(b: u8) -> Seq<char> {
    seq![hex_digit((b / 16) as nat), hex_digit((b % 16) as nat)]
}

fn hex_digit_char(d: u8) -> (c: char)
    requires
        d < 16,
    ensures
        c == hex_digit(d as nat),
{
    if d == 0 { '0' }
    else if d == 1 { '1' }
    else if d == 2 { '2' }
    else if d == 3 { '3' }
    else if d == 4 { '4' }
    else if d == 5 { '5' }
    else if d == 6 { '6' }
    else if d == 7 { '7' }
    else if d == 8 { '8' }
    else if d == 9 { '9' }
    else if d == 10 { 'A' }
    else if d == 11 { 'B' }
    else if d == 12 { 'C' }
    else if d == 13 { 'D' }
    else if d == 14 { 'E' }
    else { 'F' }
}

/// Appends the two hexadecimal digits of `b` to `out`.
pub fn push_hex_byte(out: &mut Vec<char>, b: u8)
    ensures
        final(out)@ == old(out)@ + hex_byte(b),
{
    out.push(hex_digit_char(b / 16));
    out.push(hex_digit_char(b % 16));
    assert(out@ =~= old(out)@ + hex_byte(b));
}

/// Builds a `String` from a sequence of characters.
#[verifier::external_body]
pub(crate) fn string_from_chars(chars: &Vec<char>) -> (res: String)
    ensures
        res@ == chars@,
{
    chars.iter().collect::<String>()
}

/// A copy of a vector of strings.
pub fn clone_strings(v: &Vec<String>) -> (res: Vec<String>)
    ensures
        res.deep_view() == v.deep_view(),
{
    let mut res: Vec<String> = Vec::new();
    let mut i: usize = 0;
    while i < v.len()
        invariant
            i <= v.len(),
            res.deep_view() =~= v.deep_view().subrange(0, i as int),
            res@.len() == i,
        decreases v.len() - i,
    {
        let c = v[i].clone();
        proof {
            assert(c@ == v.deep_view()[i as int]);
        }
        let ghost prev = res@;
        res.push(c);
        assert forall|j: int| 0 <= j <= i implies res.deep_view()[j] == v.deep_view()[j] by {
            if j < i {
                assert(res@[j] == prev[j]);
                assert(prev[j]@ == v.deep_view().subrange(0, i as int)[j]);
            }
        }
        assert(res.deep_view() =~= v.deep_view().subrange(0, i + 1));
        i = i + 1;
    }
    res
}

/// The characters of a string, in order.
pub fn chars_of(s: &str) -> (res: Vec<char>)
    ensures
        res@ == s@,
{
    let n = s.unicode_len();
    let mut res: Vec<char> = Vec::new();
    let mut i: usize = 0;
    while i < n
        invariant
            n == s@.len(),
            i <= n,
            res@ =~= s@.subrange(0, i as int),
        decreases n - i,
    {
        res.push(s.get_char(i));
        i = i + 1;
    }
    res
}

/// `s` with every occurrence of the non-empty pattern `p` removed, the
/// occurrences found from left to right without overlap, as
/// `str::replace(p, "")` does.
pub open spec fn remove_all(s: Seq<char>, p: Seq<char>) -> Seq<char>
    decreases s.len(),
{
    if p.len() == 0 || s.len() < p.len() {
        s
    } else if s.subrange(0, p.len() as int) == p {
        remove_all(s.subrange(p.len() as int, s.len() as int), p)
    } else {
        seq![s[0]] + remove_all(s.subrange(1, s.len() as int), p)
    }
}

fn matches_at(chars: &Vec<char>, pat: &Vec<char>, i: usize) -> (res: bool)
    requires
        i + pat@.len() <= chars@.len(),
    ensures
        res == (chars@.subrange(i as int, i + pat@.len()) == pat@),
{
    let m = pat.len();
    let mut j: usize = 0;
    while j < m
        invariant
            m == pat@.len(),
            i + m <= chars.len(),
            j <= m,
            forall|x: int| 0 <= x < j ==> chars@[i + x] == pat@[x],
        decreases m - j,
    {
        if chars[i + j] != pat[j] {
            assert(chars@.subrange(i as int, i + m)[j as int] != pat@[j as int]);
            return false;
        }
        j = j + 1;
    }
    assert(chars@.subrange(i as int, i + m) =~= pat@);
    true
}

/// `s` begins with `p`.
pub open spec fn has_prefix(s: Seq<char>, p: Seq<char>) -> bool {
    p.len() <= s.len() && s.subrange(0, p.len() as int) == p
}

/// Whether `s` begins with `p` (`str::starts_with`).
pub fn starts_with(s: &str, p: &str) -> (res: bool)
    ensures
        res == has_prefix(s@, p@),
{
    let chars = chars_of(s);
    let pchars = chars_of(p);
    if pchars.len() > chars.len() {
        return false;
    }
    matches_at(&chars, &pchars, 0)
}

/// `s` with every occurrence of `pat` removed (`s.replace(pat, "")`).
pub fn remove_all_occurrences(s: &str, pat: &str) -> (res: String)
    ensures
        res@ == remove_all(s@, pat@),
{
    let chars = chars_of(s);
    let pchars = chars_of(pat);
    let n = chars.len();
    let m = pchars.len();
    if m == 0 {
        return s.to_owned();
    }
    let mut out: Vec<char> = Vec::new();
    let mut i: usize = 0;
    assert(chars@.subrange(0, n as int) =~= s@);
    assert(out@ + s@ =~= s@);
    while i < n
        invariant
            n == chars@.len(),
            chars@ == s@,
            pchars@ == pat@,
            m == pchars@.len(),
            m > 0,
            i <= n,
            out@ + remove_all(chars@.subrange(i as int, n as int), pat@) == remove_all(s@, pat@),
        decreases n - i,
    {
        let rest = Ghost(chars@.subrange(i as int, n as int));
        if m <= n - i && matches_at(&chars, &pchars, i) {
            proof {
                assert(rest@.subrange(0, m as int) =~= chars@.subrange(i as int, i + m));
                assert(rest@.subrange(m as int, rest@.len() as int) =~= chars@.subrange(i + m, n as int));
            }
            i = i + m;
        } else {
            proof {
                if i + m <= n {
                    assert(rest@.subrange(0, m as int) =~= chars@.subrange(i as int, i + m));
                }
                assert(rest@.subrange(1, rest@.len() as int) =~= chars@.subrange(i + 1, n as int));
                assert(rest@[0] == chars@[i as int]);
                assert(out@.push(chars@[i as int]) + remove_all(chars@.subrange(i + 1, n as int), pat@)
                    =~= out@ + (seq![rest@[0]] + remove_all(rest@.subrange(1, rest@.len() as int), pat@)));
            }
            out.push(chars[i]);
            i = i + 1;
        }
    }
    proof {
        assert(chars@.subrange(n as int, n as int) =~= Seq::<char>::empty());
        assert(out@ + Seq::<char>::empty() =~= out@);
    }
    string_from_chars(&out)
}

/// `c` occurs exactly once in `s`.
pub open spec fn occurs_once(s: Seq<char>, c: char) -> bool {
    exists|k: int|
        #![trigger s[k]]
        0 <= k < s.len() && s[k] == c && forall|j: int| 0 <= j < s.len() && j != k ==> s[j] != c
}

/// Splits `s` around its separator `sep` when `sep` occurs exactly once,
/// which is when `s.split(sep)` yields exactly two parts.
pub fn split_once_exact(s: &str, sep: char) -> (res: Option<(String, String)>)
    ensures
        res is Some <==> occurs_once(s@, sep),
        res matches Some((a, b)) ==> {
            &&& s@ == a@ + seq![sep] + b@
            &&& !a@.contains(sep)
            &&& !b@.contains(sep)
        },
{
    let chars = chars_of(s);
    let n = chars.len();
    let mut seen: usize = 0;
    let mut first: usize = 0;
    let mut second: usize = 0;
    let mut i: usize = 0;
    while i < n
        invariant
            n == chars@.len(),
            chars@ == s@,
            i <= n,
            seen <= 2,
            seen == 0 ==> forall|j: int| 0 <= j < i ==> chars@[j] != sep,
            seen >= 1 ==> first < i && chars@[first as int] == sep,
            seen >= 1 ==> forall|j: int| 0 <= j < first ==> chars@[j] != sep,
            seen == 1 ==> forall|j: int| first < j < i ==> chars@[j] != sep,
            seen == 2 ==> first < second < i && chars@[second as int] == sep,
        decreases n - i,
    {
        if chars[i] == sep {
            if seen == 0 {
                first = i;
                seen = 1;
            } else if seen == 1 {
                second = i;
                seen = 2;
            }
        }
        i = i + 1;
    }
    if seen == 1 {
        let mut a: Vec<char> = Vec::new();
        let mut j: usize = 0;
        while j < first
            invariant
                first < n,
                n == chars@.len(),
                j <= first,
                a@ =~= chars@.subrange(0, j as int),
            decreases first - j,
        {
            a.push(chars[j]);
            j = j + 1;
        }
        let mut b: Vec<char> = Vec::new();
        let mut k: usize = first + 1;
        while k < n
            invariant
                first < n,
                n == chars@.len(),
                first + 1 <= k <= n,
                b@ =~= chars@.subrange(first + 1, k as int),
            decreases n - k,
        {
            b.push(chars[k]);
            k = k + 1;
        }
        let sa = string_from_chars(&a);
        let sb = string_from_chars(&b);
        proof {
            assert(chars@ =~= a@ + seq![sep] + b@);
            assert(occurs_once(s@, sep)) by {
                assert(s@[first as int] == sep);
            }
            assert forall|x: int| 0 <= x < a@.len() implies a@[x] != sep by {
                assert(a@[x] == chars@[x]);
            }
            assert forall|x: int| 0 <= x < b@.len() implies b@[x] != sep by {
                assert(b@[x] == chars@[first + 1 + x]);
            }
        }
        Some((sa, sb))
    } else {
        proof {
            if occurs_once(s@, sep) {
                let k = choose|k: int|
                    #![trigger s@[k]]
                    0 <= k < s@.len() && s@[k] == sep && forall|j: int|
                        0 <= j < s@.len() && j != k ==> s@[j] != sep;
                if seen == 0 {
                    assert(chars@[k] == sep);
                } else if k != first {
                    assert(s@[first as int] == sep);
                } else {
                    assert(s@[second as int] == sep);
                }
            }
        }
        None
    }
}

} // verus!
