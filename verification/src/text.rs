//! Character-level string helpers with their specifications.

use vstd::prelude::*;
use vstd::string::*;

verus! {

/// Appends one character to a string: `String::push`.
/// Trusted: the result's characters are the old ones followed by `c`,
/// as std documents for `push`.
#[verifier::external_body]
pub(crate) fn push_char(s: &mut String, c: char)
    ensures
        final(s)@ == old(s)@.push(c),
{
    s.push(c);
}

/// Name for the characters that `str::to_lowercase` gives back for a
/// string: its lowercase form under Unicode's case mapping. The mapping is
/// not written out here.
pub uninterp spec fn lowercase(s: Seq<char>) -> Seq<char>;

/// `s` holds ASCII characters only.
pub open spec fn ascii_only(s: Seq<char>) -> bool {
    forall|i: int| 0 <= i < s.len() ==> (#[trigger] s[i] as u32) < 128
}

/// `c` with an ASCII capital letter turned into its small letter.
pub open spec fn ascii_lower_char(c: char) -> char {
    if 'A' <= c <= 'Z' {
        ((c as u32) + 32) as char
    } else {
        c
    }
}

/// `s` with every ASCII capital letter turned into its small letter.
pub open spec fn ascii_lowercase(s: Seq<char>) -> Seq<char> {
    s.map_values(|c: char| ascii_lower_char(c))
}

/// The lowercase form of `s`: `str::to_lowercase`.
/// Trusted: its characters are `lowercase(s@)`. Of that mapping only what
/// Unicode's case mapping gives ASCII text is claimed: capital letters
/// become small letters and every other ASCII character stays.
#[verifier::external_body]
pub(crate) fn to_lowercase(s: &str) -> (r: String)
    ensures
        r@ == lowercase(s@),
        ascii_only(s@) ==> r@ == ascii_lowercase(s@),
{
    s.to_lowercase()
}

/// The character sequences of a sequence of string slices.
pub open spec fn str_views(v: Seq<&str>) -> Seq<Seq<char>> {
    v.map_values(|x: &str| x@)
}

/// The character sequences of a sequence of strings.
pub open spec fn views(v: Seq<String>) -> Seq<Seq<char>> {
    v.map_values(|x: String| x@)
}

/// The character sequence of an optional string.
pub open spec fn opt_view(o: Option<String>) -> Option<Seq<char>> {
    match o {
        Some(x) => Some(x@),
        None => None,
    }
}

/// Whether two string slices hold the same characters.
pub fn str_eq(a: &str, b: &str) -> (r: bool)
    ensures
        r == (a@ == b@),
{
    let n = a.unicode_len();
    let m = b.unicode_len();
    if n != m {
        return false;
    }
    let mut i: usize = 0;
    while i < n
        invariant
            n == a@.len(),
            m == b@.len(),
            n == m,
            i <= n,
            forall|j: int| 0 <= j < i ==> a@[j] == b@[j],
        decreases n - i,
    {
        if a.get_char(i) != b.get_char(i) {
            return false;
        }
        i = i + 1;
    }
    assert(a@ =~= b@);
    true
}

/// A copy of a string.
pub fn copy_string(s: &String) -> (r: String)
    ensures
        r@ == s@,
{
    s.clone()
}

/// A copy of an optional string.
pub fn copy_opt_string(s: &Option<String>) -> (r: Option<String>)
    ensures
        opt_view(r) == opt_view(*s),
{
    match s {
        Some(x) => Some(x.clone()),
        None => None,
    }
}

/// A copy of a list of strings.
pub fn copy_strings(v: &Vec<String>) -> (r: Vec<String>)
    ensures
        views(r@) == views(v@),
{
    let mut r: Vec<String> = Vec::new();
    let mut i: usize = 0;
    while i < v.len()
        invariant
            i <= v.len(),
            views(r@) == views(v@).take(i as int),
        decreases v.len() - i,
    {
        let c = copy_string(&v[i]);
        let ghost old_r = r@;
        r.push(c);
        assert(views(r@) =~= views(old_r).push(v@[i as int]@));
        i = i + 1;
        assert(views(r@) =~= views(v@).take(i as int));
    }
    assert(views(v@).take(i as int) =~= views(v@));
    r
}

/// The empty list of strings.
pub fn list0() -> (r: Vec<String>)
    ensures
        views(r@) == Seq::<Seq<char>>::empty(),
{
    let r: Vec<String> = Vec::new();
    assert(views(r@) =~= Seq::<Seq<char>>::empty());
    r
}

/// The strings of `v`, owned.
pub fn owned_strings(v: &Vec<&str>) -> (r: Vec<String>)
    ensures
        views(r@) == str_views(v@),
{
    let mut r: Vec<String> = Vec::new();
    let mut i: usize = 0;
    while i < v.len()
        invariant
            i <= v.len(),
            views(r@) == str_views(v@).take(i as int),
        decreases v.len() - i,
    {
        let ghost old_r = r@;
        r.push(String::from_str(v[i]));
        assert(views(r@) =~= views(old_r).push(v@[i as int]@));
        i = i + 1;
        assert(views(r@) =~= str_views(v@).take(i as int));
    }
    assert(str_views(v@).take(i as int) =~= str_views(v@));
    r
}

/// Whether `list` holds a string equal to `s`.
pub fn contains_string(list: &Vec<String>, s: &str) -> (b: bool)
    ensures
        b == views(list@).contains(s@),
{
    let mut i: usize = 0;
    while i < list.len()
        invariant
            i <= list.len(),
            forall|j: int| 0 <= j < i ==> list@[j]@ != s@,
        decreases list.len() - i,
    {
        if str_eq(list[i].as_str(), s) {
            assert(views(list@)[i as int] == s@);
            return true;
        }
        i = i + 1;
    }
    assert(!views(list@).contains(s@)) by {
        if views(list@).contains(s@) {
            let j = choose|j: int| 0 <= j < views(list@).len() && views(list@)[j] == s@;
            assert(list@[j]@ == s@);
        }
    }
    false
}

/// The list holding the strings `a`.
pub fn list1(a: &str) -> (r: Vec<String>)
    ensures
        views(r@) == seq![a@],
{
    let mut r: Vec<String> = Vec::new();
    r.push(String::from_str(a));
    assert(views(r@) =~= seq![a@]);
    r
}

/// The list holding the strings `a`, `b`.
pub fn list2(a: &str, b: &str) -> (r: Vec<String>)
    ensures
        views(r@) == seq![a@, b@],
{
    let mut r: Vec<String> = Vec::new();
    r.push(String::from_str(a));
    r.push(String::from_str(b));
    assert(views(r@) =~= seq![a@, b@]);
    r
}

/// The list holding the strings `a`, `b`, `c`.
pub fn list3(a: &str, b: &str, c: &str) -> (r: Vec<String>)
    ensures
        views(r@) == seq![a@, b@, c@],
{
    let mut r: Vec<String> = Vec::new();
    r.push(String::from_str(a));
    r.push(String::from_str(b));
    r.push(String::from_str(c));
    assert(views(r@) =~= seq![a@, b@, c@]);
    r
}

/// The empty list of string slices.
pub fn strs0<'a>() -> (r: Vec<&'a str>)
    ensures
        str_views(r@) == Seq::<Seq<char>>::empty(),
{
    let r: Vec<&'a str> = Vec::new();
    assert(str_views(r@) =~= Seq::<Seq<char>>::empty());
    r
}

/// The list holding the string slices `a`.
pub fn strs1<'a>(a: &'a str) -> (r: Vec<&'a str>)
    ensures
        str_views(r@) == seq![a@],
{
    let mut r: Vec<&'a str> = Vec::new();
    r.push(a);
    assert(str_views(r@) =~= seq![a@]);
    r
}

/// The list holding the string slices `a`, `b`.
pub fn strs2<'a>(a: &'a str, b: &'a str) -> (r: Vec<&'a str>)
    ensures
        str_views(r@) == seq![a@, b@],
{
    let mut r = strs1(a);
    let ghost old = r@;
    r.push(b);
    assert(str_views(r@) =~= str_views(old).push(b@));
    assert(str_views(r@) =~= seq![a@, b@]);
    r
}

/// The list holding the string slices `a`, `b`, `c`.
pub fn strs3<'a>(a: &'a str, b: &'a str, c: &'a str) -> (r: Vec<&'a str>)
    ensures
        str_views(r@) == seq![a@, b@, c@],
{
    let mut r = strs2(a, b);
    let ghost old = r@;
    r.push(c);
    assert(str_views(r@) =~= str_views(old).push(c@));
    assert(str_views(r@) =~= seq![a@, b@, c@]);
    r
}

/// The list holding the string slices `a`, `b`, `c`, `d`.
pub fn strs4<'a>(a: &'a str, b: &'a str, c: &'a str, d: &'a str) -> (r: Vec<&'a str>)
    ensures
        str_views(r@) == seq![a@, b@, c@, d@],
{
    let mut r = strs3(a, b, c);
    let ghost old = r@;
    r.push(d);
    assert(str_views(r@) =~= str_views(old).push(d@));
    assert(str_views(r@) =~= seq![a@, b@, c@, d@]);
    r
}

/// The list holding the string slices `a`, `b`, `c`, `d`, `e`.
pub fn strs5<'a>(a: &'a str, b: &'a str, c: &'a str, d: &'a str, e: &'a str) -> (r: Vec<&'a str>)
    ensures
        str_views(r@) == seq![a@, b@, c@, d@, e@],
{
    let mut r = strs4(a, b, c, d);
    let ghost old = r@;
    r.push(e);
    assert(str_views(r@) =~= str_views(old).push(e@));
    assert(str_views(r@) =~= seq![a@, b@, c@, d@, e@]);
    r
}

/// The characters of `s`, one per element.
pub fn chars_of(s: &str) -> (v: Vec<char>)
    ensures
        v@ == s@,
{
    let n = s.unicode_len();
    let mut v: Vec<char> = Vec::new();
    let mut i: usize = 0;
    while i < n
        invariant
            n == s@.len(),
            i <= n,
            v@ == s@.take(i as int),
        decreases n - i,
    {
        let c = s.get_char(i);
        v.push(c);
        i = i + 1;
        assert(v@ =~= s@.take(i as int));
    }
    assert(v@ =~= s@);
    v
}

/// The string made of the characters of `v`.
pub fn string_from_chars(v: &Vec<char>) -> (s: String)
    ensures
        s@ == v@,
{
    let mut s = String::new();
    let mut i: usize = 0;
    while i < v.len()
        invariant
            i <= v.len(),
            s@ == v@.take(i as int),
        decreases v.len() - i,
    {
        push_char(&mut s, v[i]);
        i = i + 1;
        assert(s@ =~= v@.take(i as int));
    }
    assert(s@ =~= v@);
    s
}

/// `pat` occurs in `s` starting at position `i`.
pub open spec fn occurs_at(s: Seq<char>, pat: Seq<char>, i: int) -> bool {
    0 <= i && i + pat.len() <= s.len() && s.subrange(i, i + pat.len()) == pat
}

/// `s` with every occurrence of the non-empty `pat` replaced by `to`,
/// matches taken from the left and never overlapping.
pub open spec fn replaced(s: Seq<char>, pat: Seq<char>, to: Seq<char>) -> Seq<char>
    decreases s.len(),
{
    if s.len() == 0 {
        seq![]
    } else if pat.len() > 0 && occurs_at(s, pat, 0) {
        to + replaced(s.skip(pat.len() as int), pat, to)
    } else {
        seq![s[0]] + replaced(s.skip(1), pat, to)
    }
}

/// Whether `pat` occurs in `s` at position `i` (vectors of characters).
pub fn occurs_at_exec(s: &Vec<char>, pat: &Vec<char>, i: usize) -> (b: bool)
    requires
        i <= s.len(),
    ensures
        b == occurs_at(s@, pat@, i as int),
{
    if pat.len() > s.len() - i {
        return false;
    }
    let mut k: usize = 0;
    while k < pat.len()
        invariant
            i + pat.len() <= s.len(),
            k <= pat.len(),
            forall|j: int| 0 <= j < k ==> s@[i + j] == pat@[j],
        decreases pat.len() - k,
    {
        if s[i + k] != pat[k] {
            assert(s@.subrange(i as int, i + pat.len())[k as int] != pat@[k as int]);
            return false;
        }
        k = k + 1;
    }
    assert(s@.subrange(i as int, i + pat.len()) =~= pat@);
    true
}

/// `s` with every occurrence of `pat` replaced by `to`, as `str::replace`
/// does for a non-empty pattern.
pub fn replace_all(s: &str, pat: &str, to: &str) -> (r: String)
    requires
        pat@.len() > 0,
    ensures
        r@ == replaced(s@, pat@, to@),
{
    let sv = chars_of(s);
    let pv = chars_of(pat);
    let tv = chars_of(to);
    let mut out: Vec<char> = Vec::new();
    let mut i: usize = 0;
    assert(s@.skip(0) =~= s@);
    assert(out@ + replaced(s@, pat@, to@) =~= replaced(s@, pat@, to@));
    while i < sv.len()
        invariant
            sv@ == s@,
            pv@ == pat@,
            tv@ == to@,
            pv@.len() > 0,
            i <= sv.len(),
            replaced(s@, pat@, to@) == out@ + replaced(s@.skip(i as int), pat@, to@),
        decreases sv.len() - i,
    {
        let ghost rest = s@.skip(i as int);
        if occurs_at_exec(&sv, &pv, i) {
            assert(rest.subrange(0, pat@.len() as int) =~= s@.subrange(i as int, i + pat@.len()));
            assert(rest.skip(pat@.len() as int) =~= s@.skip(i + pat@.len()));
            let mut k: usize = 0;
            let ghost before = out@;
            while k < tv.len()
                invariant
                    k <= tv.len(),
                    out@ == before + tv@.take(k as int),
                decreases tv.len() - k,
            {
                out.push(tv[k]);
                k = k + 1;
                assert(out@ =~= before + tv@.take(k as int));
            }
            assert(tv@.take(tv@.len() as int) =~= tv@);
            assert(out@ + replaced(s@.skip(i + pv@.len()), pat@, to@) =~= before + replaced(rest, pat@, to@));
            i = i + pv.len();
        } else {
            assert(!occurs_at(rest, pat@, 0)) by {
                if rest.len() >= pat@.len() {
                    assert(rest.subrange(0, pat@.len() as int) =~= s@.subrange(i as int, i + pat@.len()));
                }
            }
            assert(rest.skip(1) =~= s@.skip(i + 1));
            let ghost before = out@;
            out.push(sv[i]);
            assert(out@ + replaced(s@.skip(i + 1), pat@, to@) =~= before + replaced(rest, pat@, to@));
            i = i + 1;
        }
    }
    assert(s@.skip(i as int) =~= Seq::<char>::empty());
    assert(out@ + replaced(s@.skip(i as int), pat@, to@) =~= out@);
    string_from_chars(&out)
}

/// The decimal digit character for `d`.
pub open spec fn digit_char(d: int) -> char {
    if d == 0 { '0' }
    else if d == 1 { '1' }
    else if d == 2 { '2' }
    else if d == 3 { '3' }
    else if d == 4 { '4' }
    else if d == 5 { '5' }
    else if d == 6 { '6' }
    else if d == 7 { '7' }
    else if d == 8 { '8' }
    else { '9' }
}

/// The decimal digits of `n`, most significant first, without leading zeros.
pub open spec fn decimal_digits(n: nat) -> Seq<char>
    decreases n,
{
    if n < 10 {
        seq![digit_char(n as int)]
    } else {
        decimal_digits(n / 10).push(digit_char((n % 10) as int))
    }
}

/// The decimal form of `n`: a minus sign for a negative number, then its digits.
pub open spec fn decimal(n: int) -> Seq<char> {
    if n < 0 {
        seq!['-'] + decimal_digits((-n) as nat)
    } else {
        decimal_digits(n as nat)
    }
}

fn digit(d: u64) -> (c: char)
    requires
        d < 10,
    ensures
        c == digit_char(d as int),
{
    if d == 0 { '0' }
    else if d == 1 { '1' }
    else if d == 2 { '2' }
    else if d == 3 { '3' }
    else if d == 4 { '4' }
    else if d == 5 { '5' }
    else if d == 6 { '6' }
    else if d == 7 { '7' }
    else if d == 8 { '8' }
    else { '9' }
}

fn digits_of(n: u64) -> (v: Vec<char>)
    ensures
        v@ == decimal_digits(n as nat),
    decreases n,
{
    if n < 10 {
        let mut v: Vec<char> = Vec::new();
        v.push(digit(n));
        assert(v@ =~= seq![digit_char(n as int)]);
        v
    } else {
        let mut v = digits_of(n / 10);
        v.push(digit(n % 10));
        v
    }
}

/// The decimal form of `n`, as `i32`'s `Display` writes it.
pub fn decimal_string(n: i32) -> (s: String)
    ensures
        s@ == decimal(n as int),
{
    let mut out: Vec<char> = Vec::new();
    let magnitude: u64;
    if n < 0 {
        out.push('-');
        magnitude = (0i64 - (n as i64)) as u64;
    } else {
        magnitude = n as u64;
    }
    let digits = digits_of(magnitude);
    let mut i: usize = 0;
    let ghost start = out@;
    while i < digits.len()
        invariant
            i <= digits.len(),
            out@ == start + digits@.take(i as int),
        decreases digits.len() - i,
    {
        out.push(digits[i]);
        i = i + 1;
        assert(out@ =~= start + digits@.take(i as int));
    }
    assert(digits@.take(i as int) =~= digits@);
    proof {
        if n < 0 {
            assert(start =~= seq!['-']);
        } else {
            assert(start =~= Seq::<char>::empty());
            assert(out@ =~= digits@);
        }
    }
    string_from_chars(&out)
}

/// `pat` occurs somewhere in `s` (the empty pattern occurs everywhere).
pub open spec fn contains_seq(s: Seq<char>, pat: Seq<char>) -> bool {
    exists|i: int| #[trigger] occurs_at(s, pat, i)
}

/// Whether `pat` occurs in `s`, as `str::contains` answers for a string
/// pattern.
pub fn contains_str(s: &str, pat: &str) -> (b: bool)
    ensures
        b == contains_seq(s@, pat@),
{
    let sv = chars_of(s);
    let pv = chars_of(pat);
    if pv.len() > sv.len() {
        assert forall|i: int| !occurs_at(s@, pat@, i) by {}
        return false;
    }
    let last = sv.len() - pv.len();
    let mut i: usize = 0;
    while i < last
        invariant
            sv@ == s@,
            pv@ == pat@,
            last == sv.len() - pv.len(),
            pv.len() <= sv.len(),
            i <= last,
            forall|j: int| 0 <= j < i ==> !occurs_at(s@, pat@, j),
        decreases last + 1 - i,
    {
        if occurs_at_exec(&sv, &pv, i) {
            return true;
        }
        i = i + 1;
    }
    if occurs_at_exec(&sv, &pv, last) {
        return true;
    }
    assert forall|j: int| !occurs_at(s@, pat@, j) by {
        if 0 <= j < i {
        }
    }
    false
}

} // verus!
