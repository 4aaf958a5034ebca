//! Character-level text helpers shared by the library: searching, comparing,
//! building strings, and rendering numbers the way the library's messages need.
use vstd::prelude::*;

verus! {

/// `needle` occurs somewhere inside `hay` (the empty needle occurs everywhere).
pub open spec fn seq_contains(hay: Seq<char>, needle: Seq<char>) -> bool {
    exists|i: int|
        0 <= i && i + needle.len() <= hay.len() && #[trigger] hay.subrange(i, i + needle.len())
            == needle
}

/// `prefix` is a prefix of `s`.
pub open spec fn seq_starts_with(s: Seq<char>, prefix: Seq<char>) -> bool {
    prefix.len() <= s.len() && s.subrange(0, prefix.len() as int) == prefix
}

/// What `str::to_lowercase` returns for a string (Unicode lower-casing).
pub uninterp spec fn spec_lowercase(s: Seq<char>) -> Seq<char>;

/// What `<str as Debug>::fmt` writes for a string: the quoted, escaped form.
pub uninterp spec fn spec_debug_str(s: Seq<char>) -> Seq<char>;

/// Calls `String::push`, which appends one character.
#[verifier::external_body]
pub(crate) fn push_char(s: &mut String, c: char)
    ensures
        final(s)@ == old(s)@.push(c),
{
    s.push(c)
}

/// Calls `str::to_lowercase`; its result is named by `spec_lowercase`.
#[verifier::external_body]
pub(crate) fn lowercase(s: &str) -> (r: String)
    ensures
        r@ == spec_lowercase(s@),
{
    s.to_lowercase()
}

/// Formats a string with `{:?}` (`<str as Debug>::fmt`); named by `spec_debug_str`.
#[verifier::external_body]
pub(crate) fn debug_str(s: &str) -> (r: String)
    ensures
        r@ == spec_debug_str(s@),
{
    format!("{:?}", s)
}

/// The characters of a string, in order.
pub fn to_chars(s: &str) -> (v: Vec<char>)
    ensures
        v@ == s@,
{
    let n = s.unicode_len();
    let mut v: Vec<char> = Vec::new();
    let mut i: usize = 0;
    while i < n
        invariant
            n == s@.len(),
            i <= n,
            v@ == s@.subrange(0, i as int),
        decreases n - i,
    {
        let c = s.get_char(i);
        v.push(c);
        i = i + 1;
    }
    v
}

/// Appends every character of `cs` to `s`.
pub fn push_chars(s: &mut String, cs: &Vec<char>)
    ensures
        final(s)@ == old(s)@ + cs@,
{
    let mut i: usize = 0;
    while i < cs.len()
        invariant
            i <= cs.len(),
            s@ == old(s)@ + cs@.subrange(0, i as int),
        decreases cs.len() - i,
    {
        push_char(s, cs[i]);
        i = i + 1;
        assert(cs@.subrange(0, i as int) == cs@.subrange(0, i - 1).push(cs@[i - 1]));
    }
    assert(cs@.subrange(0, cs.len() as int) == cs@);
}

/// `needle` occurs inside `hay` at position `i`.
fn occurs_at(hay: &Vec<char>, needle: &Vec<char>, i: usize) -> (r: bool)
    requires
        i + needle.len() <= hay.len(),
    ensures
        r == (hay@.subrange(i as int, i + needle.len()) == needle@),
{
    let mut j: usize = 0;
    while j < needle.len()
        invariant
            j <= needle.len(),
            i + needle.len() <= hay.len(),
            forall|k: int| 0 <= k < j ==> hay@[i + k] == needle@[k],
        decreases needle.len() - j,
    {
        if hay[i + j] != needle[j] {
            assert(hay@.subrange(i as int, i + needle.len())[j as int] != needle@[j as int]);
            return false;
        }
        j = j + 1;
    }
    assert(hay@.subrange(i as int, i + needle.len()) =~= needle@);
    true
}

/// Substring search over character vectors.
pub fn chars_contain(hay: &Vec<char>, needle: &Vec<char>) -> (r: bool)
    ensures
        r == seq_contains(hay@, needle@),
{
    if needle.len() > hay.len() {
        return false;
    }
    let last = hay.len() - needle.len();
    let mut i: usize = 0;
    while i <= last
        invariant
            last == hay.len() - needle.len(),
            needle.len() <= hay.len(),
            forall|k: int|
                0 <= k < i ==> #[trigger] hay@.subrange(k, k + needle.len()) != needle@,
        decreases last + 1 - i,
    {
        if occurs_at(hay, needle, i) {
            return true;
        }
        if i == last {
            return false;
        }
        i = i + 1;
    }
    false
}

/// `str::contains` for a `&str` pattern, over Unicode characters.
pub fn str_contains(hay: &str, needle: &str) -> (r: bool)
    ensures
        r == seq_contains(hay@, needle@),
{
    let h = to_chars(hay);
    let n = to_chars(needle);
    chars_contain(&h, &n)
}

/// Two strings hold the same characters.
pub fn str_eq(a: &str, b: &str) -> (r: bool)
    ensures
        r == (a@ == b@),
{
    let x = to_chars(a);
    let y = to_chars(b);
    if x.len() != y.len() {
        return false;
    }
    let r = occurs_at(&x, &y, 0);
    assert(x@.subrange(0, y.len() as int) =~= x@);
    r
}

/// `s` begins with `prefix`.
pub fn str_starts_with(s: &str, prefix: &str) -> (r: bool)
    ensures
        r == seq_starts_with(s@, prefix@),
{
    let x = to_chars(s);
    let y = to_chars(prefix);
    if y.len() > x.len() {
        return false;
    }
    occurs_at(&x, &y, 0)
}


/// The character of one digit (`0`-`9`, then `a`-`f`).
pub open spec fn digit_char(d: nat) -> char {
    if d < 10 {
        (48 + d) as char
    } else {
        (87 + d) as char
    }
}

/// Base-ten digits of `n`, most significant first, no leading zeros (`{}`).
pub open spec fn decimal(n: nat) -> Seq<char>
    decreases n,
{
    if n < 10 {
        seq![digit_char(n)]
    } else {
        decimal(n / 10).push(digit_char(n % 10))
    }
}

/// Lower-case base-sixteen digits of `n`, no leading zeros (`{:x}`).
pub open spec fn hex(n: nat) -> Seq<char>
    decreases n,
{
    if n < 16 {
        seq![digit_char(n)]
    } else {
        hex(n / 16).push(digit_char(n % 16))
    }
}

/// `{:.2}` of the fraction `units / 10000`, rounded half up.
pub open spec fn fixed2(units: nat) -> Seq<char> {
    let h = (units + 50) / 100;
    decimal(h / 100) + seq!['.', digit_char((h % 100) / 10), digit_char(h % 10)]
}

/// `{:.0}` of the percentage `units / 100`, rounded half up.
pub open spec fn percent0(units: nat) -> Seq<char> {
    decimal((units + 50) / 100)
}

/// The numbers of `s` in decimal, separated by `, `.
pub open spec fn joined_decimals(s: Seq<u32>) -> Seq<char>
    decreases s.len(),
{
    if s.len() == 0 {
        Seq::empty()
    } else if s.len() == 1 {
        decimal(s[0] as nat)
    } else {
        joined_decimals(s.drop_last()) + seq![',', ' '] + decimal(s.last() as nat)
    }
}

/// `{:?}` of a list of numbers: `[1, 2, 3]`.
pub open spec fn debug_list(s: Seq<u32>) -> Seq<char> {
    seq!['['] + joined_decimals(s) + seq![']']
}

fn digit(d: u64) -> (c: char)
    requires
        d < 16,
    ensures
        c == digit_char(d as nat),
{
    if d < 10 {
        ((48 + d) as u8) as char
    } else {
        ((87 + d) as u8) as char
    }
}

/// Appends the decimal digits of `n`.
pub fn push_decimal(s: &mut String, n: u64)
    ensures
        final(s)@ == old(s)@ + decimal(n as nat),
    decreases n,
{
    if n >= 10 {
        push_decimal(s, n / 10);
    }
    push_char(s, digit(n % 10));
}

/// Appends the lower-case hexadecimal digits of `n`.
pub fn push_hex(s: &mut String, n: u64)
    ensures
        final(s)@ == old(s)@ + hex(n as nat),
    decreases n,
{
    if n >= 16 {
        push_hex(s, n / 16);
    }
    push_char(s, digit(n % 16));
}

/// `n` written in decimal.
pub fn decimal_string(n: u64) -> (r: String)
    ensures
        r@ == decimal(n as nat),
{
    let mut s = String::new();
    push_decimal(&mut s, n);
    s
}

/// Appends `{:.2}` of `units / 10000`.
pub fn push_fixed2(s: &mut String, units: u32)
    ensures
        final(s)@ == old(s)@ + fixed2(units as nat),
{
    let h: u64 = (units as u64 + 50) / 100;
    push_decimal(s, h / 100);
    push_char(s, '.');
    push_char(s, digit((h % 100) / 10));
    push_char(s, digit(h % 10));
}

/// Appends `{:.0}` of the percentage `units / 100`.
pub fn push_percent0(s: &mut String, units: u32)
    ensures
        final(s)@ == old(s)@ + percent0(units as nat),
{
    push_decimal(s, (units as u64 + 50) / 100);
}

/// Appends `{:?}` of a list of numbers.
pub fn push_debug_list(s: &mut String, v: &Vec<u32>)
    ensures
        final(s)@ == old(s)@ + debug_list(v@),
{
    push_char(s, '[');
    let ghost start = s@;
    let mut i: usize = 0;
    while i < v.len()
        invariant
            i <= v.len(),
            s@ == start + joined_decimals(v@.subrange(0, i as int)),
        decreases v.len() - i,
    {
        if i > 0 {
            push_char(s, ',');
            push_char(s, ' ');
        }
        push_decimal(s, v[i] as u64);
        i = i + 1;
        assert(v@.subrange(0, i as int).drop_last() =~= v@.subrange(0, i - 1));
    }
    push_char(s, ']');
    assert(v@.subrange(0, v.len() as int) =~= v@);
}

/// Some string of `needles` occurs inside `hay`.
pub open spec fn contains_any(hay: Seq<char>, needles: Seq<String>) -> bool {
    exists|j: int| 0 <= j < needles.len() && seq_contains(hay, #[trigger] needles[j]@)
}

/// Decides `contains_any` for a string and a list of needles.
pub fn str_contains_any(hay: &str, needles: &Vec<String>) -> (r: bool)
    ensures
        r == contains_any(hay@, needles@),
{
    let mut j: usize = 0;
    while j < needles.len()
        invariant
            j <= needles.len(),
            forall|k: int| 0 <= k < j ==> !seq_contains(hay@, #[trigger] needles@[k]@),
        decreases needles.len() - j,
    {
        if str_contains(hay, needles[j].as_str()) {
            return true;
        }
        j = j + 1;
    }
    false
}

/// Some string of `hays` contains some string of `needles`.
pub open spec fn any_contains_any(hays: Seq<String>, needles: Seq<String>) -> bool {
    exists|i: int| 0 <= i < hays.len() && contains_any(#[trigger] hays[i]@, needles)
}

/// Decides `any_contains_any`.
pub fn strs_contain_any(hays: &Vec<String>, needles: &Vec<String>) -> (r: bool)
    ensures
        r == any_contains_any(hays@, needles@),
{
    let mut i: usize = 0;
    while i < hays.len()
        invariant
            i <= hays.len(),
            forall|k: int| 0 <= k < i ==> !contains_any(#[trigger] hays@[k]@, needles@),
        decreases hays.len() - i,
    {
        if str_contains_any(hays[i].as_str(), needles) {
            return true;
        }
        i = i + 1;
    }
    false
}

} // verus!
