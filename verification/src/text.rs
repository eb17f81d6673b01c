//! Text rules shared by the other modules: white space, quotes, letter case,
//! `;`-separated lists and Windows-style path joining.

use vstd::prelude::*;

verus! {

/// Whether `c` is white space: a code point with the Unicode property
/// `White_Space`.
pub open spec fn is_space(c: char) -> bool {
    let n: u32 = c as u32;
    ||| 0x09 <= n <= 0x0D
    ||| n == 0x20
    ||| n == 0x85
    ||| n == 0xA0
    ||| n == 0x1680
    ||| 0x2000 <= n <= 0x200A
    ||| n == 0x2028
    ||| n == 0x2029
    ||| n == 0x202F
    ||| n == 0x205F
    ||| n == 0x3000
}

/// `s` without its leading white space.
pub open spec fn trim_start(s: Seq<char>) -> Seq<char>
    decreases s.len(),
{
    if s.len() > 0 && is_space(s[0]) {
        trim_start(s.skip(1))
    } else {
        s
    }
}

/// `s` without its trailing white space.
pub open spec fn trim_end(s: Seq<char>) -> Seq<char>
    decreases s.len(),
{
    if s.len() > 0 && is_space(s.last()) {
        trim_end(s.drop_last())
    } else {
        s
    }
}

/// `s` without the white space on either side.
pub open spec fn trimmed(s: Seq<char>) -> Seq<char> {
    trim_end(trim_start(s))
}

/// `s` without one double quote at its start, if it has one there, and
/// then without one at its end, if it has one there.
pub open spec fn unquoted(s: Seq<char>) -> Seq<char> {
    let a = if s.len() > 0 && s[0] == '"' {
        s.skip(1)
    } else {
        s
    };
    if a.len() > 0 && a.last() == '"' {
        a.drop_last()
    } else {
        a
    }
}

/// The code of `c` with the letters `A` to `Z` mapped to `a` to `z`.
pub open spec fn folded(c: char) -> int {
    let n: u32 = c as u32;
    if 0x41 <= n <= 0x5A {
        n + 32
    } else {
        n as int
    }
}

/// Whether `a` and `b` are the same text but for the case of ASCII letters.
pub open spec fn same_ignoring_case(a: Seq<char>, b: Seq<char>) -> bool {
    &&& a.len() == b.len()
    &&& forall|i: int| 0 <= i < a.len() ==> folded(#[trigger] a[i]) == folded(b[i])
}

/// Whether `s[lo..hi]` is one entry of the `;`-separated list `s`: it holds
/// no `;` and is bounded on each side by a `;` or by the end of `s`.
pub open spec fn is_entry(s: Seq<char>, lo: int, hi: int) -> bool {
    &&& 0 <= lo <= hi <= s.len()
    &&& (lo == 0 || s[lo - 1] == ';')
    &&& (hi == s.len() || s[hi] == ';')
    &&& forall|k: int| lo <= k < hi ==> #[trigger] s[k] != ';'
}

/// Whether some entry of the `;`-separated list `s` is `item`, but for the
/// case of ASCII letters.
pub open spec fn lists(s: Seq<char>, item: Seq<char>) -> bool {
    exists|lo: int, hi: int| #[trigger]
        is_entry(s, lo, hi) && same_ignoring_case(s.subrange(lo, hi), item)
}

/// Whether `c` separates the parts of a path.
pub open spec fn is_separator(c: char) -> bool {
    c == '\\' || c == '/'
}

/// `child` placed under `base`: a backslash comes between them unless
/// `base` is empty or already ends in a separator.
pub open spec fn joined(base: Seq<char>, child: Seq<char>) -> Seq<char> {
    if base.len() == 0 || is_separator(base.last()) {
        base + child
    } else {
        base + seq!['\\'] + child
    }
}

/// The mathematical content of a result that is a text either way.
pub open spec fn result_text(r: Result<String, String>) -> Result<Seq<char>, Seq<char>> {
    match r {
        Ok(t) => Ok(t@),
        Err(t) => Err(t@),
    }
}

/// Tells whether `c` is white space.
pub fn char_is_space(c: char) -> (r: bool)
    ensures
        r == is_space(c),
{
    let n: u32 = c as u32;
    (0x09 <= n && n <= 0x0D) || n == 0x20 || n == 0x85 || n == 0xA0 || n == 0x1680 || (0x2000 <= n
        && n <= 0x200A) || n == 0x2028 || n == 0x2029 || n == 0x202F || n == 0x205F || n == 0x3000
}

/// The characters of `s`, in order.
pub fn chars_of(s: &str) -> (v: Vec<char>)
    ensures
        v@ == s@,
{
    let mut v: Vec<char> = Vec::new();
    for c in it: s.chars()
        invariant
            it.seq() == s@,
            v@ == s@.take(it.index()),
    {
        v.push(c);
    }
    v
}

/// A copy of `s[lo..hi]`.
fn slice_of(s: &str, lo: usize, hi: usize) -> (r: String)
    requires
        lo <= hi <= s@.len(),
    ensures
        r@ == s@.subrange(lo as int, hi as int),
{
    String::from_str(s.substring_char(lo, hi))
}

/// A copy of `s` without the white space on either side.
pub fn trim(s: &str) -> (r: String)
    ensures
        r@ == trimmed(s@),
{
    let v = chars_of(s);
    let n = v.len();
    let mut lo: usize = 0;
    assert(s@.skip(0) =~= s@);
    while lo < n && char_is_space(v[lo])
        invariant
            lo <= n,
            n == v.len(),
            v@ == s@,
            trim_start(s@) == trim_start(s@.skip(lo as int)),
        decreases n - lo,
    {
        assert(s@.skip(lo as int).skip(1) =~= s@.skip(lo + 1));
        lo += 1;
    }
    let mut hi: usize = n;
    while hi > lo && char_is_space(v[hi - 1])
        invariant
            lo <= hi <= n,
            n == v.len(),
            v@ == s@,
            trimmed(s@) == trim_end(s@.subrange(lo as int, hi as int)),
        decreases hi - lo,
    {
        assert(s@.subrange(lo as int, hi as int).drop_last() =~= s@.subrange(
            lo as int,
            hi - 1,
        ));
        hi -= 1;
    }
    slice_of(s, lo, hi)
}

/// A copy of `s` without one double quote at its start and one at its end,
/// where it has them.
pub fn strip_quotes(s: &str) -> (r: String)
    ensures
        r@ == unquoted(s@),
{
    let v = chars_of(s);
    let n = v.len();
    let lo: usize = if n > 0 && v[0] == '"' {
        1
    } else {
        0
    };
    let hi: usize = if n > lo && v[n - 1] == '"' {
        n - 1
    } else {
        n
    };
    slice_of(s, lo, hi)
}

/// The code of `c` with the letters `A` to `Z` mapped to `a` to `z`.
fn fold(c: char) -> (r: u32)
    ensures
        r == folded(c),
{
    let n: u32 = c as u32;
    if 0x41 <= n && n <= 0x5A {
        n + 32
    } else {
        n
    }
}

/// Tells whether `a[lo..hi]` and `b` are the same text but for the case of
/// ASCII letters.
fn range_matches(a: &Vec<char>, lo: usize, hi: usize, b: &Vec<char>) -> (r: bool)
    requires
        lo <= hi <= a.len(),
    ensures
        r == same_ignoring_case(a@.subrange(lo as int, hi as int), b@),
{
    if hi - lo != b.len() {
        return false;
    }
    let ghost part = a@.subrange(lo as int, hi as int);
    let mut i: usize = 0;
    while i < b.len()
        invariant
            i <= b.len(),
            lo <= hi <= a.len(),
            hi - lo == b.len(),
            part == a@.subrange(lo as int, hi as int),
            forall|k: int| 0 <= k < i ==> folded(#[trigger] part[k]) == folded(b@[k]),
        decreases b.len() - i,
    {
        if fold(a[lo + i]) != fold(b[i]) {
            assert(part[i as int] == a@[lo + i]);
            return false;
        }
        i += 1;
    }
    true
}

/// Tells whether `a` and `b` are the same text but for the case of ASCII
/// letters.
pub fn eq_ignoring_case(a: &str, b: &str) -> (r: bool)
    ensures
        r == same_ignoring_case(a@, b@),
{
    let x = chars_of(a);
    let y = chars_of(b);
    assert(x@.subrange(0, x@.len() as int) =~= x@);
    range_matches(&x, 0, x.len(), &y)
}

/// Tells whether `a` and `b` are the same text.
pub fn same(a: &str, b: &str) -> (r: bool)
    ensures
        r == (a@ == b@),
{
    let x = chars_of(a);
    let y = chars_of(b);
    if x.len() != y.len() {
        return false;
    }
    let mut i: usize = 0;
    while i < x.len()
        invariant
            i <= x.len(),
            x.len() == y.len(),
            x@ == a@,
            y@ == b@,
            forall|k: int| 0 <= k < i ==> x@[k] == y@[k],
        decreases x.len() - i,
    {
        if x[i] != y[i] {
            return false;
        }
        i += 1;
    }
    assert(x@ =~= y@);
    true
}

/// Tells whether some entry of the `;`-separated list `s` is `item`, but
/// for the case of ASCII letters.
pub fn list_has(s: &str, item: &str) -> (r: bool)
    ensures
        r == lists(s@, item@),
{
    let v = chars_of(s);
    let w = chars_of(item);
    let n = v.len();
    let mut lo: usize = 0;
    let mut i: usize = 0;
    while i < n
        invariant
            lo <= i <= n,
            n == v.len(),
            v@ == s@,
            w@ == item@,
            lo == 0 || v@[lo - 1] == ';',
            forall|k: int| lo <= k < i ==> #[trigger] v@[k] != ';',
            forall|a: int, b: int|
                b < i && #[trigger] is_entry(v@, a, b) ==> !same_ignoring_case(
                    v@.subrange(a, b),
                    w@,
                ),
        decreases n - i,
    {
        if v[i] == ';' {
            if range_matches(&v, lo, i, &w) {
                assert(is_entry(v@, lo as int, i as int));
                return true;
            }
            assert forall|a: int, b: int|
                b < i + 1 && #[trigger] is_entry(v@, a, b) implies !same_ignoring_case(
                v@.subrange(a, b),
                w@,
            ) by {
                assert(b == i ==> a == lo);
            }
            lo = i + 1;
        }
        i += 1;
    }
    if range_matches(&v, lo, n, &w) {
        assert(is_entry(v@, lo as int, n as int));
        true
    } else {
        assert forall|a: int, b: int| #[trigger] is_entry(v@, a, b) implies !same_ignoring_case(
            v@.subrange(a, b),
            w@,
        ) by {
            assert(b == n ==> a == lo);
        }
        false
    }
}

/// Tells whether `s` ends in a path separator.
pub fn ends_with_separator(s: &str) -> (r: bool)
    ensures
        r == (s@.len() > 0 && is_separator(s@.last())),
{
    let v = chars_of(s);
    let n = v.len();
    n > 0 && (v[n - 1] == '\\' || v[n - 1] == '/')
}

/// The path of `child` under `base`.
pub fn join(base: &str, child: &str) -> (r: String)
    ensures
        r@ == joined(base@, child@),
{
    let mut r = String::from_str(base);
    if !(base.unicode_len() == 0 || ends_with_separator(base)) {
        proof {
            reveal_strlit("\\");
        }
        r.append("\\");
    }
    r.append(child);
    r
}

/// An owned copy of `s`.
pub fn owned(s: &str) -> (r: String)
    ensures
        r@ == s@,
{
    String::from_str(s)
}

/// `a` followed by `b`.
pub fn cat(a: &str, b: &str) -> (r: String)
    ensures
        r@ == a@ + b@,
{
    let mut r = String::from_str(a);
    r.append(b);
    r
}

/// `a` followed by `b` and then by `c`.
pub fn cat3(a: &str, b: &str, c: &str) -> (r: String)
    ensures
        r@ == a@ + b@ + c@,
{
    let mut r = String::from_str(a);
    r.append(b);
    r.append(c);
    r
}

/// The text that `o` holds, if any, without taking it.
pub fn borrowed(o: &Option<String>) -> (r: Option<&str>)
    ensures
        r.deep_view() == o.deep_view(),
{
    match o {
        Some(t) => Some(t.as_str()),
        None => None,
    }
}

/// Puts `text` at the end of `list`.
pub fn push_text(list: &mut Vec<String>, text: String)
    ensures
        final(list).deep_view() == old(list).deep_view().push(text@),
{
    list.push(text);
}

/// What is left of `s` without its leading white space is the end of `s`
/// from its first character that is no white space.
pub proof fn lemma_trim_start_cuts_white_space(s: Seq<char>)
    ensures
        trim_start(s).len() <= s.len(),
        trim_start(s) == s.skip(s.len() - trim_start(s).len()),
        forall|k: int| 0 <= k < s.len() - trim_start(s).len() ==> is_space(#[trigger] s[k]),
        trim_start(s).len() > 0 ==> !is_space(trim_start(s)[0]),
    decreases s.len(),
{
    if s.len() > 0 && is_space(s[0]) {
        let rest = s.skip(1);
        lemma_trim_start_cuts_white_space(rest);
        assert forall|k: int| 0 <= k < s.len() - trim_start(s).len() implies is_space(
            #[trigger] s[k],
        ) by {
            if k > 0 {
                assert(s[k] == rest[k - 1]);
            }
        }
    }
}

/// What is left of `s` without its trailing white space is the start of
/// `s` up to its last character that is no white space.
pub proof fn lemma_trim_end_cuts_white_space(s: Seq<char>)
    ensures
        trim_end(s).len() <= s.len(),
        trim_end(s) == s.take(trim_end(s).len() as int),
        forall|k: int| trim_end(s).len() <= k < s.len() ==> is_space(#[trigger] s[k]),
        trim_end(s).len() > 0 ==> !is_space(trim_end(s).last()),
    decreases s.len(),
{
    if s.len() > 0 && is_space(s.last()) {
        let rest = s.drop_last();
        lemma_trim_end_cuts_white_space(rest);
        assert forall|k: int| trim_end(s).len() <= k < s.len() implies is_space(
            #[trigger] s[k],
        ) by {
            if k < s.len() - 1 {
                assert(s[k] == rest[k]);
            }
        }
    }
}

/// A trimmed text has no white space at either end, and trimming it again
/// changes nothing.
pub proof fn lemma_trimmed_is_trim(s: Seq<char>)
    ensures
        trimmed(s).len() > 0 ==> !is_space(trimmed(s)[0]) && !is_space(trimmed(s).last()),
        trimmed(trimmed(s)) == trimmed(s),
{
    lemma_trim_start_cuts_white_space(s);
    lemma_trim_end_cuts_white_space(trim_start(s));
}

} // verus!
