//! Character-level helpers on strings, each with its exact meaning as a spec function.

use vstd::prelude::*;
use vstd::string::*;

verus! {

/// The Unicode `White_Space` property, which is what `char::is_whitespace` tests.
pub open spec fn is_white_space(c: char) -> bool {
    let u = c as u32;
    ||| (0x09 <= u && u <= 0x0d)
    ||| u == 0x20
    ||| u == 0x85
    ||| u == 0xa0
    ||| u == 0x1680
    ||| (0x2000 <= u && u <= 0x200a)
    ||| u == 0x2028
    ||| u == 0x2029
    ||| u == 0x202f
    ||| u == 0x205f
    ||| u == 0x3000
}

/// Tests a character for the `White_Space` property.
pub fn is_white_space_char(c: char) -> (res: bool)
    ensures
        res == is_white_space(c),
{
    let u = c as u32;
    (0x09 <= u && u <= 0x0d) || u == 0x20 || u == 0x85 || u == 0xa0 || u == 0x1680 || (0x2000
        <= u && u <= 0x200a) || u == 0x2028 || u == 0x2029 || u == 0x202f || u == 0x205f || u
        == 0x3000
}

/// `s` without its leading white space.
pub open spec fn trim_start(s: Seq<char>) -> Seq<char>
    decreases s.len(),
{
    if s.len() > 0 && is_white_space(s[0]) {
        trim_start(s.drop_first())
    } else {
        s
    }
}

/// `s` without its trailing white space.
pub open spec fn trim_end(s: Seq<char>) -> Seq<char>
    decreases s.len(),
{
    if s.len() > 0 && is_white_space(s.last()) {
        trim_end(s.drop_last())
    } else {
        s
    }
}

/// `s` without leading and trailing white space, as `str::trim` gives it.
pub open spec fn trimmed(s: Seq<char>) -> Seq<char> {
    trim_end(trim_start(s))
}

proof fn lemma_trim_start_shape(s: Seq<char>)
    ensures
        trim_start(s).len() == 0 <==> (forall|i: int| 0 <= i < s.len() ==> is_white_space(
            #[trigger] s[i],
        )),
        trim_start(s).len() > 0 ==> !is_white_space(trim_start(s)[0]),
    decreases s.len(),
{
    if s.len() > 0 && is_white_space(s[0]) {
        lemma_trim_start_shape(s.drop_first());
        if trim_start(s).len() == 0 {
            assert forall|i: int| 0 <= i < s.len() implies is_white_space(#[trigger] s[i]) by {
                if i > 0 {
                    assert(s[i] == s.drop_first()[i - 1]);
                }
            }
        } else {
            let j = choose|j: int| 0 <= j < s.drop_first().len() && !is_white_space(s.drop_first()[j]);
            assert(s[j + 1] == s.drop_first()[j]);
        }
    } else if s.len() > 0 {
        assert(!is_white_space(s[0]));
    }
}

proof fn lemma_trim_end_keeps_first(u: Seq<char>)
    requires
        u.len() > 0,
        !is_white_space(u[0]),
    ensures
        trim_end(u).len() > 0,
    decreases u.len(),
{
    if is_white_space(u.last()) {
        if u.len() == 1 {
            assert(u.last() == u[0]);
        } else {
            assert(u.drop_last()[0] == u[0]);
            lemma_trim_end_keeps_first(u.drop_last());
        }
    }
}

/// A trimmed text is empty exactly when every character of the text is white space.
pub proof fn lemma_trimmed_empty(s: Seq<char>)
    ensures
        trimmed(s).len() == 0 <==> (forall|i: int| 0 <= i < s.len() ==> is_white_space(
            #[trigger] s[i],
        )),
{
    lemma_trim_start_shape(s);
    let u = trim_start(s);
    if u.len() > 0 {
        lemma_trim_end_keeps_first(u);
    }
}

/// The characters of a string, in order.
pub fn to_chars(s: &str) -> (res: Vec<char>)
    ensures
        res@ == s@,
{
    let n = s.unicode_len();
    let mut res: Vec<char> = Vec::new();
    let mut i: usize = 0;
    while i < n
        invariant
            n == s@.len(),
            i <= n,
            res@ == s@.subrange(0, i as int),
        decreases n - i,
    {
        res.push(s.get_char(i));
        i = i + 1;
    }
    res
}

proof fn lemma_trim_start_skip(s: Seq<char>, a: int)
    requires
        0 <= a <= s.len(),
        forall|k: int| 0 <= k < a ==> is_white_space(#[trigger] s[k]),
    ensures
        trim_start(s) == trim_start(s.subrange(a, s.len() as int)),
    decreases a,
{
    if a > 0 {
        assert(s.drop_first() =~= s.subrange(1, s.len() as int));
        lemma_trim_start_skip(s.drop_first(), a - 1);
        assert(s.drop_first().subrange(a - 1, s.drop_first().len() as int) =~= s.subrange(
            a,
            s.len() as int,
        ));
    } else {
        assert(s.subrange(0, s.len() as int) =~= s);
    }
}

proof fn lemma_trim_end_skip(s: Seq<char>, b: int)
    requires
        0 <= b <= s.len(),
        forall|k: int| b <= k < s.len() ==> is_white_space(#[trigger] s[k]),
    ensures
        trim_end(s) == trim_end(s.subrange(0, b)),
    decreases s.len() - b,
{
    if b < s.len() {
        assert(s.drop_last() =~= s.subrange(0, s.len() - 1));
        lemma_trim_end_skip(s.drop_last(), b);
        assert(s.drop_last().subrange(0, b) =~= s.subrange(0, b));
    } else {
        assert(s.subrange(0, s.len() as int) =~= s);
    }
}

/// The bounds `(a, b)` of the trimmed part of `s`: `s[a..b]` is `trimmed(s)`.
pub fn trim_bounds(s: &Vec<char>) -> (res: (usize, usize))
    ensures
        res.0 <= res.1 <= s.len(),
        s@.subrange(res.0 as int, res.1 as int) == trimmed(s@),
{
    let n = s.len();
    let mut a: usize = 0;
    while a < n && is_white_space_char(s[a])
        invariant
            n == s.len(),
            a <= n,
            forall|k: int| 0 <= k < a ==> is_white_space(#[trigger] s@[k]),
        decreases n - a,
    {
        a = a + 1;
    }
    proof {
        lemma_trim_start_skip(s@, a as int);
        let t = s@.subrange(a as int, n as int);
        if a < n {
            assert(!is_white_space(t[0]));
        }
        assert(trim_start(t) == t);
    }
    let ghost t = s@.subrange(a as int, n as int);
    let mut b: usize = n;
    while b > a && is_white_space_char(s[b - 1])
        invariant
            n == s.len(),
            a <= b <= n,
            t == s@.subrange(a as int, n as int),
            forall|k: int| b <= k < n ==> is_white_space(#[trigger] s@[k]),
        decreases b,
    {
        b = b - 1;
    }
    proof {
        assert forall|k: int| (b - a) <= k < t.len() implies is_white_space(#[trigger] t[k]) by {
            assert(t[k] == s@[k + a]);
        }
        lemma_trim_end_skip(t, (b - a) as int);
        let u = t.subrange(0, (b - a) as int);
        assert(u =~= s@.subrange(a as int, b as int));
        if b > a {
            assert(u.last() == s@[b - 1]);
        }
        assert(trim_end(u) == u);
    }
    (a, b)
}

/// `str::trim`: the string without leading and trailing white space.
pub fn trim(s: &str) -> (res: String)
    ensures
        res@ == trimmed(s@),
{
    let cs = to_chars(s);
    let (a, b) = trim_bounds(&cs);
    s.substring_char(a, b).to_owned()
}

/// `pat` occurs in `s` at position `i`.
pub open spec fn occurs_at(s: Seq<char>, pat: Seq<char>, i: int) -> bool {
    0 <= i && i + pat.len() <= s.len() && s.subrange(i, i + pat.len()) == pat
}

/// The first position at or after `i` where `pat` occurs in `s`.
pub open spec fn find_from(s: Seq<char>, pat: Seq<char>, i: int) -> Option<int>
    decreases s.len() + 1 - i,
{
    if i < 0 || i + pat.len() > s.len() {
        None
    } else if s.subrange(i, i + pat.len()) == pat {
        Some(i)
    } else {
        find_from(s, pat, i + 1)
    }
}

/// The first position where `pat` occurs in `s`, as `str::find` gives it (counted in characters).
pub open spec fn find_spec(s: Seq<char>, pat: Seq<char>) -> Option<int> {
    find_from(s, pat, 0)
}

proof fn lemma_find_from_props(s: Seq<char>, pat: Seq<char>, i: int)
    requires
        0 <= i,
    ensures
        find_from(s, pat, i) matches Some(k) ==> i <= k && occurs_at(s, pat, k) && (forall|j: int|
            i <= j < k ==> !occurs_at(s, pat, j)),
        find_from(s, pat, i) is None ==> forall|j: int| i <= j ==> !occurs_at(s, pat, j),
    decreases s.len() + 1 - i,
{
    if i + pat.len() > s.len() {
    } else if s.subrange(i, i + pat.len()) == pat {
    } else {
        lemma_find_from_props(s, pat, i + 1);
    }
}

/// The first occurrence of `pat` in `s` is exactly described by `find_spec`.
pub proof fn lemma_find_spec(s: Seq<char>, pat: Seq<char>)
    ensures
        find_spec(s, pat) matches Some(k) ==> occurs_at(s, pat, k) && (forall|j: int|
            0 <= j < k ==> !occurs_at(s, pat, j)),
        find_spec(s, pat) is None ==> forall|j: int| !occurs_at(s, pat, j),
{
    lemma_find_from_props(s, pat, 0);
}

/// Whether `pat` occurs in `cs` at position `i`.
fn matches_at(cs: &Vec<char>, pat: &Vec<char>, i: usize) -> (res: bool)
    requires
        i + pat.len() <= cs.len(),
    ensures
        res == (cs@.subrange(i as int, i + pat.len()) == pat@),
{
    let m = pat.len();
    let mut j: usize = 0;
    while j < m
        invariant
            m == pat.len(),
            i + m <= cs.len(),
            j <= m,
            forall|k: int| 0 <= k < j ==> cs@[i + k] == pat@[k],
        decreases m - j,
    {
        if cs[i + j] != pat[j] {
            assert(cs@.subrange(i as int, i + m)[j as int] != pat@[j as int]);
            return false;
        }
        j = j + 1;
    }
    assert(cs@.subrange(i as int, i + m) =~= pat@);
    true
}

/// The first position (in characters) where `pat` occurs in `cs`.
pub fn find_chars(cs: &Vec<char>, pat: &Vec<char>) -> (res: Option<usize>)
    ensures
        res matches Some(k) ==> find_spec(cs@, pat@) == Some(k as int),
        res is None ==> find_spec(cs@, pat@) is None,
{
    let n = cs.len();
    let m = pat.len();
    if m > n {
        return None;
    }
    let mut i: usize = 0;
    loop
        invariant
            n == cs.len(),
            m == pat.len(),
            m <= n,
            i <= n - m,
            find_spec(cs@, pat@) == find_from(cs@, pat@, i as int),
        decreases n - m - i,
    {
        if matches_at(cs, pat, i) {
            return Some(i);
        }
        if i == n - m {
            assert(find_from(cs@, pat@, i + 1) is None);
            return None;
        }
        i = i + 1;
    }
}

/// String equality.
pub fn equals(a: &str, b: &str) -> (res: bool)
    ensures
        res == (a@ == b@),
{
    let cs = to_chars(a);
    let ds = to_chars(b);
    if cs.len() != ds.len() {
        return false;
    }
    let r = matches_at(&cs, &ds, 0);
    proof {
        assert(cs@.subrange(0, ds@.len() as int) =~= cs@);
    }
    r
}

/// `pat` is a prefix of `s`.
pub open spec fn has_prefix(s: Seq<char>, pat: Seq<char>) -> bool {
    pat.len() <= s.len() && s.subrange(0, pat.len() as int) == pat
}

/// `str::starts_with`.
pub fn starts_with(s: &str, pat: &str) -> (res: bool)
    ensures
        res == has_prefix(s@, pat@),
{
    let cs = to_chars(s);
    let ps = to_chars(pat);
    if ps.len() > cs.len() {
        false
    } else {
        matches_at(&cs, &ps, 0)
    }
}

/// `str::strip_prefix`: the rest of `s` after `pat`, when `s` begins with it.
pub fn strip_prefix(s: &str, pat: &str) -> (res: Option<String>)
    ensures
        res matches Some(r) ==> has_prefix(s@, pat@) && r@ == s@.subrange(
            pat@.len() as int,
            s@.len() as int,
        ),
        res is None ==> !has_prefix(s@, pat@),
{
    let cs = to_chars(s);
    let ps = to_chars(pat);
    if ps.len() <= cs.len() && matches_at(&cs, &ps, 0) {
        Some(s.substring_char(ps.len(), cs.len()).to_owned())
    } else {
        None
    }
}

/// `str::split_once`: the parts of `s` before and after the first occurrence of `pat`.
pub open spec fn split_once_spec(s: Seq<char>, pat: Seq<char>) -> Option<(Seq<char>, Seq<char>)> {
    match find_spec(s, pat) {
        Some(k) => Some((s.subrange(0, k), s.subrange(k + pat.len(), s.len() as int))),
        None => None,
    }
}

/// `str::split_once`.
pub fn split_once(s: &str, pat: &str) -> (res: Option<(String, String)>)
    ensures
        res matches Some(p) ==> split_once_spec(s@, pat@) == Some((p.0@, p.1@)),
        res is None ==> split_once_spec(s@, pat@) is None,
{
    let cs = to_chars(s);
    let ps = to_chars(pat);
    match find_chars(&cs, &ps) {
        Some(k) => {
            proof {
                lemma_find_spec(cs@, ps@);
                assert(occurs_at(cs@, ps@, k as int));
                assert(k + ps@.len() <= cs@.len());
            }
            let before = s.substring_char(0, k).to_owned();
            assert(k + ps.len() <= cs.len());
            let start = k + ps.len();
            let after = s.substring_char(start, cs.len()).to_owned();
            Some((before, after))
        },
        None => None,
    }
}

/// `str::contains` for a string pattern.
pub fn contains(s: &str, pat: &str) -> (res: bool)
    ensures
        res == find_spec(s@, pat@) is Some,
{
    let cs = to_chars(s);
    let ps = to_chars(pat);
    find_chars(&cs, &ps).is_some()
}

/// The decimal digits of `n`, without leading zeros, as `Display` writes an unsigned integer.
pub open spec fn decimal(n: nat) -> Seq<char>
    decreases n,
{
    if n < 10 {
        seq![digit_char(n)]
    } else {
        decimal(n / 10).push(digit_char(n % 10))
    }
}

/// The character of one decimal digit.
pub open spec fn digit_char(d: nat) -> char {
    "0123456789"@[d as int]
}

/// The decimal representation of `n`, as `u64::to_string` writes it.
pub fn decimal_string(n: u64) -> (res: String)
    ensures
        res@ == decimal(n as nat),
    decreases n,
{
    let digits = "0123456789";
    proof {
        reveal_strlit("0123456789");
    }
    let d = (n % 10) as usize;
    let mut s = if n >= 10 {
        decimal_string(n / 10)
    } else {
        String::new()
    };
    s.append(digits.substring_char(d, d + 1));
    proof {
        assert(digits@.subrange(d as int, d + 1) =~= seq![digit_char(d as nat)]);
    }
    s
}

/// Concatenation of two strings.
pub fn concat(a: &str, b: &str) -> (res: String)
    ensures
        res@ == a@ + b@,
{
    let mut s = a.to_owned();
    s.append(b);
    s
}

/// The pieces of `s` between occurrences of `sep`, as `str::split` with a `char` gives them.
pub open spec fn split_spec(s: Seq<char>, sep: char) -> Seq<Seq<char>>
    decreases s.len(),
{
    if s.len() == 0 {
        seq![Seq::<char>::empty()]
    } else {
        let p = split_spec(s.drop_last(), sep);
        if s.last() == sep {
            p.push(Seq::<char>::empty())
        } else {
            p.update(p.len() - 1, p.last().push(s.last()))
        }
    }
}

/// The views of a list of strings.
pub open spec fn views(v: Seq<String>) -> Seq<Seq<char>> {
    v.map_values(|x: String| x@)
}

/// `str::split` on one character, collected.
pub fn split_char(s: &str, sep: char) -> (res: Vec<String>)
    ensures
        views(res@) == split_spec(s@, sep),
{
    let cs = to_chars(s);
    let n = cs.len();
    let mut pieces: Vec<String> = Vec::new();
    let mut start: usize = 0;
    let mut i: usize = 0;
    assert(cs@.subrange(0, 0) =~= Seq::<char>::empty());
    assert(views(pieces@).push(cs@.subrange(0, 0)) =~= seq![Seq::<char>::empty()]);
    while i < n
        invariant
            n == cs.len(),
            cs@ == s@,
            start <= i <= n,
            split_spec(cs@.subrange(0, i as int), sep) == views(pieces@).push(
                cs@.subrange(start as int, i as int),
            ),
        decreases n - i,
    {
        let ghost before = cs@.subrange(0, i as int);
        assert(cs@.subrange(0, i + 1).drop_last() =~= before);
        assert(cs@.subrange(0, i + 1).last() == cs@[i as int]);
        if cs[i] == sep {
            let piece = s.substring_char(start, i).to_owned();
            let ghost old_pieces = pieces@;
            pieces.push(piece);
            assert(views(pieces@) =~= views(old_pieces).push(piece@));
            assert(cs@.subrange((i + 1) as int, (i + 1) as int) =~= Seq::<char>::empty());
            start = i + 1;
        } else {
            assert(cs@.subrange(start as int, i + 1) =~= cs@.subrange(start as int, i as int).push(
                cs@[i as int],
            ));
            assert(split_spec(cs@.subrange(0, i + 1), sep) =~= views(pieces@).push(
                cs@.subrange(start as int, i + 1),
            ));
        }
        i = i + 1;
    }
    let last = s.substring_char(start, n).to_owned();
    let ghost old_pieces = pieces@;
    pieces.push(last);
    assert(views(pieces@) =~= views(old_pieces).push(last@));
    assert(cs@.subrange(0, n as int) =~= cs@);
    pieces
}

} // verus!
