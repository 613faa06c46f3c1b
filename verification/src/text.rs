//! Text helpers over `str` and `String`, stated over the character view.

use vstd::prelude::*;

verus! {

/// The Unicode `White_Space` property, which `char::is_whitespace` and
/// `str::trim` use.
pub open spec fn is_white_space(c: char) -> bool {
    let u = c as u32;
    ||| 0x9 <= u <= 0xd
    ||| u == 0x20
    ||| u == 0x85
    ||| u == 0xa0
    ||| u == 0x1680
    ||| 0x2000 <= u <= 0x200a
    ||| u == 0x2028
    ||| u == 0x2029
    ||| u == 0x202f
    ||| u == 0x205f
    ||| u == 0x3000
}

/// `s` without its leading white space.
pub open spec fn trim_start(s: Seq<char>) -> Seq<char>
    decreases s.len(),
{
    if s.len() > 0 && is_white_space(s[0]) {
        trim_start(s.drop_first())
    } else {
        s
    }
}

/// `s` without its trailing white space.
pub open spec fn trim_end(s: Seq<char>) -> Seq<char>
    decreases s.len(),
{
    if s.len() > 0 && is_white_space(s.last()) {
        trim_end(s.drop_last())
    } else {
        s
    }
}

/// `s` without leading and trailing white space.
pub open spec fn trimmed(s: Seq<char>) -> Seq<char> {
    trim_end(trim_start(s))
}

/// `str::trim`: the slice without leading and trailing white space, where white
/// space is the Unicode `White_Space` property.
#[verifier::external_body]
pub fn trim<'a>(s: &'a str) -> (r: &'a str)
    ensures
        r@ == trimmed(s@),
{
    s.trim()
}

/// `str::starts_with` with a string pattern: whether `prefix` is a prefix of `s`.
#[verifier::external_body]
pub fn starts_with(s: &str, prefix: &str) -> (r: bool)
    ensures
        r == prefix@.is_prefix_of(s@),
{
    s.starts_with(prefix)
}

/// `str::ends_with` with a string pattern: whether `suffix` is a suffix of `s`.
#[verifier::external_body]
pub fn ends_with(s: &str, suffix: &str) -> (r: bool)
    ensures
        r == suffix@.is_suffix_of(s@),
{
    s.ends_with(suffix)
}

/// `==` on two `str` slices: whether they hold the same characters.
#[verifier::external_body]
pub fn str_eq(a: &str, b: &str) -> (r: bool)
    ensures
        r == (a@ == b@),
{
    a == b
}

/// `String::push`: appends one character.
#[verifier::external_body]
pub fn push_char(s: &mut String, c: char)
    ensures
        final(s)@ == old(s)@.push(c),
{
    s.push(c);
}

/// The owned copy of a slice.
pub fn owned(s: &str) -> (r: String)
    ensures
        r@ == s@,
{
    String::from_str(s)
}

/// `a` followed by `b`.
pub fn concat2(a: &str, b: &str) -> (r: String)
    ensures
        r@ == a@ + b@,
{
    let mut r = String::from_str(a);
    r.append(b);
    r
}

/// `a`, `b` and `c` one after the other.
pub fn concat3(a: &str, b: &str, c: &str) -> (r: String)
    ensures
        r@ == a@ + b@ + c@,
{
    let mut r = String::from_str(a);
    r.append(b);
    r.append(c);
    r
}

/// Whether `s` is empty once white space at both ends is removed.
pub fn is_blank(s: &str) -> (r: bool)
    ensures
        r == (trimmed(s@).len() == 0),
{
    trim(s).is_empty()
}


/// The character views of a sequence of strings.
pub open spec fn views(v: Seq<String>) -> Seq<Seq<char>> {
    v.map_values(|x: String| x@)
}

/// The character view of an optional string.
pub open spec fn opt_view(o: Option<String>) -> Option<Seq<char>> {
    match o {
        Some(s) => Some(s@),
        None => None,
    }
}

/// The pieces of `s` between `'\n'` characters, in order: one more piece than
/// `s` holds newlines.
pub open spec fn split_newlines(s: Seq<char>) -> Seq<Seq<char>>
    decreases s.len(),
{
    if s.len() == 0 {
        seq![Seq::empty()]
    } else {
        let prev = split_newlines(s.drop_last());
        if s.last() == '\n' {
            prev.push(Seq::empty())
        } else {
            prev.update(prev.len() - 1, prev.last().push(s.last()))
        }
    }
}

/// The lines of `s` as `str::lines` yields them, before their trailing `'\r'` is
/// dropped: no line for an empty string, and no empty last line after a final
/// newline.
pub open spec fn line_segments(s: Seq<char>) -> Seq<Seq<char>> {
    if s.len() == 0 {
        Seq::empty()
    } else if s.last() == '\n' {
        split_newlines(s).drop_last()
    } else {
        split_newlines(s)
    }
}

/// The lines of `s`, each without white space at either end.
pub open spec fn trimmed_lines_of(s: Seq<char>) -> Seq<Seq<char>> {
    line_segments(s).map_values(|l: Seq<char>| trimmed(l))
}

/// There is always at least one piece, and the last one is empty exactly when
/// `s` is empty or ends with a newline.
pub proof fn lemma_split_newlines_last(s: Seq<char>)
    ensures
        split_newlines(s).len() >= 1,
        (split_newlines(s).last().len() == 0) <==> (s.len() == 0 || s.last() == '\n'),
    decreases s.len(),
{
    if s.len() > 0 {
        lemma_split_newlines_last(s.drop_last());
    }
}

/// `s.lines().map(str::trim)`, collected: the lines of `s`, each trimmed.
pub fn trimmed_lines(s: &str) -> (r: Vec<String>)
    ensures
        views(r@) == trimmed_lines_of(s@),
{
    let n = s.unicode_len();
    let mut out: Vec<String> = Vec::new();
    let mut cur = String::new();
    let ghost mut segs: Seq<Seq<char>> = Seq::empty();
    let mut i: usize = 0;
    assert(s@.take(0) =~= Seq::<char>::empty());
    while i < n
        invariant
            n == s@.len(),
            i <= n,
            split_newlines(s@.take(i as int)) == segs.push(cur@),
            out@.len() == segs.len(),
            forall|k: int| 0 <= k < segs.len() ==> #[trigger] out@[k]@ == trimmed(segs[k]),
        decreases n - i,
    {
        let c = s.get_char(i);
        assert(s@.take(i + 1).drop_last() =~= s@.take(i as int));
        assert(s@.take(i + 1).last() == c);
        if c == '\n' {
            let t = trim(cur.as_str());
            out.push(owned(t));
            proof {
                segs = segs.push(cur@);
            }
            cur = String::new();
            assert(split_newlines(s@.take(i + 1)) =~= segs.push(cur@));
        } else {
            push_char(&mut cur, c);
            assert(split_newlines(s@.take(i + 1)) =~= segs.push(cur@));
        }
        i = i + 1;
    }
    assert(s@.take(n as int) =~= s@);
    proof {
        lemma_split_newlines_last(s@);
    }
    if cur.as_str().is_empty() {
        assert(views(out@) =~= trimmed_lines_of(s@));
    } else {
        let t = trim(cur.as_str());
        out.push(owned(t));
        assert(views(out@) =~= trimmed_lines_of(s@));
    }
    out
}

/// The decimal digit for `d`, which is below ten.
pub open spec fn digit_char(d: int) -> char {
    if d == 0 {
        '0'
    } else if d == 1 {
        '1'
    } else if d == 2 {
        '2'
    } else if d == 3 {
        '3'
    } else if d == 4 {
        '4'
    } else if d == 5 {
        '5'
    } else if d == 6 {
        '6'
    } else if d == 7 {
        '7'
    } else if d == 8 {
        '8'
    } else {
        '9'
    }
}

/// The decimal notation of `n`, without leading zeros, as `Display` writes an
/// unsigned integer.
pub open spec fn decimal_digits(n: nat) -> Seq<char>
    decreases n,
{
    if n < 10 {
        seq![digit_char(n as int)]
    } else {
        decimal_digits(n / 10).push(digit_char((n % 10) as int))
    }
}

fn digit(d: u128) -> (c: char)
    requires
        d < 10,
    ensures
        c == digit_char(d as int),
{
    if d == 0 {
        '0'
    } else if d == 1 {
        '1'
    } else if d == 2 {
        '2'
    } else if d == 3 {
        '3'
    } else if d == 4 {
        '4'
    } else if d == 5 {
        '5'
    } else if d == 6 {
        '6'
    } else if d == 7 {
        '7'
    } else if d == 8 {
        '8'
    } else {
        '9'
    }
}

/// `n.to_string()`: the decimal notation of `n`.
pub fn decimal(n: u128) -> (r: String)
    ensures
        r@ == decimal_digits(n as nat),
    decreases n,
{
    if n < 10 {
        let mut r = String::new();
        push_char(&mut r, digit(n));
        assert(r@ =~= decimal_digits(n as nat));
        r
    } else {
        let mut r = decimal(n / 10);
        push_char(&mut r, digit(n % 10));
        r
    }
}

/// The pieces of `list` with `sep` between each two neighbours.
pub open spec fn join_with(list: Seq<Seq<char>>, sep: Seq<char>) -> Seq<char>
    decreases list.len(),
{
    if list.len() == 0 {
        Seq::empty()
    } else if list.len() == 1 {
        list[0]
    } else {
        join_with(list.drop_last(), sep) + sep + list.last()
    }
}

/// `list.join(sep)`.
pub fn join(list: &Vec<String>, sep: &str) -> (r: String)
    ensures
        r@ == join_with(views(list@), sep@),
{
    let mut r = String::new();
    let mut i: usize = 0;
    assert(views(list@).take(0) =~= Seq::<Seq<char>>::empty());
    while i < list.len()
        invariant
            i <= list@.len(),
            r@ == join_with(views(list@).take(i as int), sep@),
        decreases list@.len() - i,
    {
        assert(views(list@).take(i + 1).drop_last() =~= views(list@).take(i as int));
        if i > 0 {
            r.append(sep);
        }
        r.append(list[i].as_str());
        i = i + 1;
    }
    assert(views(list@).take(list@.len() as int) =~= views(list@));
    r
}


/// `s` with every occurrence of `pat` replaced by `to`, the occurrences taken
/// from left to right without overlap.
pub open spec fn replace_all(s: Seq<char>, pat: Seq<char>, to: Seq<char>) -> Seq<char>
    decreases s.len(),
{
    if s.len() == 0 {
        s
    } else if pat.len() > 0 && pat.is_prefix_of(s) {
        to + replace_all(s.skip(pat.len() as int), pat, to)
    } else {
        seq![s[0]] + replace_all(s.drop_first(), pat, to)
    }
}

/// Whether `pat` occurs in `s` at character position `at`.
fn occurs_at(s: &str, pat: &str, at: usize, n: usize, m: usize) -> (r: bool)
    requires
        n == s@.len(),
        m == pat@.len(),
        at <= n,
    ensures
        r == pat@.is_prefix_of(s@.skip(at as int)),
{
    if n - at < m {
        return false;
    }
    let mut k: usize = 0;
    while k < m
        invariant
            n == s@.len(),
            m == pat@.len(),
            at + m <= n,
            k <= m,
            forall|j: int| 0 <= j < k ==> pat@[j] == s@[at + j],
        decreases m - k,
    {
        if s.get_char(at + k) != pat.get_char(k) {
            assert(pat@[k as int] != s@.skip(at as int)[k as int]);
            return false;
        }
        k = k + 1;
    }
    assert(pat@ =~= s@.skip(at as int).take(m as int));
    true
}

/// `str::replace`: `s` with every occurrence of the non-empty `pat` replaced by
/// `to`.
pub fn replace(s: &str, pat: &str, to: &str) -> (r: String)
    requires
        pat@.len() > 0,
    ensures
        r@ == replace_all(s@, pat@, to@),
{
    let n = s.unicode_len();
    let m = pat.unicode_len();
    let mut out = String::new();
    let mut i: usize = 0;
    assert(s@.skip(0) =~= s@);
    while i < n
        invariant
            n == s@.len(),
            m == pat@.len(),
            m > 0,
            i <= n,
            out@ + replace_all(s@.skip(i as int), pat@, to@) == replace_all(s@, pat@, to@),
        decreases n - i,
    {
        let ghost rest = s@.skip(i as int);
        if occurs_at(s, pat, i, n, m) {
            assert(rest.skip(m as int) =~= s@.skip(i + m));
            out.append(to);
            i = i + m;
        } else {
            let c = s.get_char(i);
            assert(rest.drop_first() =~= s@.skip(i + 1));
            push_char(&mut out, c);
            i = i + 1;
        }
    }
    assert(s@.skip(n as int) =~= Seq::<char>::empty());
    assert(out@ + replace_all(s@.skip(n as int), pat@, to@) =~= out@);
    out
}

} // verus!
