use vstd::prelude::*;
use vstd::std_specs::iter::IteratorSpec;

verus! {

broadcast use vstd::string::group_string_axioms;

/// Appends one character to a string; std's `String::push`.
#[verifier::external_body]
pub(crate) fn push_char(s: &mut String, c: char)
    ensures
        final(s)@ == old(s)@.push(c),
{
    s.push(c);
}

/// The characters of a string slice, in order.
pub fn chars_of(s: &str) -> (v: Vec<char>)
    ensures
        v@ == s@,
{
    let mut v: Vec<char> = Vec::new();
    for c in it: s.chars()
        invariant
            it.seq() == s@,
            v@ == s@.take(it.index() as int),
    {
        v.push(c);
    }
    assert(v@ =~= s@.take(s@.len() as int));
    v
}


/// The character of the decimal digit `d` (for `0 <= d < 10`).
pub open spec fn digit_char(d: int) -> char {
    ((d + 48) as u8) as char
}

/// The decimal rendering of a natural number, as `Display` writes it.
pub open spec fn decimal(n: nat) -> Seq<char>
    decreases n,
{
    if n < 10 {
        seq![digit_char(n as int)]
    } else {
        decimal(n / 10).push(digit_char((n % 10) as int))
    }
}

/// Appends the decimal rendering of `n`.
pub fn push_decimal(s: &mut String, n: u64)
    ensures
        final(s)@ == old(s)@ + decimal(n as nat),
    decreases n,
{
    if n >= 10 {
        push_decimal(s, n / 10);
    }
    let d: u8 = (n % 10) as u8;
    push_char(s, (d + 48) as char);
    assert(final(s)@ =~= old(s)@ + decimal(n as nat));
}

/// The string holding exactly the given characters.
pub fn string_of(v: &[char]) -> (s: String)
    ensures
        s@ == v@,
{
    let mut s = String::new();
    let mut i: usize = 0;
    while i < v.len()
        invariant
            i <= v@.len(),
            s@ == v@.take(i as int),
        decreases v@.len() - i,
    {
        push_char(&mut s, v[i]);
        i = i + 1;
        assert(s@ =~= v@.take(i as int));
    }
    assert(v@.take(v@.len() as int) =~= v@);
    s
}

/// Appends the given characters.
pub fn push_chars(s: &mut String, v: &[char])
    ensures
        final(s)@ == old(s)@ + v@,
{
    let mut i: usize = 0;
    while i < v.len()
        invariant
            i <= v@.len(),
            s@ == old(s)@ + v@.take(i as int),
        decreases v@.len() - i,
    {
        push_char(s, v[i]);
        i = i + 1;
        assert(s@ =~= old(s)@ + v@.take(i as int));
    }
    assert(v@.take(v@.len() as int) =~= v@);
}


/// Unicode `White_Space`, as `char::is_whitespace` decides it.
pub open spec fn is_ws(c: char) -> bool {
    ||| ('\t' <= c && c <= '\r')
    ||| c == ' '
    ||| c == '\u{85}'
    ||| c == '\u{a0}'
    ||| c == '\u{1680}'
    ||| ('\u{2000}' <= c && c <= '\u{200a}')
    ||| c == '\u{2028}'
    ||| c == '\u{2029}'
    ||| c == '\u{202f}'
    ||| c == '\u{205f}'
    ||| c == '\u{3000}'
}

pub fn is_whitespace(c: char) -> (b: bool)
    ensures
        b == is_ws(c),
{
    ('\t' <= c && c <= '\r') || c == ' ' || c == '\u{85}' || c == '\u{a0}' || c == '\u{1680}'
        || ('\u{2000}' <= c && c <= '\u{200a}') || c == '\u{2028}' || c == '\u{2029}'
        || c == '\u{202f}' || c == '\u{205f}' || c == '\u{3000}'
}

/// `s` without its leading whitespace.
pub open spec fn trim_start(s: Seq<char>) -> Seq<char>
    decreases s.len(),
{
    if s.len() > 0 && is_ws(s[0]) {
        trim_start(s.drop_first())
    } else {
        s
    }
}

/// `s` without its trailing whitespace.
pub open spec fn trim_end(s: Seq<char>) -> Seq<char>
    decreases s.len(),
{
    if s.len() > 0 && is_ws(s.last()) {
        trim_end(s.drop_last())
    } else {
        s
    }
}

/// `s` without leading and trailing whitespace, as `str::trim` gives it.
pub open spec fn trim(s: Seq<char>) -> Seq<char> {
    trim_end(trim_start(s))
}

proof fn lemma_trim_start_skip(s: Seq<char>, i: int)
    requires
        0 <= i <= s.len(),
        forall|k: int| 0 <= k < i ==> is_ws(#[trigger] s[k]),
    ensures
        trim_start(s) == trim_start(s.skip(i)),
    decreases i,
{
    if i > 0 {
        assert(s.skip(1) =~= s.drop_first());
        lemma_trim_start_skip(s.drop_first(), i - 1);
        assert(s.drop_first().skip(i - 1) =~= s.skip(i));
    } else {
        assert(s.skip(0) =~= s);
    }
}

proof fn lemma_trim_end_take(s: Seq<char>, j: int)
    requires
        0 <= j <= s.len(),
        forall|k: int| j <= k < s.len() ==> is_ws(#[trigger] s[k]),
    ensures
        trim_end(s) == trim_end(s.take(j)),
    decreases s.len() - j,
{
    if j < s.len() {
        lemma_trim_end_take(s.drop_last(), j);
        assert(s.drop_last().take(j) =~= s.take(j));
    } else {
        assert(s.take(j) =~= s);
    }
}

/// The characters of `v` without leading and trailing whitespace.
pub fn trim_chars(v: &[char]) -> (t: Vec<char>)
    ensures
        t@ == trim(v@),
{
    let n = v.len();
    let mut i: usize = 0;
    while i < n && is_whitespace(v[i])
        invariant
            i <= n == v@.len(),
            forall|k: int| 0 <= k < i ==> is_ws(#[trigger] v@[k]),
        decreases n - i,
    {
        i = i + 1;
    }
    let mut j: usize = n;
    while j > i && is_whitespace(v[j - 1])
        invariant
            i <= j <= n == v@.len(),
            forall|k: int| j <= k < n ==> is_ws(#[trigger] v@[k]),
        decreases j,
    {
        j = j - 1;
    }
    let mut t: Vec<char> = Vec::new();
    let mut k: usize = i;
    while k < j
        invariant
            i <= k <= j <= n == v@.len(),
            t@ == v@.subrange(i as int, k as int),
        decreases j - k,
    {
        t.push(v[k]);
        k = k + 1;
        assert(t@ =~= v@.subrange(i as int, k as int));
    }
    proof {
        lemma_trim_start_skip(v@, i as int);
        let rest = v@.skip(i as int);
        if i < n {
            assert(rest[0] == v@[i as int]);
            assert(!is_ws(rest[0]));
        }
        assert(trim_start(rest) == rest);
        assert forall|k: int| j - i <= k < rest.len() implies is_ws(#[trigger] rest[k]) by {
            assert(rest[k] == v@[k + i]);
        }
        lemma_trim_end_take(rest, j - i);
        let core = rest.take(j - i);
        assert(core =~= v@.subrange(i as int, j as int));
        if j > i {
            assert(core.last() == v@[j - 1]);
        }
        assert(trim_end(core) == core);
    }
    t
}

/// Whether `p` is a prefix of `s`.
pub open spec fn starts_with(s: Seq<char>, p: Seq<char>) -> bool {
    p.len() <= s.len() && s.take(p.len() as int) == p
}

/// Whether `p` is a suffix of `s`.
pub open spec fn ends_with(s: Seq<char>, p: Seq<char>) -> bool {
    p.len() <= s.len() && s.skip(s.len() - p.len()) == p
}

pub fn starts_with_chars(s: &[char], p: &[char]) -> (b: bool)
    ensures
        b == starts_with(s@, p@),
{
    if p.len() > s.len() {
        return false;
    }
    let mut i: usize = 0;
    while i < p.len()
        invariant
            p@.len() <= s@.len(),
            i <= p@.len(),
            forall|k: int| 0 <= k < i ==> s@[k] == p@[k],
        decreases p@.len() - i,
    {
        if s[i] != p[i] {
            assert(s@.take(p@.len() as int)[i as int] != p@[i as int]);
            return false;
        }
        i = i + 1;
    }
    assert(s@.take(p@.len() as int) =~= p@);
    true
}

pub fn ends_with_chars(s: &[char], p: &[char]) -> (b: bool)
    ensures
        b == ends_with(s@, p@),
{
    if p.len() > s.len() {
        return false;
    }
    let off = s.len() - p.len();
    let mut i: usize = 0;
    while i < p.len()
        invariant
            p@.len() <= s@.len(),
            off == s@.len() - p@.len(),
            s@.len() == s.len(),
            i <= p@.len(),
            forall|k: int| 0 <= k < i ==> s@[off + k] == p@[k],
        decreases p@.len() - i,
    {
        if s[off + i] != p[i] {
            assert(s@.skip(off as int)[i as int] != p@[i as int]);
            return false;
        }
        i = i + 1;
    }
    assert(s@.skip(off as int) =~= p@);
    true
}

/// Whether `p` occurs in `s` at position `i`.
pub open spec fn occurs_at(s: Seq<char>, p: Seq<char>, i: int) -> bool {
    0 <= i && i + p.len() <= s.len() && s.subrange(i, i + p.len()) == p
}

/// Whether `p` occurs somewhere in `s`, as `str::contains` decides it.
pub open spec fn contains(s: Seq<char>, p: Seq<char>) -> bool {
    exists|i: int| occurs_at(s, p, i)
}

pub fn occurs_at_chars(s: &[char], p: &[char], i: usize) -> (b: bool)
    ensures
        b == occurs_at(s@, p@, i as int),
{
    if i > s.len() || p.len() > s.len() - i {
        return false;
    }
    let mut k: usize = 0;
    while k < p.len()
        invariant
            i + p@.len() <= s@.len(),
            s@.len() == s.len(),
            k <= p@.len(),
            forall|m: int| 0 <= m < k ==> s@[i + m] == p@[m],
        decreases p@.len() - k,
    {
        if s[i + k] != p[k] {
            assert(s@.subrange(i as int, i + p@.len())[k as int] != p@[k as int]);
            return false;
        }
        k = k + 1;
    }
    assert(s@.subrange(i as int, i + p@.len()) =~= p@);
    true
}

/// The first position at which `p` occurs in `s` (meaningful when it occurs).
pub open spec fn first_occurrence(s: Seq<char>, p: Seq<char>) -> int {
    choose|i: int| occurs_at(s, p, i) && forall|j: int| 0 <= j < i ==> !occurs_at(s, p, j)
}

/// A first occurrence is the first occurrence.
pub proof fn lemma_first_occurrence_is(s: Seq<char>, p: Seq<char>, i: int)
    requires
        occurs_at(s, p, i),
        forall|j: int| 0 <= j < i ==> !occurs_at(s, p, j),
    ensures
        first_occurrence(s, p) == i,
        contains(s, p),
{
    let j = first_occurrence(s, p);
    assert(occurs_at(s, p, j) && forall|k: int| 0 <= k < j ==> !occurs_at(s, p, k));
    if j < i {
        assert(!occurs_at(s, p, j));
    } else if j > i {
        assert(!occurs_at(s, p, i));
    }
}

/// The first position at which `p` occurs in `s`, if it occurs.
pub fn find_chars(s: &[char], p: &[char]) -> (r: Option<usize>)
    ensures
        match r {
            Some(i) => occurs_at(s@, p@, i as int) && forall|j: int| 0 <= j < i ==> !occurs_at(s@, p@, j)
                && first_occurrence(s@, p@) == i && contains(s@, p@),
            None => !contains(s@, p@),
        },
{
    let r = find_chars_scan(s, p);
    if let Some(i) = r {
        proof {
            lemma_first_occurrence_is(s@, p@, i as int);
        }
    }
    r
}

fn find_chars_scan(s: &[char], p: &[char]) -> (r: Option<usize>)
    ensures
        match r {
            Some(i) => occurs_at(s@, p@, i as int) && forall|j: int| 0 <= j < i ==> !occurs_at(s@, p@, j),
            None => !contains(s@, p@),
        },
{
    if p.len() > s.len() {
        assert forall|j: int| !occurs_at(s@, p@, j) by {}
        return None;
    }
    if p.len() == 0 {
        assert(s@.subrange(0, 0) =~= p@);
        return Some(0);
    }
    let last = s.len() - p.len();
    let mut i: usize = 0;
    while i <= last
        invariant
            last == s@.len() - p@.len(),
            p@.len() > 0,
            s@.len() == s.len(),
            i <= last + 1,
            forall|j: int| 0 <= j < i ==> !occurs_at(s@, p@, j),
        decreases last + 1 - i,
    {
        if occurs_at_chars(s, p, i) {
            return Some(i);
        }
        i = i + 1;
    }
    assert forall|j: int| !occurs_at(s@, p@, j) by {
        if 0 <= j < i {
        }
    }
    None
}


/// The position of the first `c` in `s`, or `s.len()` when `c` does not occur.
pub open spec fn first_index(s: Seq<char>, c: char) -> int
    decreases s.len(),
{
    if s.len() == 0 {
        0
    } else if s[0] == c {
        0
    } else {
        1 + first_index(s.drop_first(), c)
    }
}

pub proof fn lemma_first_index(s: Seq<char>, c: char)
    ensures
        0 <= first_index(s, c) <= s.len(),
        forall|k: int| 0 <= k < first_index(s, c) ==> s[k] != c,
        first_index(s, c) < s.len() ==> s[first_index(s, c)] == c,
    decreases s.len(),
{
    if s.len() > 0 && s[0] != c {
        lemma_first_index(s.drop_first(), c);
        assert forall|k: int| 0 <= k < first_index(s, c) implies s[k] != c by {
            if k > 0 {
                assert(s[k] == s.drop_first()[k - 1]);
            }
        }
    }
}

pub proof fn lemma_first_index_is(s: Seq<char>, c: char, i: int)
    requires
        0 <= i <= s.len(),
        forall|k: int| 0 <= k < i ==> s[k] != c,
        i < s.len() ==> s[i] == c,
    ensures
        first_index(s, c) == i,
    decreases s.len(),
{
    if s.len() > 0 && i > 0 {
        assert forall|k: int| 0 <= k < i - 1 implies s.drop_first()[k] != c by {
            assert(s[k + 1] != c);
        }
        lemma_first_index_is(s.drop_first(), c, i - 1);
    }
}

/// The pieces of `s` between occurrences of `c`, as `str::split(c)` gives them.
pub open spec fn split_on(s: Seq<char>, c: char) -> Seq<Seq<char>>
    decreases s.len(),
{
    let i = first_index(s, c);
    if i < 0 || i >= s.len() {
        seq![s]
    } else {
        seq![s.take(i)] + split_on(s.skip(i + 1), c)
    }
}

pub proof fn lemma_split_on_nonempty(s: Seq<char>, c: char)
    ensures
        split_on(s, c).len() >= 1,
    decreases s.len(),
{
    let i = first_index(s, c);
    lemma_first_index(s, c);
    if i < s.len() {
        lemma_split_on_nonempty(s.skip(i + 1), c);
    }
}

/// `l` without one trailing carriage return.
pub open spec fn strip_cr(l: Seq<char>) -> Seq<char> {
    if l.len() > 0 && l.last() == '\r' {
        l.drop_last()
    } else {
        l
    }
}

/// The lines of `s`, as `str::lines` gives them: pieces between `\n`, a `\r`
/// before a `\n` dropped, and no final empty piece after a trailing `\n`.
pub open spec fn lines(s: Seq<char>) -> Seq<Seq<char>> {
    let raw = split_on(s, '\n');
    let n = if raw.len() > 0 && raw.last().len() == 0 {
        raw.len() - 1
    } else {
        raw.len() as int
    };
    Seq::new(n as nat, |i: int| if i + 1 < raw.len() { strip_cr(raw[i]) } else { raw[i] })
}

pub open spec fn views(v: Seq<Vec<char>>) -> Seq<Seq<char>> {
    v.map_values(|x: Vec<char>| x@)
}

pub fn split_chars(v: &[char], c: char) -> (out: Vec<Vec<char>>)
    ensures
        views(out@) == split_on(v@, c),
{
    let n = v.len();
    let mut out: Vec<Vec<char>> = Vec::new();
    let mut cur: Vec<char> = Vec::new();
    let mut start: usize = 0;
    let mut i: usize = 0;
    assert(v@.skip(0) =~= v@);
    assert(views(out@) + split_on(v@, c) =~= split_on(v@, c));
    while i < n
        invariant
            n == v@.len(),
            start <= i <= n,
            cur@ == v@.subrange(start as int, i as int),
            forall|k: int| start <= k < i ==> v@[k] != c,
            views(out@) + split_on(v@.skip(start as int), c) == split_on(v@, c),
        decreases n - i,
    {
        if v[i] == c {
            proof {
                let rest = v@.skip(start as int);
                assert forall|k: int| 0 <= k < i - start implies rest[k] != c by {
                    assert(rest[k] == v@[k + start]);
                }
                lemma_first_index_is(rest, c, i - start);
                assert(rest.take(i - start) =~= cur@);
                assert(rest.skip(i - start + 1) =~= v@.skip(i + 1));
                assert(views(out@.push(cur)) =~= views(out@).push(cur@));
                assert(split_on(rest, c) == seq![cur@] + split_on(v@.skip(i + 1), c));
                assert(views(out@.push(cur)) + split_on(v@.skip(i + 1), c) =~= views(out@)
                    + split_on(rest, c));
            }
            out.push(cur);
            cur = Vec::new();
            start = i + 1;
        } else {
            cur.push(v[i]);
        }
        i = i + 1;
        assert(cur@ =~= v@.subrange(start as int, i as int));
    }
    proof {
        let rest = v@.skip(start as int);
        assert forall|k: int| 0 <= k < n - start implies rest[k] != c by {
            assert(rest[k] == v@[k + start]);
        }
        lemma_first_index_is(rest, c, n - start);
        assert(rest =~= cur@);
        assert(views(out@.push(cur)) =~= views(out@).push(cur@));
        assert(views(out@.push(cur)) =~= views(out@) + split_on(rest, c));
    }
    out.push(cur);
    out
}

/// The lines of `v`, as `str::lines` gives them.
pub fn lines_of(v: &[char]) -> (out: Vec<Vec<char>>)
    ensures
        views(out@) == lines(v@),
{
    let raw = split_chars(v, '\n');
    proof {
        lemma_split_on_nonempty(v@, '\n');
    }
    let m = raw.len();
    let n = if raw[m - 1].len() == 0 {
        m - 1
    } else {
        m
    };
    let ghost rawv = views(raw@);
    assert(rawv.len() == m);
    assert(rawv[m - 1] == raw@[m - 1]@);
    let mut out: Vec<Vec<char>> = Vec::new();
    let mut i: usize = 0;
    while i < n
        invariant
            n <= m == raw@.len() == rawv.len(),
            rawv == views(raw@),
            rawv == split_on(v@, '\n'),
            i <= n,
            views(out@) == lines(v@).take(i as int),
            lines(v@).len() == n,
        decreases n - i,
    {
        let piece = &raw[i];
        assert(piece@ == rawv[i as int]);
        let mut line: Vec<char> = Vec::new();
        let plen = piece.len();
        let keep = if i + 1 < m && plen > 0 && piece[plen - 1] == '\r' {
            plen - 1
        } else {
            plen
        };
        let mut k: usize = 0;
        while k < keep
            invariant
                keep <= plen == piece@.len(),
                k <= keep,
                line@ == piece@.take(k as int),
            decreases keep - k,
        {
            line.push(piece[k]);
            k = k + 1;
            assert(line@ =~= piece@.take(k as int));
        }
        assert(line@ =~= lines(v@)[i as int]);
        let ghost old_out = out@;
        out.push(line);
        assert(views(out@) =~= views(old_out).push(line@));
        i = i + 1;
        assert(views(out@) =~= lines(v@).take(i as int));
    }
    assert(lines(v@).take(n as int) =~= lines(v@));
    out
}

/// The parts joined with `sep` between neighbours, as `join` gives it.
pub open spec fn join(parts: Seq<Seq<char>>, sep: Seq<char>) -> Seq<char>
    decreases parts.len(),
{
    if parts.len() == 0 {
        seq![]
    } else if parts.len() == 1 {
        parts[0]
    } else {
        join(parts.drop_last(), sep) + sep + parts.last()
    }
}

pub open spec fn string_views(v: Seq<String>) -> Seq<Seq<char>> {
    v.map_values(|x: String| x@)
}

/// The strings joined with `sep` between neighbours.
pub fn join_strings(parts: &Vec<String>, sep: &str) -> (s: String)
    ensures
        s@ == join(string_views(parts@), sep@),
{
    let mut s = String::new();
    let mut i: usize = 0;
    while i < parts.len()
        invariant
            i <= parts@.len(),
            s@ == join(string_views(parts@).take(i as int), sep@),
        decreases parts@.len() - i,
    {
        if i > 0 {
            s.append(sep);
        }
        s.append(parts[i].as_str());
        proof {
            let ps = string_views(parts@);
            assert(ps.take(i + 1).drop_last() =~= ps.take(i as int));
            assert(ps.take(i + 1).last() == parts@[i as int]@);
            if i == 0 {
                assert(s@ =~= parts@[0]@);
            }
        }
        i = i + 1;
    }
    assert(string_views(parts@).take(parts@.len() as int) =~= string_views(parts@));
    s
}


/// The decimal rendering of an integer, with a leading `-` when negative.
pub open spec fn signed_decimal(n: int) -> Seq<char> {
    if n < 0 {
        seq!['-'] + decimal((-n) as nat)
    } else {
        decimal(n as nat)
    }
}

/// Appends the decimal rendering of `n`, with a leading `-` when negative.
pub fn push_signed_decimal(s: &mut String, n: i64)
    ensures
        final(s)@ == old(s)@ + signed_decimal(n as int),
{
    if n < 0 {
        push_char(s, '-');
        let m: u64 = if n == i64::MIN {
            9223372036854775808u64
        } else {
            (-n) as u64
        };
        push_decimal(s, m);
        assert(final(s)@ =~= old(s)@ + signed_decimal(n as int));
    } else {
        push_decimal(s, n as u64);
    }
}

/// The last piece of `s` split on `sep`, as `s.split(sep).last()` gives it:
/// the pieces are cut at occurrences of `sep` found from the left, each
/// search starting after the previous occurrence.
#[verifier::opaque]
pub open spec fn split_last_piece(s: Seq<char>, sep: Seq<char>) -> Seq<char>
    decreases s.len(),
{
    if sep.len() > 0 && contains(s, sep) && occurs_at(s, sep, first_occurrence(s, sep)) {
        split_last_piece(s.skip(first_occurrence(s, sep) + sep.len()), sep)
    } else {
        s
    }
}

/// Splitting on `sep` past its first occurrence at `i` keeps the last piece.
pub proof fn lemma_split_last_step(s: Seq<char>, sep: Seq<char>, i: int)
    requires
        sep.len() > 0,
        contains(s, sep),
        occurs_at(s, sep, i),
        first_occurrence(s, sep) == i,
    ensures
        split_last_piece(s, sep) == split_last_piece(s.skip(i + sep.len()), sep),
{
    reveal_with_fuel(split_last_piece, 2);
}

/// Without an occurrence of `sep`, `s` is its own last piece.
pub proof fn lemma_split_last_none(s: Seq<char>, sep: Seq<char>)
    requires
        !contains(s, sep),
    ensures
        split_last_piece(s, sep) == s,
{
    reveal_with_fuel(split_last_piece, 2);
}

/// The characters of `v` from position `start` on.
pub fn skip_copy(v: &[char], start: usize) -> (r: Vec<char>)
    requires
        start <= v@.len(),
    ensures
        r@ == v@.skip(start as int),
{
    let mut r: Vec<char> = Vec::new();
    let mut k: usize = start;
    while k < v.len()
        invariant
            start <= k <= v@.len(),
            r@ == v@.subrange(start as int, k as int),
        decreases v@.len() - k,
    {
        r.push(v[k]);
        k = k + 1;
        assert(r@ =~= v@.subrange(start as int, k as int));
    }
    assert(r@ =~= v@.skip(start as int));
    r
}

/// The last piece of `s` split on the non-empty `sep`.
pub fn split_last_piece_of(s: &[char], sep: &[char]) -> (r: Vec<char>)
    requires
        sep@.len() > 0,
    ensures
        r@ == split_last_piece(s@, sep@),
{
    let mut rest: Vec<char> = copy_slice(s);
    loop
        invariant
            sep@.len() > 0,
            split_last_piece(rest@, sep@) == split_last_piece(s@, sep@),
        decreases rest@.len(),
    {
        match find_chars(rest.as_slice(), sep) {
            None => {
                proof {
                    lemma_split_last_none(rest@, sep@);
                }
                return rest;
            },
            Some(i) => {
                proof {
                    lemma_split_last_step(rest@, sep@, i as int);
                }
                let n = sep.len();
                assert(n == sep@.len());
                assert(i + n <= rest@.len());
                assert(rest@.len() == rest.len());
                rest = skip_copy(rest.as_slice(), i + n);
            },
        }
    }
}

/// A copy of the characters of a slice.
pub fn copy_slice(s: &[char]) -> (v: Vec<char>)
    ensures
        v@ == s@,
{
    let mut v: Vec<char> = Vec::new();
    let mut k: usize = 0;
    while k < s.len()
        invariant
            k <= s@.len(),
            v@ == s@.take(k as int),
        decreases s@.len() - k,
    {
        v.push(s[k]);
        k = k + 1;
        assert(v@ =~= s@.take(k as int));
    }
    assert(v@ =~= s@);
    v
}

/// Whether two strings hold the same characters.
pub fn str_eq(a: &str, b: &str) -> (r: bool)
    ensures
        r == (a@ == b@),
{
    let x = chars_of(a);
    let y = chars_of(b);
    if x.len() != y.len() {
        return false;
    }
    let mut i: usize = 0;
    while i < x.len()
        invariant
            x@ == a@,
            y@ == b@,
            x@.len() == y@.len(),
            i <= x@.len(),
            forall|j: int| 0 <= j < i ==> x@[j] == y@[j],
        decreases x@.len() - i,
    {
        if x[i] != y[i] {
            return false;
        }
        i = i + 1;
    }
    assert(x@ =~= y@);
    true
}

/// The last position at which `p` occurs in `s` (meaningful when it occurs).
pub open spec fn last_occurrence(s: Seq<char>, p: Seq<char>) -> int {
    choose|i: int| occurs_at(s, p, i) && forall|j: int| i < j ==> !occurs_at(s, p, j)
}

/// The last position at which `p` occurs in `s`, if it occurs.
pub fn rfind_chars(s: &[char], p: &[char]) -> (r: Option<usize>)
    ensures
        match r {
            Some(i) => occurs_at(s@, p@, i as int) && last_occurrence(s@, p@) == i && contains(s@, p@),
            None => !contains(s@, p@),
        },
{
    if p.len() > s.len() {
        assert forall|j: int| !occurs_at(s@, p@, j) by {}
        return None;
    }
    let mut i: usize = s.len() - p.len();
    loop
        invariant_except_break
            i <= s@.len() - p@.len(),
            p@.len() <= s@.len(),
            forall|j: int| i < j ==> !occurs_at(s@, p@, j),
        ensures
            forall|j: int| 0 <= j ==> !occurs_at(s@, p@, j),
        decreases i,
    {
        if occurs_at_chars(s, p, i) {
            proof {
                let k = last_occurrence(s@, p@);
                assert(occurs_at(s@, p@, i as int) && forall|j: int| i < j ==> !occurs_at(s@, p@, j));
                assert(occurs_at(s@, p@, k) && forall|j: int| k < j ==> !occurs_at(s@, p@, j));
                if k < i {
                    assert(!occurs_at(s@, p@, i as int));
                } else if k > i {
                    assert(!occurs_at(s@, p@, k));
                }
            }
            return Some(i);
        }
        if i == 0 {
            break;
        }
        i = i - 1;
    }
    assert forall|j: int| !occurs_at(s@, p@, j) by {
        if j >= 0 {
        }
    }
    None
}

} // verus!
