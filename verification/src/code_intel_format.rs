//! How the `code_intel` tool renders tree-sitter answers for the model, and
//! how it reads its arguments.
use vstd::prelude::*;

use crate::document::eq_chars;
use crate::reading_view::{lowercase_ascii, lowercase_ascii_chars};
use crate::text::{chars_of, decimal, join, join_strings, push_char, push_decimal, string_views, trim, trim_chars};

verus! {

/// `lines` joined with newlines, each line given by `f` of an item.
pub open spec fn listing(head: Seq<char>, lines: Seq<Seq<char>>) -> Seq<char> {
    join(seq![head] + lines, "\n"@)
}

fn push_line(lines: &mut Vec<String>, line: String)
    ensures
        string_views(final(lines)@) == string_views(old(lines)@).push(line@),
{
    let ghost prev = string_views(lines@);
    let ghost lv = line@;
    lines.push(line);
    assert(string_views(lines@) =~= prev.push(lv));
}

/// A symbol found by the tree-sitter index, with the root it was found in.
#[derive(Debug)]
pub struct CodeSymbol {
    pub root: String,
    pub file: String,
    pub line: u64,
    pub kind_name: String,
    pub name: String,
    pub signature: String,
}

/// The lines of one symbol: where it is and what it is, then its signature
/// (indented) where it has one.
pub open spec fn code_symbol_lines(s: CodeSymbol) -> Seq<Seq<char>> {
    seq![seq!['['] + s.root@ + "] "@ + s.file@ + seq![':'] + decimal(s.line as nat) + seq![' '] + s.kind_name@
        + seq![' '] + s.name@] + if s.signature@.len() > 0 {
        seq!["  "@ + s.signature@]
    } else {
        seq![]
    }
}

/// The lines of the symbols, in order.
pub open spec fn code_symbols_lines(ss: Seq<CodeSymbol>) -> Seq<Seq<char>>
    decreases ss.len(),
{
    if ss.len() == 0 {
        seq![]
    } else {
        code_symbols_lines(ss.drop_last()) + code_symbol_lines(ss.last())
    }
}

/// The symbols found: a note when there are none, else their count and the
/// lines of each.
pub open spec fn symbols_text(ss: Seq<CodeSymbol>) -> Seq<char> {
    if ss.len() == 0 {
        "No symbols found."@
    } else {
        listing("Found "@ + decimal(ss.len()) + " symbol(s):"@, code_symbols_lines(ss))
    }
}

/// Renders the symbols found.
pub fn format_symbols(symbols: &[CodeSymbol]) -> (r: String)
    ensures
        r@ == symbols_text(symbols@),
{
    if symbols.len() == 0 {
        return String::from_str("No symbols found.");
    }
    let mut out: Vec<String> = Vec::new();
    let mut head = String::from_str("Found ");
    push_decimal(&mut head, symbols.len() as u64);
    head.append(" symbol(s):");
    let ghost hv = head@;
    push_line(&mut out, head);
    let ghost h = string_views(out@);
    assert(h =~= seq![hv]);
    let mut k: usize = 0;
    while k < symbols.len()
        invariant
            k <= symbols@.len(),
            string_views(out@) == h + code_symbols_lines(symbols@.take(k as int)),
        decreases symbols@.len() - k,
    {
        let s = &symbols[k];
        assert(symbols@.take(k + 1).drop_last() =~= symbols@.take(k as int));
        let mut line = String::new();
        push_char(&mut line, '[');
        line.append(s.root.as_str());
        line.append("] ");
        line.append(s.file.as_str());
        push_char(&mut line, ':');
        push_decimal(&mut line, s.line);
        push_char(&mut line, ' ');
        line.append(s.kind_name.as_str());
        push_char(&mut line, ' ');
        line.append(s.name.as_str());
        assert(line@ =~= code_symbol_lines(symbols@[k as int])[0]);
        let ghost before = string_views(out@);
        push_line(&mut out, line);
        if !s.signature.as_str().is_empty() {
            let mut sig = String::from_str("  ");
            sig.append(s.signature.as_str());
            push_line(&mut out, sig);
        }
        assert(string_views(out@) =~= before + code_symbol_lines(symbols@[k as int]));
        k = k + 1;
        assert(string_views(out@) =~= h + code_symbols_lines(symbols@.take(k as int)));
    }
    assert(symbols@.take(symbols@.len() as int) =~= symbols@);
    join_strings(&out, "\n")
}

/// A place in a file and what is there.
#[derive(Debug)]
pub struct FileLine {
    pub file: String,
    pub line: u64,
    pub text: String,
}

/// `file:line text`.
pub open spec fn file_line_text(f: FileLine) -> Seq<char> {
    f.file@ + seq![':'] + decimal(f.line as nat) + seq![' '] + f.text@
}

fn file_line_string(f: &FileLine) -> (r: String)
    ensures
        r@ == file_line_text(*f),
{
    let mut line = f.file.clone();
    push_char(&mut line, ':');
    push_decimal(&mut line, f.line);
    push_char(&mut line, ' ');
    line.append(f.text.as_str());
    line
}

/// The callers found in `root`: a note when there are none, else their
/// count and one line each.
pub open spec fn callers_text(root: Seq<char>, callers: Seq<FileLine>) -> Seq<char> {
    if callers.len() == 0 {
        "No callers found."@
    } else {
        listing(
            "Found "@ + decimal(callers.len()) + " caller(s) in ["@ + root + "]:"@,
            callers.map_values(|c: FileLine| file_line_text(c)),
        )
    }
}

/// Renders the callers of a symbol found in `root`.
pub fn format_callers(root: &str, callers: &[FileLine]) -> (r: String)
    ensures
        r@ == callers_text(root@, callers@),
{
    if callers.len() == 0 {
        return String::from_str("No callers found.");
    }
    let mut out: Vec<String> = Vec::new();
    let mut head = String::from_str("Found ");
    push_decimal(&mut head, callers.len() as u64);
    head.append(" caller(s) in [");
    head.append(root);
    head.append("]:");
    let ghost hv = head@;
    push_line(&mut out, head);
    let ghost h = string_views(out@);
    assert(h =~= seq![hv]);
    let mut k: usize = 0;
    while k < callers.len()
        invariant
            k <= callers@.len(),
            string_views(out@) == h + callers@.take(k as int).map_values(|c: FileLine| file_line_text(c)),
        decreases callers@.len() - k,
    {
        push_line(&mut out, file_line_string(&callers[k]));
        k = k + 1;
        assert(string_views(out@) =~= h + callers@.take(k as int).map_values(|c: FileLine| file_line_text(c)));
    }
    assert(callers@.take(callers@.len() as int) =~= callers@);
    join_strings(&out, "\n")
}

/// A test found by the index: where it is, its name and signature.
#[derive(Debug)]
pub struct TestEntry {
    pub file: String,
    pub line: u64,
    pub name: String,
    pub signature: String,
}

/// The lines of one test: where it is and its name, then its signature
/// (indented) where it has one.
pub open spec fn test_lines(t: TestEntry) -> Seq<Seq<char>> {
    seq![t.file@ + seq![':'] + decimal(t.line as nat) + seq![' '] + t.name@] + if t.signature@.len() > 0 {
        seq!["  "@ + t.signature@]
    } else {
        seq![]
    }
}

/// The lines of the tests, in order.
pub open spec fn tests_lines(ts: Seq<TestEntry>) -> Seq<Seq<char>>
    decreases ts.len(),
{
    if ts.len() == 0 {
        seq![]
    } else {
        tests_lines(ts.drop_last()) + test_lines(ts.last())
    }
}

/// The tests found in `root`.
pub open spec fn tests_text(root: Seq<char>, ts: Seq<TestEntry>) -> Seq<char> {
    if ts.len() == 0 {
        "No tests found."@
    } else {
        listing("Found "@ + decimal(ts.len()) + " test(s) in ["@ + root + "]:"@, tests_lines(ts))
    }
}

/// Renders the tests found in `root`.
pub fn format_tests(root: &str, tests: &[TestEntry]) -> (r: String)
    ensures
        r@ == tests_text(root@, tests@),
{
    if tests.len() == 0 {
        return String::from_str("No tests found.");
    }
    let mut out: Vec<String> = Vec::new();
    let mut head = String::from_str("Found ");
    push_decimal(&mut head, tests.len() as u64);
    head.append(" test(s) in [");
    head.append(root);
    head.append("]:");
    let ghost hv = head@;
    push_line(&mut out, head);
    let ghost h = string_views(out@);
    assert(h =~= seq![hv]);
    let mut k: usize = 0;
    while k < tests.len()
        invariant
            k <= tests@.len(),
            string_views(out@) == h + tests_lines(tests@.take(k as int)),
        decreases tests@.len() - k,
    {
        let t = &tests[k];
        assert(tests@.take(k + 1).drop_last() =~= tests@.take(k as int));
        let mut line = t.file.clone();
        push_char(&mut line, ':');
        push_decimal(&mut line, t.line);
        push_char(&mut line, ' ');
        line.append(t.name.as_str());
        assert(line@ =~= test_lines(tests@[k as int])[0]);
        let ghost before = string_views(out@);
        push_line(&mut out, line);
        if !t.signature.as_str().is_empty() {
            let mut sig = String::from_str("  ");
            sig.append(t.signature.as_str());
            push_line(&mut out, sig);
        }
        assert(string_views(out@) =~= before + test_lines(tests@[k as int]));
        k = k + 1;
        assert(string_views(out@) =~= h + tests_lines(tests@.take(k as int)));
    }
    assert(tests@.take(tests@.len() as int) =~= tests@);
    join_strings(&out, "\n")
}

/// The local variables of `function` found in `root`.
pub open spec fn variables_text(root: Seq<char>, function: Seq<char>, names: Seq<Seq<char>>) -> Seq<char> {
    if names.len() == 0 {
        "No local variables found in '"@ + function + "' for root ["@ + root + "]."@
    } else {
        listing(
            "Found "@ + decimal(names.len()) + " variable(s) in '"@ + function + "' for root ["@ + root + "]:"@,
            names,
        )
    }
}

/// Renders the local variables of `function` found in `root`.
pub fn format_variables(root: &str, function: &str, names: &[String]) -> (r: String)
    ensures
        r@ == variables_text(root@, function@, string_views(names@)),
{
    if names.len() == 0 {
        let mut s = String::from_str("No local variables found in '");
        s.append(function);
        s.append("' for root [");
        s.append(root);
        s.append("].");
        return s;
    }
    let mut out: Vec<String> = Vec::new();
    let mut head = String::from_str("Found ");
    push_decimal(&mut head, names.len() as u64);
    head.append(" variable(s) in '");
    head.append(function);
    head.append("' for root [");
    head.append(root);
    head.append("]:");
    let ghost hv = head@;
    push_line(&mut out, head);
    let ghost h = string_views(out@);
    assert(h =~= seq![hv]);
    let mut k: usize = 0;
    while k < names.len()
        invariant
            k <= names@.len(),
            string_views(out@) == h + string_views(names@).take(k as int),
        decreases names@.len() - k,
    {
        push_line(&mut out, names[k].clone());
        k = k + 1;
        assert(string_views(out@) =~= h + string_views(names@).take(k as int));
    }
    assert(string_views(names@).take(names@.len() as int) =~= string_views(names@));
    join_strings(&out, "\n")
}

/// A grep match with the root it was found in.
#[derive(Debug)]
pub struct RootedMatch {
    pub root: String,
    pub place: FileLine,
}

/// `[root] file:line text`.
pub open spec fn rooted_match_text(m: RootedMatch) -> Seq<char> {
    seq!['['] + m.root@ + "] "@ + file_line_text(m.place)
}

/// The matches of a grep: a note when there are none, else the total (and
/// whether the list was cut short) and one line per match.
pub open spec fn grep_text(pattern: Seq<char>, total: usize, truncated: bool, ms: Seq<RootedMatch>) -> Seq<char> {
    if ms.len() == 0 {
        "No matches found for '"@ + pattern + "'."@
    } else {
        listing(
            "Found "@ + decimal(total as nat) + " match(es) for '"@ + pattern + seq!['\''] + (if truncated {
                " (truncated)"@
            } else {
                seq![]
            }) + seq![':'],
            ms.map_values(|m: RootedMatch| rooted_match_text(m)),
        )
    }
}

/// Renders the matches of a grep.
pub fn format_grep(pattern: &str, total_matches: usize, truncated: bool, matches: &[RootedMatch]) -> (r: String)
    ensures
        r@ == grep_text(pattern@, total_matches, truncated, matches@),
{
    if matches.len() == 0 {
        let mut s = String::from_str("No matches found for '");
        s.append(pattern);
        s.append("'.");
        return s;
    }
    let mut out: Vec<String> = Vec::new();
    let mut head = String::from_str("Found ");
    push_decimal(&mut head, total_matches as u64);
    head.append(" match(es) for '");
    head.append(pattern);
    push_char(&mut head, '\'');
    if truncated {
        head.append(" (truncated)");
    }
    push_char(&mut head, ':');
    assert(head@ =~= "Found "@ + decimal(total_matches as nat) + " match(es) for '"@ + pattern@ + seq!['\''] + (if truncated {
        " (truncated)"@
    } else {
        seq![]
    }) + seq![':']);
    let ghost hv = head@;
    push_line(&mut out, head);
    let ghost h = string_views(out@);
    assert(h =~= seq![hv]);
    let mut k: usize = 0;
    while k < matches.len()
        invariant
            k <= matches@.len(),
            string_views(out@) == h + matches@.take(k as int).map_values(|m: RootedMatch| rooted_match_text(m)),
        decreases matches@.len() - k,
    {
        let m = &matches[k];
        let mut line = String::new();
        push_char(&mut line, '[');
        line.append(m.root.as_str());
        line.append("] ");
        line.append(file_line_string(&m.place).as_str());
        assert(line@ =~= rooted_match_text(matches@[k as int]));
        push_line(&mut out, line);
        k = k + 1;
        assert(string_views(out@) =~= h + matches@.take(k as int).map_values(|m: RootedMatch| rooted_match_text(m)));
    }
    assert(matches@.take(matches@.len() as int) =~= matches@);
    join_strings(&out, "\n")
}

/// The number of results a `code_intel` query returns: `limit` (20 when
/// absent), at most 50.
pub open spec fn code_intel_limit_spec(limit: Option<usize>) -> usize {
    let l = match limit {
        Some(l) => l,
        None => 20,
    };
    if l < 50 {
        l
    } else {
        50
    }
}

/// The number of results a `code_intel` query returns.
pub fn code_intel_limit(limit: Option<usize>) -> (r: usize)
    ensures
        r == code_intel_limit_spec(limit),
{
    let l = match limit {
        Some(l) => l,
        None => 20,
    };
    if l < 50 {
        l
    } else {
        50
    }
}

/// What collecting results root by root gives: the items of each group in
/// turn, stopping once `limit` items are collected; a group is left as soon
/// as the limit is reached, and no further group is looked at once it is
/// reached (so a `limit` of 0 takes at most the first item of the first
/// group).
pub open spec fn limited_collect<T>(acc: Seq<T>, groups: Seq<Seq<T>>, limit: usize) -> Seq<T>
    decreases groups.len(), 0nat,
{
    if groups.len() == 0 {
        acc
    } else {
        let after = limited_group(acc, groups[0], limit);
        if after.len() >= limit {
            after
        } else {
            limited_collect(after, groups.drop_first(), limit)
        }
    }
}

/// Collecting the items of one group until `limit` items are collected.
pub open spec fn limited_group<T>(acc: Seq<T>, group: Seq<T>, limit: usize) -> Seq<T>
    decreases group.len(),
{
    if group.len() == 0 {
        acc
    } else if acc.len() + 1 >= limit {
        acc.push(group[0])
    } else {
        limited_group(acc.push(group[0]), group.drop_first(), limit)
    }
}

/// The contents of each group.
pub open spec fn group_views<T>(groups: Seq<Vec<T>>) -> Seq<Seq<T>> {
    groups.map_values(|g: Vec<T>| g@)
}

/// `n` when it is at most `m`, else `m`.
pub open spec fn at_most(n: int, m: int) -> int {
    if n <= m {
        n
    } else {
        m
    }
}

proof fn lemma_limited_group<T>(acc: Seq<T>, group: Seq<T>, limit: usize)
    requires
        acc.len() < limit,
    ensures
        limited_group(acc, group, limit) == (acc + group).take(at_most(limit as int, (acc.len() + group.len()) as int)),
    decreases group.len(),
{
    if group.len() == 0 {
        assert((acc + group).take(acc.len() as int) =~= acc);
    } else if acc.len() + 1 >= limit {
        assert((acc + group).take(limit as int) =~= acc.push(group[0]));
    } else {
        lemma_limited_group(acc.push(group[0]), group.drop_first(), limit);
        assert(acc.push(group[0]) + group.drop_first() =~= acc + group);
    }
}

proof fn lemma_limited_collect<T>(acc: Seq<T>, groups: Seq<Seq<T>>, limit: usize)
    requires
        acc.len() < limit,
    ensures
        limited_collect(acc, groups, limit) == (acc + groups.flatten()).take(
            at_most(limit as int, (acc.len() + groups.flatten().len()) as int),
        ),
    decreases groups.len(),
{
    if groups.len() == 0 {
        assert((acc + groups.flatten()).take(acc.len() as int) =~= acc);
    } else {
        let g = groups[0];
        let rest = groups.drop_first();
        assert(groups.flatten() == g + rest.flatten());
        lemma_limited_group(acc, g, limit);
        let after = limited_group(acc, g, limit);
        assert(acc + groups.flatten() =~= (acc + g) + rest.flatten());
        if after.len() >= limit {
            assert(after =~= (acc + groups.flatten()).take(limit as int));
        } else {
            assert(after =~= acc + g);
            lemma_limited_collect(after, rest, limit);
        }
    }
}

/// Results are collected across groups in order until the limit is
/// reached: with a positive limit, the first `limit` results of all the
/// groups together (all of them when there are fewer).
pub proof fn law_collect_limited_takes_first_results<T>(groups: Seq<Seq<T>>, limit: usize)
    requires
        limit > 0,
    ensures
        limited_collect(Seq::empty(), groups, limit) == groups.flatten().take(
            at_most(limit as int, groups.flatten().len() as int),
        ),
{
    lemma_limited_collect(Seq::<T>::empty(), groups, limit);
    assert(Seq::<T>::empty() + groups.flatten() =~= groups.flatten());
}

/// Collects the results of the roots, in order, up to `limit` of them.
#[verifier::loop_isolation(false)]
pub fn collect_limited<T>(groups: Vec<Vec<T>>, limit: usize) -> (out: Vec<T>)
    ensures
        out@ == limited_collect(Seq::empty(), group_views(groups@), limit),
{
    let ghost gs = group_views(groups@);
    let mut out: Vec<T> = Vec::new();
    let mut groups = groups;
    let mut taken: usize = 0;
    assert(gs.skip(0) =~= gs);
    let n = groups.len();
    assert(gs.len() == n);
    while groups.len() > 0
        invariant
            gs.len() <= usize::MAX,
            taken + groups@.len() == gs.len(),
            forall|i: int| 0 <= i < groups@.len() ==> (#[trigger] groups@[i])@ == gs[taken + i],
            limited_collect(out@, gs.skip(taken as int), limit) == limited_collect(Seq::empty(), gs, limit),
        decreases groups@.len(),
    {
        let mut group = groups.remove(0);
        assert(group@ == gs[taken as int]);
        assert(gs.skip(taken as int)[0] == gs[taken as int]);
        assert(gs.skip(taken as int).drop_first() =~= gs.skip(taken + 1));
        let ghost before = out@;
        let ghost g = gs[taken as int];
        let m = group.len();
        assert(g.len() == m);
        let mut used: usize = 0;
        let mut stop = false;
        assert(g.skip(0) =~= g);
        while group.len() > 0 && !stop
            invariant
                g.len() <= usize::MAX,
                used + group@.len() == g.len(),
                forall|i: int| 0 <= i < group@.len() ==> group@[i] == g[used + i],
                !stop ==> limited_group(out@, g.skip(used as int), limit) == limited_group(before, g, limit),
                stop ==> out@ == limited_group(before, g, limit),
                stop ==> out@.len() >= limit,
            decreases group@.len(),
        {
            let item = group.remove(0);
            assert(g.skip(used as int)[0] == item);
            assert(g.skip(used as int).drop_first() =~= g.skip(used + 1));
            out.push(item);
            used = used + 1;
            if out.len() >= limit {
                stop = true;
            }
        }
        if !stop {
            assert(g.skip(used as int) =~= Seq::<T>::empty());
        }
        assert(out@ == limited_group(before, gs.skip(taken as int)[0], limit));
        let ghost t_old = taken as int;
        taken = taken + 1;
        if out.len() >= limit {
            assert(limited_collect(before, gs.skip(t_old), limit) == out@);
            return out;
        }
    }
    assert(gs.skip(taken as int) =~= Seq::<Seq<T>>::empty());
    out
}

/// The matches gathered so far by a grep over the roots, with the total
/// the roots reported and whether the list was cut short.
#[derive(Debug)]
pub struct GrepProgress<T> {
    pub matches: Vec<T>,
    pub total_matches: usize,
    pub truncated: bool,
}

/// Whether adding `n` more matches to `have` reaches `limit` on the way.
pub open spec fn reaches_limit(have: nat, n: nat, limit: usize) -> bool {
    n >= 1 && have + n >= limit
}

impl<T> GrepProgress<T> {
    /// Nothing gathered yet.
    pub fn new() -> (p: Self)
        ensures
            p.matches@.len() == 0,
            p.total_matches == 0,
            !p.truncated,
    {
        GrepProgress { matches: Vec::new(), total_matches: 0, truncated: false }
    }

    /// Takes in the answer of one more root: its total adds up, its matches
    /// are gathered until `limit` is reached (which marks the list cut
    /// short). Returns whether the search stops here: once `limit` matches
    /// are gathered no further root is searched.
    pub fn absorb(&mut self, total_matches: usize, truncated: bool, matches: Vec<T>, limit: usize) -> (stop: bool)
        requires
            old(self).total_matches + total_matches <= usize::MAX,
        ensures
            final(self).total_matches == old(self).total_matches + total_matches,
            final(self).matches@ == limited_group(old(self).matches@, matches@, limit),
            final(self).truncated == (old(self).truncated || truncated || reaches_limit(
                old(self).matches@.len(),
                matches@.len(),
                limit,
            )),
            stop == (final(self).matches@.len() >= limit),
    {
        self.total_matches = self.total_matches + total_matches;
        self.truncated = self.truncated || truncated;
        let ghost before = self.matches@;
        let ghost g = matches@;
        let mut matches = matches;
        let mut used: usize = 0;
        let n = matches.len();
        assert(g.skip(0) =~= g);
        let mut stop = false;
        while matches.len() > 0 && !stop
            invariant
                g.len() == n,
                used + matches@.len() == g.len(),
                forall|i: int| 0 <= i < matches@.len() ==> matches@[i] == g[used + i],
                !stop ==> limited_group(self.matches@, g.skip(used as int), limit) == limited_group(before, g, limit),
                stop ==> self.matches@ == limited_group(before, g, limit),
                self.matches@.len() == before.len() + used,
                !stop ==> (used == 0 || before.len() + used < limit),
                stop ==> used >= 1 && before.len() + used >= limit,
                self.truncated == (old(self).truncated || truncated || (stop && used >= 1)),
                self.total_matches == old(self).total_matches + total_matches,
            decreases matches@.len(),
        {
            let item = matches.remove(0);
            assert(g.skip(used as int)[0] == item);
            assert(g.skip(used as int).drop_first() =~= g.skip(used + 1));
            self.matches.push(item);
            used = used + 1;
            if self.matches.len() >= limit {
                self.truncated = true;
                stop = true;
            }
        }
        if !stop {
            assert(g.skip(used as int) =~= Seq::<T>::empty());
            assert(used == n);
            if n >= 1 {
                assert(before.len() + n < limit);
            }
        }
        self.matches.len() >= limit
    }
}

/// One chunk of a file: its position and byte range.
#[derive(Clone, Copy, Debug, PartialEq, Eq, Structural)]
pub struct ChunkRange {
    pub index: u64,
    pub start: u64,
    pub end: u64,
}

/// How a file of the index is cut into chunks.
#[derive(Debug)]
pub struct ChunkIndices {
    pub file: String,
    pub total_bytes: u64,
    pub chunk_size: u64,
    pub overlap: u64,
    pub chunks: Vec<ChunkRange>,
}

/// `  #index [start..end)`.
pub open spec fn chunk_line(c: ChunkRange) -> Seq<char> {
    "  #"@ + decimal(c.index as nat) + " ["@ + decimal(c.start as nat) + ".."@ + decimal(c.end as nat) + seq![')']
}

/// The chunks of a file in `root`: a note when it has none, else a summary
/// line and one line per chunk.
pub open spec fn chunk_indices_text(root: Seq<char>, r: ChunkIndices) -> Seq<char> {
    if r.chunks@.len() == 0 {
        seq!['['] + root + "] "@ + r.file@ + " has no chunks ("@ + decimal(r.total_bytes as nat) + " bytes total)."@
    } else {
        listing(
            seq!['['] + root + "] "@ + r.file@ + ": "@ + decimal(r.chunks@.len()) + " chunk(s), chunk_size="@
                + decimal(r.chunk_size as nat) + ", overlap="@ + decimal(r.overlap as nat) + ", total_bytes="@
                + decimal(r.total_bytes as nat),
            r.chunks@.map_values(|c: ChunkRange| chunk_line(c)),
        )
    }
}

/// Renders how a file of `root` is cut into chunks.
pub fn format_chunk_indices(root: &str, result: &ChunkIndices) -> (r: String)
    ensures
        r@ == chunk_indices_text(root@, *result),
{
    let mut head = String::new();
    push_char(&mut head, '[');
    head.append(root);
    head.append("] ");
    head.append(result.file.as_str());
    if result.chunks.len() == 0 {
        head.append(" has no chunks (");
        push_decimal(&mut head, result.total_bytes);
        head.append(" bytes total).");
        return head;
    }
    head.append(": ");
    push_decimal(&mut head, result.chunks.len() as u64);
    head.append(" chunk(s), chunk_size=");
    push_decimal(&mut head, result.chunk_size);
    head.append(", overlap=");
    push_decimal(&mut head, result.overlap);
    head.append(", total_bytes=");
    push_decimal(&mut head, result.total_bytes);
    let mut out: Vec<String> = Vec::new();
    let ghost hv = head@;
    push_line(&mut out, head);
    let ghost h = string_views(out@);
    assert(h =~= seq![hv]);
    let mut k: usize = 0;
    while k < result.chunks.len()
        invariant
            k <= result.chunks@.len(),
            string_views(out@) == h + result.chunks@.take(k as int).map_values(|c: ChunkRange| chunk_line(c)),
        decreases result.chunks@.len() - k,
    {
        let c = result.chunks[k];
        let mut line = String::from_str("  #");
        push_decimal(&mut line, c.index);
        line.append(" [");
        push_decimal(&mut line, c.start);
        line.append("..");
        push_decimal(&mut line, c.end);
        push_char(&mut line, ')');
        assert(line@ =~= chunk_line(result.chunks@[k as int]));
        push_line(&mut out, line);
        k = k + 1;
        assert(string_views(out@) =~= h + result.chunks@.take(k as int).map_values(|c: ChunkRange| chunk_line(c)));
    }
    assert(result.chunks@.take(result.chunks@.len() as int) =~= result.chunks@);
    join_strings(&out, "\n")
}

/// `true` or `false`, as `Display` writes a `bool`.
pub open spec fn bool_word(b: bool) -> Seq<char> {
    if b { "true"@ } else { "false"@ }
}

fn push_bool(s: &mut String, b: bool)
    ensures
        final(s)@ == old(s)@ + bool_word(b),
{
    if b {
        s.append("true");
    } else {
        s.append("false");
    }
}

/// What saving the annotations of one root gave.
#[derive(Debug)]
pub struct AnnotationSaveStats {
    pub root: String,
    pub persisted: bool,
    pub path: String,
    pub file_definitions: u64,
    pub file_marks: u64,
    pub symbol_definitions: u64,
}

/// What loading the annotations of one root gave.
#[derive(Debug)]
pub struct AnnotationLoadStats {
    pub root: String,
    pub loaded: bool,
    pub path: String,
    pub file_definitions_applied: u64,
    pub file_marks_applied: u64,
    pub symbol_definitions_applied: u64,
}

pub open spec fn save_line(s: AnnotationSaveStats) -> Seq<char> {
    seq!['['] + s.root@ + "] persisted="@ + bool_word(s.persisted) + " path="@ + s.path@ + " file_definitions="@
        + decimal(s.file_definitions as nat) + " file_marks="@ + decimal(s.file_marks as nat)
        + " symbol_definitions="@ + decimal(s.symbol_definitions as nat)
}

pub open spec fn load_line(s: AnnotationLoadStats) -> Seq<char> {
    seq!['['] + s.root@ + "] loaded="@ + bool_word(s.loaded) + " path="@ + s.path@ + " file_definitions_applied="@
        + decimal(s.file_definitions_applied as nat) + " file_marks_applied="@ + decimal(
        s.file_marks_applied as nat,
    ) + " symbol_definitions_applied="@ + decimal(s.symbol_definitions_applied as nat)
}

/// The result of saving annotations: a note when no root is configured,
/// else a count and one line per root.
pub open spec fn save_annotations_text(results: Seq<AnnotationSaveStats>) -> Seq<char> {
    if results.len() == 0 {
        "No TreeSitter roots are configured."@
    } else {
        listing(
            "Saved annotations for "@ + decimal(results.len()) + " root(s):"@,
            results.map_values(|s: AnnotationSaveStats| save_line(s)),
        )
    }
}

/// The result of loading annotations.
pub open spec fn load_annotations_text(results: Seq<AnnotationLoadStats>) -> Seq<char> {
    if results.len() == 0 {
        "No TreeSitter roots are configured."@
    } else {
        listing(
            "Loaded annotations for "@ + decimal(results.len()) + " root(s):"@,
            results.map_values(|s: AnnotationLoadStats| load_line(s)),
        )
    }
}

/// Renders what saving the annotations of each root gave.
pub fn format_save_annotations(results: &[AnnotationSaveStats]) -> (r: String)
    ensures
        r@ == save_annotations_text(results@),
{
    if results.len() == 0 {
        return String::from_str("No TreeSitter roots are configured.");
    }
    let mut head = String::from_str("Saved annotations for ");
    push_decimal(&mut head, results.len() as u64);
    head.append(" root(s):");
    let mut out: Vec<String> = Vec::new();
    let ghost hv = head@;
    push_line(&mut out, head);
    let ghost h = string_views(out@);
    assert(h =~= seq![hv]);
    let mut k: usize = 0;
    while k < results.len()
        invariant
            k <= results@.len(),
            string_views(out@) == h + results@.take(k as int).map_values(|s: AnnotationSaveStats| save_line(s)),
        decreases results@.len() - k,
    {
        let st = &results[k];
        let mut line = String::new();
        push_char(&mut line, '[');
        line.append(st.root.as_str());
        line.append("] persisted=");
        push_bool(&mut line, st.persisted);
        line.append(" path=");
        line.append(st.path.as_str());
        line.append(" file_definitions=");
        push_decimal(&mut line, st.file_definitions);
        line.append(" file_marks=");
        push_decimal(&mut line, st.file_marks);
        line.append(" symbol_definitions=");
        push_decimal(&mut line, st.symbol_definitions);
        assert(line@ =~= save_line(results@[k as int]));
        push_line(&mut out, line);
        k = k + 1;
        assert(string_views(out@) =~= h + results@.take(k as int).map_values(|s: AnnotationSaveStats| save_line(s)));
    }
    assert(results@.take(results@.len() as int) =~= results@);
    join_strings(&out, "\n")
}

/// Renders what loading the annotations of each root gave.
pub fn format_load_annotations(results: &[AnnotationLoadStats]) -> (r: String)
    ensures
        r@ == load_annotations_text(results@),
{
    if results.len() == 0 {
        return String::from_str("No TreeSitter roots are configured.");
    }
    let mut head = String::from_str("Loaded annotations for ");
    push_decimal(&mut head, results.len() as u64);
    head.append(" root(s):");
    let mut out: Vec<String> = Vec::new();
    let ghost hv = head@;
    push_line(&mut out, head);
    let ghost h = string_views(out@);
    assert(h =~= seq![hv]);
    let mut k: usize = 0;
    while k < results.len()
        invariant
            k <= results@.len(),
            string_views(out@) == h + results@.take(k as int).map_values(|s: AnnotationLoadStats| load_line(s)),
        decreases results@.len() - k,
    {
        let st = &results[k];
        let mut line = String::new();
        push_char(&mut line, '[');
        line.append(st.root.as_str());
        line.append("] loaded=");
        push_bool(&mut line, st.loaded);
        line.append(" path=");
        line.append(st.path.as_str());
        line.append(" file_definitions_applied=");
        push_decimal(&mut line, st.file_definitions_applied);
        line.append(" file_marks_applied=");
        push_decimal(&mut line, st.file_marks_applied);
        line.append(" symbol_definitions_applied=");
        push_decimal(&mut line, st.symbol_definitions_applied);
        assert(line@ =~= load_line(results@[k as int]));
        push_line(&mut out, line);
        k = k + 1;
        assert(string_views(out@) =~= h + results@.take(k as int).map_values(|s: AnnotationLoadStats| load_line(s)));
    }
    assert(results@.take(results@.len() as int) =~= results@);
    join_strings(&out, "\n")
}

/// The kinds of symbol a `code_intel` listing can be narrowed to.
#[derive(Clone, Copy, Debug, PartialEq, Eq, Structural)]
pub enum SymbolKind {
    Function,
    Method,
    Class,
    Struct,
    Enum,
    Trait,
    Interface,
    Constant,
    Variable,
    Type,
    Module,
}

/// The kind a (trimmed, lower-cased) name denotes, if any.
pub open spec fn kind_named(name: Seq<char>) -> Option<SymbolKind> {
    if name == "function"@ {
        Some(SymbolKind::Function)
    } else if name == "method"@ {
        Some(SymbolKind::Method)
    } else if name == "class"@ {
        Some(SymbolKind::Class)
    } else if name == "struct"@ {
        Some(SymbolKind::Struct)
    } else if name == "enum"@ {
        Some(SymbolKind::Enum)
    } else if name == "trait"@ {
        Some(SymbolKind::Trait)
    } else if name == "interface"@ {
        Some(SymbolKind::Interface)
    } else if name == "constant"@ {
        Some(SymbolKind::Constant)
    } else if name == "variable"@ {
        Some(SymbolKind::Variable)
    } else if name == "type"@ {
        Some(SymbolKind::Type)
    } else if name == "module"@ {
        Some(SymbolKind::Module)
    } else {
        None
    }
}

/// The `kind` argument read: none when absent, the kind it names (trimmed,
/// any case), else the error listing the valid kinds.
pub open spec fn symbol_kind_of(value: Option<Seq<char>>) -> Result<Option<SymbolKind>, Seq<char>> {
    match value {
        None => Ok(None),
        Some(v) => match kind_named(lowercase_ascii(trim(v))) {
            Some(k) => Ok(Some(k)),
            None => Err("unsupported symbol kind '"@ + lowercase_ascii(trim(v))
                + "'. Valid kinds: function, method, class, struct, enum, trait, interface, constant, variable, type, module"@),
        },
    }
}

/// Reads the `kind` argument of a symbol listing.
pub fn parse_symbol_kind(value: Option<&str>) -> (r: Result<Option<SymbolKind>, String>)
    ensures
        match r {
            Ok(k) => symbol_kind_of(match value { Some(v) => Some(v@), None => None }) == Ok::<Option<SymbolKind>, Seq<char>>(k),
            Err(e) => symbol_kind_of(match value { Some(v) => Some(v@), None => None }) == Err::<Option<SymbolKind>, Seq<char>>(e@),
        },
{
    let v = match value {
        None => return Ok(None),
        Some(v) => v,
    };
    let name = lowercase_ascii_chars(&trim_chars(&chars_of(v)));
    let kind = if eq_chars(&name, &chars_of("function")) {
        Some(SymbolKind::Function)
    } else if eq_chars(&name, &chars_of("method")) {
        Some(SymbolKind::Method)
    } else if eq_chars(&name, &chars_of("class")) {
        Some(SymbolKind::Class)
    } else if eq_chars(&name, &chars_of("struct")) {
        Some(SymbolKind::Struct)
    } else if eq_chars(&name, &chars_of("enum")) {
        Some(SymbolKind::Enum)
    } else if eq_chars(&name, &chars_of("trait")) {
        Some(SymbolKind::Trait)
    } else if eq_chars(&name, &chars_of("interface")) {
        Some(SymbolKind::Interface)
    } else if eq_chars(&name, &chars_of("constant")) {
        Some(SymbolKind::Constant)
    } else if eq_chars(&name, &chars_of("variable")) {
        Some(SymbolKind::Variable)
    } else if eq_chars(&name, &chars_of("type")) {
        Some(SymbolKind::Type)
    } else if eq_chars(&name, &chars_of("module")) {
        Some(SymbolKind::Module)
    } else {
        None
    };
    match kind {
        Some(k) => Ok(Some(k)),
        None => {
            let mut e = String::from_str("unsupported symbol kind '");
            e.append(string_of_chars(&name).as_str());
            e.append("'. Valid kinds: function, method, class, struct, enum, trait, interface, constant, variable, type, module");
            Err(e)
        },
    }
}

fn string_of_chars(v: &Vec<char>) -> (s: String)
    ensures
        s@ == v@,
{
    crate::text::string_of(v.as_slice())
}

/// The error for a missing argument.
pub open spec fn required_error(key: Seq<char>) -> Seq<char> {
    "`"@ + key + "` is required"@
}

/// A required argument: its value, or the error naming it.
pub fn require_param(value: Option<&str>, key: &str) -> (r: Result<String, String>)
    ensures
        match value {
            Some(v) => r is Ok && r->Ok_0@ == v@,
            None => r is Err && r->Err_0@ == required_error(key@),
        },
{
    match value {
        Some(v) => Ok(String::from_str(v)),
        None => {
            let mut e = String::from_str("`");
            e.append(key);
            e.append("` is required");
            Err(e)
        },
    }
}

/// A required absolute path argument (absolute on Unix: starting with `/`).
pub fn absolute_path(value: Option<&str>, key: &str) -> (r: Result<String, String>)
    ensures
        match value {
            None => r is Err && r->Err_0@ == required_error(key@),
            Some(v) => if v@.len() > 0 && v@[0] == '/' {
                r is Ok && r->Ok_0@ == v@
            } else {
                r is Err && r->Err_0@ == "`"@ + key@ + "` must be an absolute path"@
            },
        },
{
    let path = require_param(value, key)?;
    let c = chars_of(path.as_str());
    if c.len() > 0 && c[0] == '/' {
        Ok(path)
    } else {
        let mut e = String::from_str("`");
        e.append(key);
        e.append("` must be an absolute path");
        Err(e)
    }
}

/// The status of a registered workspace root.
#[derive(Debug)]
pub struct RootStatus {
    pub name: String,
    pub path: String,
    pub is_primary: bool,
    pub has_lsp: bool,
    pub has_treesitter: bool,
}

/// The capabilities of a root, as listed.
pub open spec fn capabilities_text(has_lsp: bool, has_treesitter: bool) -> Seq<char> {
    if has_lsp && has_treesitter {
        "lsp, treesitter"@
    } else if has_lsp {
        "lsp"@
    } else if has_treesitter {
        "treesitter"@
    } else {
        "none"@
    }
}

/// `* name -> path [capabilities]`, `*` marking the primary root.
pub open spec fn root_line(r: RootStatus) -> Seq<char> {
    (if r.is_primary { "*"@ } else { "-"@ }) + seq![' '] + r.name@ + " -> "@ + r.path@ + " ["@
        + capabilities_text(r.has_lsp, r.has_treesitter) + seq![']']
}

/// The registered roots: a note when there are none, else a heading and a
/// line per root.
pub open spec fn roots_text(roots: Seq<RootStatus>) -> Seq<char> {
    if roots.len() == 0 {
        "No roots registered."@
    } else {
        listing("Registered roots:"@, roots.map_values(|r: RootStatus| root_line(r)))
    }
}

/// Renders the registered roots.
pub fn format_root_statuses(roots: &[RootStatus]) -> (r: String)
    ensures
        r@ == roots_text(roots@),
{
    if roots.len() == 0 {
        return String::from_str("No roots registered.");
    }
    let mut out: Vec<String> = Vec::new();
    let head = String::from_str("Registered roots:");
    let ghost hv = head@;
    push_line(&mut out, head);
    let ghost h = string_views(out@);
    assert(h =~= seq![hv]);
    let mut k: usize = 0;
    while k < roots.len()
        invariant
            k <= roots@.len(),
            string_views(out@) == h + roots@.take(k as int).map_values(|r: RootStatus| root_line(r)),
        decreases roots@.len() - k,
    {
        let st = &roots[k];
        let mut line = if st.is_primary {
            String::from_str("*")
        } else {
            String::from_str("-")
        };
        push_char(&mut line, ' ');
        line.append(st.name.as_str());
        line.append(" -> ");
        line.append(st.path.as_str());
        line.append(" [");
        if st.has_lsp && st.has_treesitter {
            line.append("lsp, treesitter");
        } else if st.has_lsp {
            line.append("lsp");
        } else if st.has_treesitter {
            line.append("treesitter");
        } else {
            line.append("none");
        }
        push_char(&mut line, ']');
        assert(line@ =~= root_line(roots@[k as int]));
        push_line(&mut out, line);
        k = k + 1;
        assert(string_views(out@) =~= h + roots@.take(k as int).map_values(|r: RootStatus| root_line(r)));
    }
    assert(roots@.take(roots@.len() as int) =~= roots@);
    join_strings(&out, "\n")
}

/// The replies to the annotation and root operations.
pub open spec fn defined_symbol_text(redefine: bool, symbol: Seq<char>, root: Seq<char>, file: Seq<char>) -> Seq<char> {
    (if redefine { "Redefined symbol '"@ } else { "Defined symbol '"@ }) + symbol + "' in ["@ + root + "] "@ + file
}

/// The reply after (re)defining a symbol.
pub fn defined_symbol_message(redefine: bool, symbol: &str, root: &str, file: &str) -> (r: String)
    ensures
        r@ == defined_symbol_text(redefine, symbol@, root@, file@),
{
    let mut s = if redefine {
        String::from_str("Redefined symbol '")
    } else {
        String::from_str("Defined symbol '")
    };
    s.append(symbol);
    s.append("' in [");
    s.append(root);
    s.append("] ");
    s.append(file);
    s
}

/// The reply after (re)defining a file.
pub open spec fn defined_file_text(redefine: bool, root: Seq<char>, file: Seq<char>) -> Seq<char> {
    (if redefine { "Redefined file ["@ } else { "Defined file ["@ }) + root + "] '"@ + file + seq!['\'']
}

/// The reply after (re)defining a file.
pub fn defined_file_message(redefine: bool, root: &str, file: &str) -> (r: String)
    ensures
        r@ == defined_file_text(redefine, root@, file@),
{
    let mut s = if redefine {
        String::from_str("Redefined file [")
    } else {
        String::from_str("Defined file [")
    };
    s.append(root);
    s.append("] '");
    s.append(file);
    push_char(&mut s, '\'');
    s
}

/// The reply after marking a file.
pub fn marked_file_message(root: &str, file: &str, mark: &str) -> (r: String)
    ensures
        r@ == "Marked file ["@ + root@ + "] '"@ + file@ + "' as "@ + mark@,
{
    let mut s = String::from_str("Marked file [");
    s.append(root);
    s.append("] '");
    s.append(file);
    s.append("' as ");
    s.append(mark);
    s
}

/// The reply after adding a root.
pub fn added_root_message(name: &str, path: &str) -> (r: String)
    ensures
        r@ == "Added root '"@ + name@ + "' at "@ + path@,
{
    let mut s = String::from_str("Added root '");
    s.append(name);
    s.append("' at ");
    s.append(path);
    s
}

/// The reply after removing a root.
pub fn removed_root_message(name: &str) -> (r: String)
    ensures
        r@ == "Removed root '"@ + name@ + seq!['\''],
{
    let mut s = String::from_str("Removed root '");
    s.append(name);
    push_char(&mut s, '\'');
    s
}

/// The error when no index answers a query over `root` (or all roots).
pub fn no_index_error(root: Option<&str>) -> (r: String)
    ensures
        r@ == match root {
            Some(root) => "unknown root '"@ + root@ + "' or root has no TreeSitter index"@,
            None => "no TreeSitter roots are configured"@,
        },
{
    match root {
        Some(root) => {
            let mut s = String::from_str("unknown root '");
            s.append(root);
            s.append("' or root has no TreeSitter index");
            s
        },
        None => String::from_str("no TreeSitter roots are configured"),
    }
}

/// The error when no root with an index contains `file`.
pub fn file_outside_roots_error(file: &str, root: Option<&str>) -> (r: String)
    ensures
        r@ == match root {
            Some(root) => "file '"@ + file@ + "' is not inside root '"@ + root@ + "', or root has no TreeSitter index"@,
            None => "no registered root contains file '"@ + file@ + seq!['\''],
        },
{
    match root {
        Some(root) => {
            let mut s = String::from_str("file '");
            s.append(file);
            s.append("' is not inside root '");
            s.append(root);
            s.append("', or root has no TreeSitter index");
            s
        },
        None => {
            let mut s = String::from_str("no registered root contains file '");
            s.append(file);
            push_char(&mut s, '\'');
            s
        },
    }
}

/// A window of a file's lines, as the index shows it.
#[derive(Debug)]
pub struct Peek {
    pub file: String,
    pub start_line: u64,
    pub end_line: u64,
    pub total_lines: u64,
    pub content: String,
}

/// The reply to `peek`.
pub fn format_peek(root: &str, peek: &Peek) -> (r: String)
    ensures
        r@ == seq!['['] + root@ + "] "@ + peek.file@ + seq![':'] + decimal(peek.start_line as nat) + seq!['-']
            + decimal(peek.end_line as nat) + " ("@ + decimal(peek.total_lines as nat) + " total lines)\n"@
            + peek.content@,
{
    let mut s = String::new();
    push_char(&mut s, '[');
    s.append(root);
    s.append("] ");
    s.append(peek.file.as_str());
    push_char(&mut s, ':');
    push_decimal(&mut s, peek.start_line);
    push_char(&mut s, '-');
    push_decimal(&mut s, peek.end_line);
    s.append(" (");
    push_decimal(&mut s, peek.total_lines);
    s.append(" total lines)\n");
    s.append(peek.content.as_str());
    s
}

/// The reply to `implementation`.
pub fn format_implementation_source(root: &str, source: &str) -> (r: String)
    ensures
        r@ == seq!['['] + root@ + "]\n"@ + source@,
{
    let mut s = String::new();
    push_char(&mut s, '[');
    s.append(root);
    s.append("]\n");
    s.append(source);
    s
}

} // verus!
