//! Symbols and positions for the `lsp` tool: document-symbol listings,
//! the positions tried around a requested one, symbol-name lookup and the
//! choice among code actions.
use vstd::prelude::*;

use crate::lsp_format::{LspRange, SymbolInformation};
use crate::text::{chars_of, contains, decimal, join, join_strings, last_occurrence, push_char, push_decimal, rfind_chars, skip_copy, string_of, string_views, trim, trim_chars};
use crate::document::eq_chars;
use crate::lsp_install::clone_strings;

verus! {

/// A symbol of a document with its nested children.
#[derive(Debug)]
pub struct DocumentSymbol {
    pub name: String,
    pub kind_name: String,
    pub range: LspRange,
    pub selection_range: LspRange,
    pub children: Option<Vec<DocumentSymbol>>,
}

/// The symbols of a document: a flat list, or a tree.
#[derive(Debug)]
pub enum DocumentSymbolResponse {
    Flat(Vec<SymbolInformation>),
    Nested(Vec<DocumentSymbol>),
}

/// `kind name [line:character]`, one-based.
pub open spec fn symbol_line(kind_name: Seq<char>, name: Seq<char>, line0: u32, char0: u32) -> Seq<char> {
    kind_name + seq![' '] + name + " ["@ + decimal((line0 + 1) as nat) + seq![':'] + decimal((char0 + 1) as nat)
        + seq![']']
}

/// Two spaces per level of nesting.
pub open spec fn indent(depth: nat) -> Seq<char>
    decreases depth,
{
    if depth == 0 {
        seq![]
    } else {
        indent((depth - 1) as nat) + "  "@
    }
}

/// The lines of a symbol tree, depth first: each symbol indented by its
/// depth, followed by its children one level deeper.
pub open spec fn tree_lines(s: DocumentSymbol, depth: nat) -> Seq<Seq<char>>
    decreases s, 1int,
{
    seq![indent(depth) + symbol_line(s.kind_name@, s.name@, s.range.start.line, s.range.start.character)]
        + match s.children {
        Some(children) => forest_lines(children@, depth + 1),
        None => seq![],
    }
}

/// The lines of a list of symbol trees, in order.
pub open spec fn forest_lines(ss: Seq<DocumentSymbol>, depth: nat) -> Seq<Seq<char>>
    decreases ss, 0int,
{
    if ss.len() == 0 {
        seq![]
    } else {
        tree_lines(ss[0], depth) + forest_lines(ss.drop_first(), depth)
    }
}

/// Whether every position of the tree, placed at `depth`, can be shown
/// one-based and every depth below it counted in a `usize`.
pub open spec fn tree_ok(s: DocumentSymbol, depth: nat) -> bool
    decreases s, 1int,
{
    s.range.start.line < u32::MAX && s.range.start.character < u32::MAX && match s.children {
        Some(children) => depth < usize::MAX && forest_ok(children@, depth + 1),
        None => true,
    }
}

/// Whether every tree of the list is fine at `depth`.
pub open spec fn forest_ok(ss: Seq<DocumentSymbol>, depth: nat) -> bool
    decreases ss, 0int,
{
    ss.len() == 0 || (tree_ok(ss[0], depth) && forest_ok(ss.drop_first(), depth))
}

fn push_symbol_line(s: &mut String, kind_name: &str, name: &str, line0: u32, char0: u32)
    requires
        line0 < u32::MAX,
        char0 < u32::MAX,
    ensures
        final(s)@ == old(s)@ + symbol_line(kind_name@, name@, line0, char0),
{
    s.append(kind_name);
    push_char(s, ' ');
    s.append(name);
    s.append(" [");
    push_decimal(s, (line0 + 1) as u64);
    push_char(s, ':');
    push_decimal(s, (char0 + 1) as u64);
    push_char(s, ']');
}

fn indent_string(depth: usize) -> (r: String)
    ensures
        r@ == indent(depth as nat),
{
    let mut r = String::new();
    let mut k: usize = 0;
    while k < depth
        invariant
            k <= depth,
            r@ == indent(k as nat),
        decreases depth - k,
    {
        r.append("  ");
        k = k + 1;
    }
    r
}

/// Appends the lines of the symbol trees, depth first.
fn push_forest_lines(symbols: &[DocumentSymbol], depth: usize, out: &mut Vec<String>)
    requires
        forest_ok(symbols@, depth as nat),
    ensures
        string_views(final(out)@) == string_views(old(out)@) + forest_lines(symbols@, depth as nat),
    decreases symbols@, 0int,
{
    let ghost start = string_views(out@);
    assert(symbols@.skip(0) =~= symbols@);
    let mut k: usize = 0;
    while k < symbols.len()
        invariant
            k <= symbols@.len(),
            forest_ok(symbols@.skip(k as int), depth as nat),
            string_views(out@) + forest_lines(symbols@.skip(k as int), depth as nat) == start + forest_lines(
                symbols@,
                depth as nat,
            ),
        decreases symbols@.len() - k,
    {
        let ghost rest = symbols@.skip(k as int);
        assert(rest[0] == symbols@[k as int]);
        assert(rest.drop_first() =~= symbols@.skip(k + 1));
        push_tree_lines(&symbols[k], depth, out);
        k = k + 1;
    }
    assert(symbols@.skip(symbols@.len() as int) =~= Seq::<DocumentSymbol>::empty());
}

/// Appends the lines of one symbol tree.
fn push_tree_lines(symbol: &DocumentSymbol, depth: usize, out: &mut Vec<String>)
    requires
        tree_ok(*symbol, depth as nat),
    ensures
        string_views(final(out)@) == string_views(old(out)@) + tree_lines(*symbol, depth as nat),
    decreases *symbol, 1int,
{
    let mut line = indent_string(depth);
    push_symbol_line(&mut line, symbol.kind_name.as_str(), symbol.name.as_str(), symbol.range.start.line, symbol.range.start.character);
    let ghost prev = string_views(out@);
    let ghost lv = line@;
    out.push(line);
    assert(string_views(out@) =~= prev.push(lv));
    match &symbol.children {
        Some(children) => {
            push_forest_lines(children.as_slice(), depth + 1, out);
        },
        None => {},
    }
}

/// Whether every flat symbol's position can be shown one-based.
pub open spec fn flat_ok(symbols: Seq<SymbolInformation>) -> bool {
    forall|i: int|
        0 <= i < symbols.len() ==> (#[trigger] symbols[i]).location.range.start.line < u32::MAX
            && symbols[i].location.range.start.character < u32::MAX
}

/// The line of a flat document symbol.
pub open spec fn flat_symbol_line(s: SymbolInformation) -> Seq<char> {
    symbol_line(s.kind_name@, s.name@, s.location.range.start.line, s.location.range.start.character)
}

/// The document symbols: a note when there are none, else one line per
/// symbol (nested symbols indented under their parents).
pub open spec fn document_symbols_text(resp: Option<DocumentSymbolResponse>) -> Seq<char> {
    match resp {
        None => "No symbols found."@,
        Some(DocumentSymbolResponse::Flat(symbols)) => if symbols@.len() == 0 {
            "No symbols found."@
        } else {
            join(symbols@.map_values(|s: SymbolInformation| flat_symbol_line(s)), "\n"@)
        },
        Some(DocumentSymbolResponse::Nested(symbols)) => if symbols@.len() == 0 {
            "No symbols found."@
        } else {
            join(forest_lines(symbols@, 0), "\n"@)
        },
    }
}

/// Law: a flat list of document symbols gives one line per symbol, in order,
/// each its kind, name and one-based position: a single symbol gives its
/// line, and one more symbol at the end adds exactly its line after a line
/// break.
pub proof fn law_flat_symbols_one_line_each(
    v: Vec<SymbolInformation>,
    w: Vec<SymbolInformation>,
    x: SymbolInformation,
)
    ensures
        v@ == seq![x] ==> document_symbols_text(Some(DocumentSymbolResponse::Flat(v))) == x.kind_name@ + " "@
            + x.name@ + " ["@ + decimal((x.location.range.start.line + 1) as nat) + ":"@ + decimal(
            (x.location.range.start.character + 1) as nat,
        ) + "]"@,
        v@.len() > 0 && w@ == v@.push(x) ==> document_symbols_text(Some(DocumentSymbolResponse::Flat(w)))
            == document_symbols_text(Some(DocumentSymbolResponse::Flat(v))) + "\n"@ + x.kind_name@ + " "@
            + x.name@ + " ["@ + decimal((x.location.range.start.line + 1) as nat) + ":"@ + decimal(
            (x.location.range.start.character + 1) as nat,
        ) + "]"@,
{
    reveal_strlit(" ");
    reveal_strlit(" [");
    reveal_strlit(":");
    reveal_strlit("]");
    reveal_strlit("\n");
    let f = |s: SymbolInformation| flat_symbol_line(s);
    let line = x.kind_name@ + " "@ + x.name@ + " ["@ + decimal((x.location.range.start.line + 1) as nat) + ":"@
        + decimal((x.location.range.start.character + 1) as nat) + "]"@;
    assert(flat_symbol_line(x) =~= line);
    if v@ == seq![x] {
        assert(v@.map_values(f) =~= seq![flat_symbol_line(x)]);
    }
    if v@.len() > 0 && w@ == v@.push(x) {
        assert(w@.map_values(f) =~= v@.map_values(f).push(flat_symbol_line(x)));
        assert(w@.map_values(f).drop_last() =~= v@.map_values(f));
        assert(document_symbols_text(Some(DocumentSymbolResponse::Flat(w))) =~= document_symbols_text(
            Some(DocumentSymbolResponse::Flat(v)),
        ) + "\n"@ + line);
    }
}

proof fn lemma_join_front(a: Seq<char>, r: Seq<Seq<char>>, sep: Seq<char>)
    requires
        r.len() > 0,
    ensures
        join(seq![a] + r, sep) == a + sep + join(r, sep),
    decreases r.len(),
{
    let all = seq![a] + r;
    assert(join(all, sep) == join(all.drop_last(), sep) + sep + all.last());
    if r.len() == 1 {
        assert(all.drop_last() =~= seq![a]);
        assert(seq![a][0] == a);
        assert(join(seq![a], sep) == a);
        assert(all.last() == r[0]);
        assert(join(r, sep) == r[0]);
        assert(join(all, sep) =~= a + sep + join(r, sep));
    } else {
        lemma_join_front(a, r.drop_last(), sep);
        assert(all.drop_last() =~= seq![a] + r.drop_last());
        assert(all.last() == r.last());
        assert(join(r, sep) == join(r.drop_last(), sep) + sep + r.last());
        assert(join(all, sep) =~= a + sep + join(r, sep));
    }
}

/// Law: a symbol tree without children, placed first in a tree answer, gives
/// its own line (kind, name, one-based position), then a line break and the
/// lines of the symbols after it; alone, it gives just its line.
pub proof fn law_nested_leaf_line_first(v: Vec<DocumentSymbol>, w: Vec<DocumentSymbol>, x: DocumentSymbol)
    requires
        x.children is None,
    ensures
        v@ == seq![x] ==> document_symbols_text(Some(DocumentSymbolResponse::Nested(v))) == x.kind_name@ + " "@
            + x.name@ + " ["@ + decimal((x.range.start.line + 1) as nat) + ":"@ + decimal(
            (x.range.start.character + 1) as nat,
        ) + "]"@,
        v@.len() > 0 && w@ == seq![x] + v@ ==> document_symbols_text(Some(DocumentSymbolResponse::Nested(w)))
            == x.kind_name@ + " "@ + x.name@ + " ["@ + decimal((x.range.start.line + 1) as nat) + ":"@ + decimal(
            (x.range.start.character + 1) as nat,
        ) + "]"@ + "\n"@ + document_symbols_text(Some(DocumentSymbolResponse::Nested(v))),
{
    reveal_strlit(" ");
    reveal_strlit(" [");
    reveal_strlit(":");
    reveal_strlit("]");
    reveal_strlit("\n");
    let line = x.kind_name@ + " "@ + x.name@ + " ["@ + decimal((x.range.start.line + 1) as nat) + ":"@ + decimal(
        (x.range.start.character + 1) as nat,
    ) + "]"@;
    assert(indent(0) =~= Seq::<char>::empty());
    assert(symbol_line(x.kind_name@, x.name@, x.range.start.line, x.range.start.character) =~= line);
    assert(indent(0) + symbol_line(x.kind_name@, x.name@, x.range.start.line, x.range.start.character) =~= line);
    assert(tree_lines(x, 0) =~= seq![line]);
    if v@ == seq![x] {
        assert(v@.drop_first() =~= Seq::<DocumentSymbol>::empty());
        assert(forest_lines(v@.drop_first(), 0) == Seq::<Seq<char>>::empty());
        assert(forest_lines(v@, 0) =~= seq![line]);
    }
    if v@.len() > 0 && w@ == seq![x] + v@ {
        assert(w@[0] == x);
        assert(w@.drop_first() =~= v@);
        assert(forest_lines(w@, 0) == seq![line] + forest_lines(v@, 0));
        assert(forest_lines(v@, 0).len() > 0) by {
            assert(forest_lines(v@, 0) == tree_lines(v@[0], 0) + forest_lines(v@.drop_first(), 0));
        }
        lemma_join_front(line, forest_lines(v@, 0), "\n"@);
    }
}

/// The answer to `documentSymbol`.
pub fn format_document_symbols(resp: Option<DocumentSymbolResponse>) -> (r: String)
    requires
        match resp {
            Some(DocumentSymbolResponse::Flat(symbols)) => flat_ok(symbols@),
            Some(DocumentSymbolResponse::Nested(symbols)) => forest_ok(symbols@, 0),
            None => true,
        },
    ensures
        r@ == document_symbols_text(resp),
{
    match resp {
        None => String::from_str("No symbols found."),
        Some(DocumentSymbolResponse::Flat(symbols)) => {
            if symbols.len() == 0 {
                return String::from_str("No symbols found.");
            }
            let mut lines: Vec<String> = Vec::new();
            let mut k: usize = 0;
            while k < symbols.len()
                invariant
                    k <= symbols@.len(),
                    flat_ok(symbols@),
                    string_views(lines@) == symbols@.take(k as int).map_values(|s: SymbolInformation| flat_symbol_line(s)),
                decreases symbols@.len() - k,
            {
                let sym = &symbols[k];
                assert(sym.location.range.start.line < u32::MAX);
                let mut line = String::new();
                push_symbol_line(
                    &mut line,
                    sym.kind_name.as_str(),
                    sym.name.as_str(),
                    sym.location.range.start.line,
                    sym.location.range.start.character,
                );
                let ghost prev = string_views(lines@);
                let ghost lv = line@;
                lines.push(line);
                assert(string_views(lines@) =~= prev.push(lv));
                k = k + 1;
                assert(string_views(lines@) =~= symbols@.take(k as int).map_values(|s: SymbolInformation| flat_symbol_line(s)));
            }
            assert(symbols@.take(symbols@.len() as int) =~= symbols@);
            join_strings(&lines, "\n")
        },
        Some(DocumentSymbolResponse::Nested(symbols)) => {
            if symbols.len() == 0 {
                return String::from_str("No symbols found.");
            }
            let mut lines: Vec<String> = Vec::new();
            push_forest_lines(symbols.as_slice(), 0, &mut lines);
            assert(string_views(lines@) =~= forest_lines(symbols@, 0));
            join_strings(&lines, "\n")
        },
    }
}

/// The note that a query was answered at a nearby position.
pub open spec fn resolved_at_text(path: Seq<char>, resolved: Option<(u32, u32)>) -> Seq<char> {
    match resolved {
        Some((line, character)) => "Resolved at "@ + path + seq![':'] + decimal((line + 1) as nat) + seq![':']
            + decimal((character + 1) as nat) + seq!['\n'],
        None => seq![],
    }
}

/// The note that a query was answered at `resolved` rather than at the
/// requested position (`path` is the file as displayed); empty otherwise.
pub fn resolved_at_prefix(path: &str, resolved: Option<(u32, u32)>) -> (r: String)
    requires
        match resolved {
            Some((line, character)) => line < u32::MAX && character < u32::MAX,
            None => true,
        },
    ensures
        r@ == resolved_at_text(path@, resolved),
{
    let mut out = String::new();
    if let Some((line, character)) = resolved {
        out.append("Resolved at ");
        out.append(path);
        push_char(&mut out, ':');
        push_decimal(&mut out, (line + 1) as u64);
        push_char(&mut out, ':');
        push_decimal(&mut out, (character + 1) as u64);
        push_char(&mut out, '\n');
    }
    out
}

/// The line offsets tried around a position, nearest first.
pub open spec fn line_offset(i: int) -> int {
    if i % 2 == 0 { i / 2 } else { -((i + 1) / 2) }
}

/// A `u32` read as an `i32`, as `as i32` does.
pub open spec fn as_i32(x: u32) -> int {
    if x <= i32::MAX { x as int } else { x - 0x1_0000_0000 }
}

/// The positions around (`line0`, `char0`) in the order they are tried:
/// line offsets 0, -1, 1, -2, 2 and, for each, character offsets 0, -1, 1,
/// ..., -8, 8, leaving out those before the start of the document. The
/// coordinates are computed as `i32`.
pub open spec fn fuzz_positions_upto(line0: u32, char0: u32, n: int) -> Seq<(u32, u32)>
    decreases n,
{
    if n <= 0 {
        seq![]
    } else {
        let prev = fuzz_positions_upto(line0, char0, n - 1);
        let k = n - 1;
        let line = as_i32(line0) + line_offset(k / 17);
        let character = as_i32(char0) + line_offset(k % 17);
        if line < 0 || character < 0 {
            prev
        } else {
            prev.push((line as u32, character as u32))
        }
    }
}

/// All the positions around (`line0`, `char0`), in the order they are tried.
pub open spec fn fuzz_positions_spec(line0: u32, char0: u32) -> Seq<(u32, u32)> {
    fuzz_positions_upto(line0, char0, 85)
}

/// The position tried at step `k`, as integers.
pub open spec fn fuzz_step(line0: u32, char0: u32, k: int) -> (int, int) {
    (as_i32(line0) + line_offset(k / 17), as_i32(char0) + line_offset(k % 17))
}

/// Whether step `k` tried a position inside the document, and that
/// position.
pub open spec fn fuzz_step_gives(line0: u32, char0: u32, k: int, p: (u32, u32)) -> bool {
    &&& fuzz_step(line0, char0, k).0 >= 0
    &&& fuzz_step(line0, char0, k).1 >= 0
    &&& p == (fuzz_step(line0, char0, k).0 as u32, fuzz_step(line0, char0, k).1 as u32)
}

/// Whether one of the first `n` steps tried `p`.
pub open spec fn tried_by_step(line0: u32, char0: u32, n: int, p: (u32, u32)) -> bool {
    exists|k: int| 0 <= k < n && #[trigger] fuzz_step_gives(line0, char0, k, p)
}

proof fn lemma_line_offset_injective(a: int, b: int)
    requires
        0 <= a,
        0 <= b,
        line_offset(a) == line_offset(b),
    ensures
        a == b,
{
}

proof fn lemma_fuzz_upto(line0: u32, char0: u32, n: int)
    requires
        0 <= n <= 85,
    ensures
        forall|i: int|
            0 <= i < fuzz_positions_upto(line0, char0, n).len() ==> #[trigger] tried_by_step(
                line0,
                char0,
                n,
                fuzz_positions_upto(line0, char0, n)[i],
            ),
        forall|i: int, j: int|
            0 <= i < j < fuzz_positions_upto(line0, char0, n).len() ==> fuzz_positions_upto(line0, char0, n)[i]
                != fuzz_positions_upto(line0, char0, n)[j],
    decreases n,
{
    if n > 0 {
        lemma_fuzz_upto(line0, char0, n - 1);
        let prev = fuzz_positions_upto(line0, char0, n - 1);
        let cur = fuzz_positions_upto(line0, char0, n);
        let k = n - 1;
        let st = fuzz_step(line0, char0, k);
        if st.0 >= 0 && st.1 >= 0 {
            let p = (st.0 as u32, st.1 as u32);
            assert(cur == prev.push(p));
            assert(fuzz_step_gives(line0, char0, k, p));
            assert forall|i: int| 0 <= i < prev.len() implies prev[i] != p by {
                assert(tried_by_step(line0, char0, n - 1, prev[i]));
                let k2 = choose|k2: int| 0 <= k2 < n - 1 && #[trigger] fuzz_step_gives(line0, char0, k2, prev[i]);
                let st2 = fuzz_step(line0, char0, k2);
                if prev[i] == p {
                    assert(st2.0 <= i32::MAX + 2 && st.0 <= i32::MAX + 2);
                    assert(st2.0 == st.0);
                    assert(st2.1 == st.1);
                    lemma_line_offset_injective(k2 / 17, k / 17);
                    lemma_line_offset_injective(k2 % 17, k % 17);
                    assert(k2 == 17 * (k2 / 17) + k2 % 17);
                    assert(k == 17 * (k / 17) + k % 17);
                }
            }
            assert forall|i: int| 0 <= i < cur.len() implies #[trigger] tried_by_step(line0, char0, n, cur[i]) by {
                if i < prev.len() {
                    assert(cur[i] == prev[i]);
                    assert(tried_by_step(line0, char0, n - 1, prev[i]));
                    let k2 = choose|k2: int| 0 <= k2 < n - 1 && #[trigger] fuzz_step_gives(line0, char0, k2, prev[i]);
                    assert(fuzz_step_gives(line0, char0, k2, cur[i]));
                } else {
                    assert(fuzz_step_gives(line0, char0, k, cur[i]));
                }
            }
        } else {
            assert(cur == prev);
            assert forall|i: int| 0 <= i < cur.len() implies #[trigger] tried_by_step(line0, char0, n, cur[i]) by {
                assert(tried_by_step(line0, char0, n - 1, prev[i]));
                let k2 = choose|k2: int| 0 <= k2 < n - 1 && #[trigger] fuzz_step_gives(line0, char0, k2, prev[i]);
                assert(fuzz_step_gives(line0, char0, k2, cur[i]));
            }
        }
    }
}

/// The positions tried around a position are all different, and the first
/// is the position itself.
pub proof fn law_fuzz_positions_distinct(line0: u32, char0: u32)
    requires
        line0 <= i32::MAX,
        char0 <= i32::MAX,
    ensures
        forall|i: int, j: int|
            0 <= i < j < fuzz_positions_spec(line0, char0).len() ==> fuzz_positions_spec(line0, char0)[i]
                != fuzz_positions_spec(line0, char0)[j],
        fuzz_positions_spec(line0, char0).len() >= 1,
        fuzz_positions_spec(line0, char0)[0] == (line0, char0),
{
    lemma_fuzz_upto(line0, char0, 85);
    lemma_fuzz_prefix(line0, char0, 85);
}

/// The first position tried is the position itself.
proof fn lemma_fuzz_prefix(line0: u32, char0: u32, n: int)
    requires
        1 <= n <= 85,
        line0 <= i32::MAX,
        char0 <= i32::MAX,
    ensures
        fuzz_positions_upto(line0, char0, n).len() >= 1,
        fuzz_positions_upto(line0, char0, n)[0] == (line0, char0),
    decreases n,
{
    if n > 1 {
        lemma_fuzz_prefix(line0, char0, n - 1);
    } else {
        assert(fuzz_positions_upto(line0, char0, 0) == Seq::<(u32, u32)>::empty());
    }
}

fn offset_at(i: usize) -> (o: i32)
    requires
        i < 17,
    ensures
        o as int == line_offset(i as int),
        -8 <= o <= 8,
        i < 5 ==> -2 <= o <= 2,
{
    if i % 2 == 0 {
        (i / 2) as i32
    } else {
        -(((i + 1) / 2) as i32)
    }
}

/// The positions around (`line0`, `char0`) tried when a query at the
/// position itself finds nothing, the position itself first. The `i32`
/// arithmetic must not overflow, which leaves out the lines and characters
/// just below `i32::MAX`.
pub fn fuzz_positions(line0: u32, char0: u32) -> (out: Vec<(u32, u32)>)
    requires
        i32::MIN <= as_i32(line0) - 2 && as_i32(line0) + 2 <= i32::MAX,
        i32::MIN <= as_i32(char0) - 8 && as_i32(char0) + 8 <= i32::MAX,
    ensures
        out@ == fuzz_positions_spec(line0, char0),
{
    let l0: i32 = line0 as i32;
    let c0: i32 = char0 as i32;
    assert(l0 as int == as_i32(line0)) by (bit_vector)
        requires l0 == line0 as i32;
    assert(c0 as int == as_i32(char0)) by (bit_vector)
        requires c0 == char0 as i32;
    let mut out: Vec<(u32, u32)> = Vec::new();
    let mut li: usize = 0;
    while li < 5
        invariant
            li <= 5,
            l0 as int == as_i32(line0),
            c0 as int == as_i32(char0),
            i32::MIN <= as_i32(line0) - 2 && as_i32(line0) + 2 <= i32::MAX,
            i32::MIN <= as_i32(char0) - 8 && as_i32(char0) + 8 <= i32::MAX,
            out@ == fuzz_positions_upto(line0, char0, (li * 17) as int),
        decreases 5 - li,
    {
        let lo = offset_at(li);
        let mut ci: usize = 0;
        while ci < 17
            invariant
                li < 5,
                ci <= 17,
                l0 as int == as_i32(line0),
                c0 as int == as_i32(char0),
                i32::MIN <= as_i32(line0) - 2 && as_i32(line0) + 2 <= i32::MAX,
                i32::MIN <= as_i32(char0) - 8 && as_i32(char0) + 8 <= i32::MAX,
                lo as int == line_offset(li as int),
                -2 <= lo <= 2,
                out@ == fuzz_positions_upto(line0, char0, (li * 17 + ci) as int),
            decreases 17 - ci,
        {
            let co = offset_at(ci);
            let line = l0 + lo;
            let character = c0 + co;
            let ghost n = (li * 17 + ci) as int;
            assert((n + 1 - 1) / 17 == li as int && (n + 1 - 1) % 17 == ci as int) by (nonlinear_arith)
                requires n == li * 17 + ci, ci < 17;
            if line >= 0 && character >= 0 {
                out.push((line as u32, character as u32));
            }
            ci = ci + 1;
        }
        li = li + 1;
    }
    out
}

/// The positions tried after the first one, at most `max_attempts`.
pub open spec fn fuzz_candidates_spec(line0: u32, char0: u32, max_attempts: usize) -> Seq<(u32, u32)> {
    if fuzz_positions_spec(line0, char0).len() == 0 {
        seq![]
    } else if fuzz_positions_spec(line0, char0).len() - 1 <= max_attempts {
        fuzz_positions_spec(line0, char0).skip(1)
    } else {
        fuzz_positions_spec(line0, char0).skip(1).take(max_attempts as int)
    }
}

/// The positions to try, in order, when the query at (`line0`, `char0`)
/// found nothing: the nearby positions after the first, at most
/// `max_attempts` of them.
pub fn fuzz_candidates(line0: u32, char0: u32, max_attempts: usize) -> (out: Vec<(u32, u32)>)
    requires
        i32::MIN <= as_i32(line0) - 2 && as_i32(line0) + 2 <= i32::MAX,
        i32::MIN <= as_i32(char0) - 8 && as_i32(char0) + 8 <= i32::MAX,
    ensures
        out@ == fuzz_candidates_spec(line0, char0, max_attempts),
{
    let all = fuzz_positions(line0, char0);
    let mut out: Vec<(u32, u32)> = Vec::new();
    if all.len() == 0 {
        return out;
    }
    let mut k: usize = 1;
    while k < all.len() && k - 1 < max_attempts
        invariant
            1 <= k <= all@.len(),
            k - 1 <= max_attempts,
            out@ == all@.skip(1).take(k - 1),
        decreases all@.len() - k,
    {
        out.push(all[k]);
        k = k + 1;
        assert(out@ =~= all@.skip(1).take(k - 1));
    }
    proof {
        if all@.len() - 1 <= max_attempts {
            assert(k == all@.len());
            assert(out@ =~= all@.skip(1));
        } else {
            assert(k - 1 == max_attempts);
        }
    }
    out
}

/// The error when `workspaceSymbol` has no query.
pub open spec fn missing_query_error() -> Seq<char> {
    "workspaceSymbol requires a non-empty `query` string"@
}

/// The query of a `workspaceSymbol` call: the `query` argument trimmed,
/// which must not be empty.
pub fn workspace_symbol_query(query: Option<&str>) -> (r: Result<String, String>)
    ensures
        match query {
            Some(q) => if trim(q@).len() > 0 {
                r matches Ok(t) && t@ == trim(q@)
            } else {
                r matches Err(e) && e@ == missing_query_error()
            },
            None => r matches Err(e) && e@ == missing_query_error(),
        },
{
    if let Some(q) = query {
        let t = trim_chars(chars_of(q).as_slice());
        if t.len() > 0 {
            return Ok(string_of(t.as_slice()));
        }
    }
    Err(String::from_str("workspaceSymbol requires a non-empty `query` string"))
}

/// The error when no language-server registry answers for `root` (or for
/// any root).
pub fn no_lsp_registry_error(root: Option<&str>) -> (r: String)
    ensures
        r@ == match root {
            Some(root) => "unknown root '"@ + root@ + "' or root has no LSP registry"@,
            None => "no LSP roots are configured"@,
        },
{
    match root {
        Some(root) => {
            let mut s = String::from_str("unknown root '");
            s.append(root);
            s.append("' or root has no LSP registry");
            s
        },
        None => String::from_str("no LSP roots are configured"),
    }
}

/// Whether `workspaceSymbol` asks the servers again on retry `attempt`
/// (1 to 3): only while nothing was found and some server is running.
pub fn retry_workspace_symbols(attempt: u64, found_any: bool, any_running: bool) -> (r: bool)
    ensures
        r == (1 <= attempt <= 3 && !found_any && any_running),
{
    1 <= attempt && attempt <= 3 && !found_any && any_running
}

/// The error when no symbol was found and no language server is running.
pub open spec fn no_running_servers_error() -> Seq<char> {
    "no LSP servers are running (failed to start any). Use `code_intel` for tree-sitter-based analysis or `grep` for text search instead."@
}

/// What `workspaceSymbol` answers once the servers were asked: an error
/// when nothing was found and no server runs, else the symbols.
pub fn workspace_symbols_outcome(found_any: bool, any_running: bool) -> (r: Result<(), String>)
    ensures
        r is Err <==> (!found_any && !any_running),
        r matches Err(e) ==> e@ == no_running_servers_error(),
{
    if !found_any && !any_running {
        return Err(
            String::from_str(
                "no LSP servers are running (failed to start any). Use `code_intel` for tree-sitter-based analysis or `grep` for text search instead.",
            ),
        );
    }
    Ok(())
}

/// What a fuzzy position query does next.
#[derive(Debug, Clone, Copy, PartialEq, Eq, Structural)]
pub enum FuzzStep {
    /// Query this position and report whether the answer was empty.
    Query(u32, u32),
    /// Stop and answer with the first query's result.
    KeepFirst,
    /// Stop and answer with the last query's result, found at this position.
    UseCandidate(u32, u32),
}

/// The next step of a search that retries (when `fuzz` is set) at the
/// candidates `c`, `t` of them tried, given whether the last answer was
/// empty (the first query's while `t` is 0), and how many are tried after it.
pub open spec fn fuzz_next(fuzz: bool, c: Seq<(u32, u32)>, t: nat, empty: bool) -> (FuzzStep, nat) {
    if t == 0 && (!fuzz || !empty) {
        (FuzzStep::KeepFirst, t)
    } else if t > 0 && !empty {
        (FuzzStep::UseCandidate(c[t - 1].0, c[t - 1].1), t)
    } else if t < c.len() {
        (FuzzStep::Query(c[t as int].0, c[t as int].1), t + 1)
    } else {
        (FuzzStep::KeepFirst, t)
    }
}

/// Where a search ends when its queries answer as `empties` says (the first
/// query's answer, then each candidate's in order), from `t` candidates
/// tried.
pub open spec fn fuzz_run(fuzz: bool, c: Seq<(u32, u32)>, empties: Seq<bool>, t: nat) -> FuzzStep
    decreases c.len() - t,
{
    if t > c.len() || t >= empties.len() {
        FuzzStep::KeepFirst
    } else {
        let (r, next) = fuzz_next(fuzz, c, t, empties[t as int]);
        if r is Query && t < next <= c.len() {
            fuzz_run(fuzz, c, empties, next)
        } else {
            r
        }
    }
}

proof fn lemma_fuzz_run_after_misses(fuzz: bool, c: Seq<(u32, u32)>, empties: Seq<bool>, t: nat)
    requires
        empties.len() > c.len(),
        0 < t <= c.len(),
        forall|j: int| 0 <= j < t ==> #[trigger] empties[j],
    ensures
        fuzz_run(fuzz, c, empties, t) !is Query,
        fuzz_run(fuzz, c, empties, t) matches FuzzStep::UseCandidate(l, ch) ==> exists|k: int|
            t - 1 <= k < c.len() && c[k] == (l, ch) && !empties[k + 1] && forall|j: int| 0 <= j <= k ==> #[trigger] empties[j],
        fuzz_run(fuzz, c, empties, t) is KeepFirst ==> forall|j: int| 0 <= j <= c.len() ==> #[trigger] empties[j],
    decreases c.len() - t,
{
    if empties[t as int] && t < c.len() {
        lemma_fuzz_run_after_misses(fuzz, c, empties, t + 1);
    } else if !empties[t as int] {
        let k = t - 1;
        assert(c[k] == (c[k].0, c[k].1));
        assert(!empties[k + 1]);
    }
}

/// Law: a fuzzy query answers at a nearby position only when the first
/// query and every candidate before it answered empty, and then at the
/// first candidate that answered; it keeps the first answer when retries
/// are off, when that answer was not empty, or when no candidate answered.
/// The search never stops waiting for another query.
pub proof fn law_fuzz_search_answers_at_first_hit(fuzz: bool, c: Seq<(u32, u32)>, empties: Seq<bool>)
    requires
        empties.len() > c.len(),
    ensures
        fuzz_run(fuzz, c, empties, 0) !is Query,
        fuzz_run(fuzz, c, empties, 0) matches FuzzStep::UseCandidate(l, ch) ==> fuzz && exists|k: int|
            0 <= k < c.len() && c[k] == (l, ch) && !empties[k + 1] && forall|j: int| 0 <= j <= k ==> #[trigger] empties[j],
        fuzz_run(fuzz, c, empties, 0) is KeepFirst ==> !fuzz || !empties[0] || forall|j: int|
            0 <= j <= c.len() ==> #[trigger] empties[j],
{
    if fuzz && empties[0] && c.len() > 0 {
        lemma_fuzz_run_after_misses(fuzz, c, empties, 1);
    }
}

/// A query at a position that, when the answer is empty, retries at the
/// nearby positions in order until one answers.
pub struct FuzzSearch {
    fuzz: bool,
    candidates: Vec<(u32, u32)>,
    tried: usize,
}

impl FuzzSearch {
    /// Whether retries are allowed.
    pub closed spec fn fuzz_view(&self) -> bool {
        self.fuzz
    }

    /// The positions retried, in order.
    pub closed spec fn candidates_view(&self) -> Seq<(u32, u32)> {
        self.candidates@
    }

    /// How many of them were queried.
    pub closed spec fn tried_view(&self) -> nat {
        self.tried as nat
    }

    /// At most all of the candidates were queried.
    pub closed spec fn wf(&self) -> bool {
        self.tried <= self.candidates@.len()
    }

    /// A search around (`line0`, `char0`) that retries at most
    /// `max_attempts` positions when `fuzz` is set; the first query is at
    /// (`line0`, `char0`) itself.
    pub fn new(fuzz: bool, line0: u32, char0: u32, max_attempts: usize) -> (r: Self)
        requires
            i32::MIN <= as_i32(line0) - 2 && as_i32(line0) + 2 <= i32::MAX,
            i32::MIN <= as_i32(char0) - 8 && as_i32(char0) + 8 <= i32::MAX,
        ensures
            r.wf(),
            r.fuzz_view() == fuzz,
            r.candidates_view() == fuzz_candidates_spec(line0, char0, max_attempts),
            r.tried_view() == 0,
    {
        FuzzSearch { fuzz, candidates: fuzz_candidates(line0, char0, max_attempts), tried: 0 }
    }

    /// The next step, given whether the last query's answer was empty (the
    /// first query's, while no candidate was tried). An answer at a
    /// candidate ends the search with that candidate; an empty one moves on
    /// to the next candidate; with none left, or with retries off, or when
    /// the first answer was not empty, the first answer stands.
    pub fn step(&mut self, empty: bool) -> (r: FuzzStep)
        requires
            old(self).wf(),
        ensures
            final(self).wf(),
            final(self).fuzz_view() == old(self).fuzz_view(),
            final(self).candidates_view() == old(self).candidates_view(),
            (r, final(self).tried_view()) == fuzz_next(
                old(self).fuzz_view(),
                old(self).candidates_view(),
                old(self).tried_view(),
                empty,
            ),
    {
        if self.tried == 0 && (!self.fuzz || !empty) {
            return FuzzStep::KeepFirst;
        }
        if self.tried > 0 && !empty {
            let (l, c) = self.candidates[self.tried - 1];
            return FuzzStep::UseCandidate(l, c);
        }
        if self.tried < self.candidates.len() {
            let (l, c) = self.candidates[self.tried];
            self.tried = self.tried + 1;
            return FuzzStep::Query(l, c);
        }
        FuzzStep::KeepFirst
    }
}

/// The piece of `s` after the last `sep`, as `s.rsplit(sep).next()` gives
/// it; all of `s` when `sep` does not occur.
pub open spec fn after_last(s: Seq<char>, sep: Seq<char>) -> Seq<char> {
    if contains(s, sep) {
        s.skip(last_occurrence(s, sep) + sep.len())
    } else {
        s
    }
}

/// Whether a symbol named `name` answers to `query`: the trimmed query is
/// not empty and is the name, or its last `::` segment is.
pub open spec fn symbol_name_matches_spec(name: Seq<char>, query: Seq<char>) -> bool {
    trim(query).len() > 0 && (name == trim(query) || name == after_last(trim(query), "::"@))
}

/// Whether a symbol named `name` answers to `query`.
pub fn symbol_name_matches(name: &str, query: &str) -> (b: bool)
    ensures
        b == symbol_name_matches_spec(name@, query@),
{
    let q = trim_chars(chars_of(query).as_slice());
    if q.len() == 0 {
        return false;
    }
    let n = chars_of(name);
    if eq_chars(&n, &q) {
        return true;
    }
    let sep = chars_of("::");
    proof {
        reveal_strlit("::");
    }
    let last = match rfind_chars(q.as_slice(), sep.as_slice()) {
        Some(i) => skip_copy(q.as_slice(), i + 2),
        None => q,
    };
    eq_chars(&n, &last)
}

/// A symbol found in a document: its position, name and kind.
pub type SymbolCandidate = (u32, u32, String, String);

/// The candidates as positions, names and kinds.
pub open spec fn candidate_views(v: Seq<SymbolCandidate>) -> Seq<(u32, u32, Seq<char>, Seq<char>)> {
    v.map_values(|c: SymbolCandidate| (c.0, c.1, c.2@, c.3@))
}

/// The flat symbols that answer to `query`, at their start, in order.
pub open spec fn flat_candidates(symbols: Seq<SymbolInformation>, query: Seq<char>) -> Seq<(u32, u32, Seq<char>, Seq<char>)>
    decreases symbols.len(),
{
    if symbols.len() == 0 {
        seq![]
    } else {
        let prev = flat_candidates(symbols.drop_last(), query);
        let s = symbols.last();
        if symbol_name_matches_spec(s.name@, query) {
            prev.push((s.location.range.start.line, s.location.range.start.character, s.name@, s.kind_name@))
        } else {
            prev
        }
    }
}

/// The symbols of a tree that answer to `query`, depth first, at the start
/// of their selection range.
pub open spec fn tree_candidates(s: DocumentSymbol, query: Seq<char>) -> Seq<(u32, u32, Seq<char>, Seq<char>)>
    decreases s, 1int,
{
    (if symbol_name_matches_spec(s.name@, query) {
        seq![(s.selection_range.start.line, s.selection_range.start.character, s.name@, s.kind_name@)]
    } else {
        seq![]
    }) + match s.children {
        Some(children) => forest_candidates(children@, query),
        None => seq![],
    }
}

/// The symbols of the trees that answer to `query`, in order.
pub open spec fn forest_candidates(ss: Seq<DocumentSymbol>, query: Seq<char>) -> Seq<(u32, u32, Seq<char>, Seq<char>)>
    decreases ss, 0int,
{
    if ss.len() == 0 {
        seq![]
    } else {
        tree_candidates(ss[0], query) + forest_candidates(ss.drop_first(), query)
    }
}

/// The symbols of the document that answer to `query`.
pub open spec fn document_candidates(resp: Option<DocumentSymbolResponse>, query: Seq<char>) -> Seq<(u32, u32, Seq<char>, Seq<char>)> {
    match resp {
        None => seq![],
        Some(DocumentSymbolResponse::Flat(symbols)) => flat_candidates(symbols@, query),
        Some(DocumentSymbolResponse::Nested(symbols)) => forest_candidates(symbols@, query),
    }
}

fn push_candidate(out: &mut Vec<SymbolCandidate>, line: u32, character: u32, name: &String, kind_name: &String)
    ensures
        candidate_views(final(out)@) == candidate_views(old(out)@).push((line, character, name@, kind_name@)),
{
    let ghost prev = candidate_views(out@);
    out.push((line, character, name.clone(), kind_name.clone()));
    assert(candidate_views(out@) =~= prev.push((line, character, name@, kind_name@)));
}

fn collect_tree_candidates(symbol: &DocumentSymbol, query: &str, out: &mut Vec<SymbolCandidate>)
    ensures
        candidate_views(final(out)@) == candidate_views(old(out)@) + tree_candidates(*symbol, query@),
    decreases *symbol, 1int,
{
    let ghost start = candidate_views(out@);
    if symbol_name_matches(symbol.name.as_str(), query) {
        push_candidate(out, symbol.selection_range.start.line, symbol.selection_range.start.character, &symbol.name, &symbol.kind_name);
    }
    let ghost mid = candidate_views(out@);
    match &symbol.children {
        Some(children) => collect_forest_candidates(children.as_slice(), query, out),
        None => {},
    }
    assert(candidate_views(out@) =~= start + tree_candidates(*symbol, query@));
}

fn collect_forest_candidates(symbols: &[DocumentSymbol], query: &str, out: &mut Vec<SymbolCandidate>)
    ensures
        candidate_views(final(out)@) == candidate_views(old(out)@) + forest_candidates(symbols@, query@),
    decreases symbols@, 0int,
{
    let ghost start = candidate_views(out@);
    assert(symbols@.skip(0) =~= symbols@);
    let mut k: usize = 0;
    while k < symbols.len()
        invariant
            k <= symbols@.len(),
            candidate_views(out@) + forest_candidates(symbols@.skip(k as int), query@) == start + forest_candidates(
                symbols@,
                query@,
            ),
        decreases symbols@.len() - k,
    {
        let ghost rest = symbols@.skip(k as int);
        assert(rest[0] == symbols@[k as int]);
        assert(rest.drop_first() =~= symbols@.skip(k + 1));
        let ghost before = candidate_views(out@);
        collect_tree_candidates(&symbols[k], query, out);
        assert(candidate_views(out@) + forest_candidates(symbols@.skip(k + 1), query@) =~= before + forest_candidates(rest, query@));
        k = k + 1;
    }
    assert(symbols@.skip(symbols@.len() as int) =~= Seq::<DocumentSymbol>::empty());
    assert(candidate_views(out@) =~= start + forest_candidates(symbols@, query@));
}

/// Adds to `out` the symbols of the document that answer to `query`.
pub fn collect_document_symbol_candidates(resp: &Option<DocumentSymbolResponse>, query: &str, out: &mut Vec<SymbolCandidate>)
    ensures
        candidate_views(final(out)@) == candidate_views(old(out)@) + document_candidates(*resp, query@),
{
    match resp {
        None => {
            assert(candidate_views(out@) =~= candidate_views(out@) + Seq::empty());
        },
        Some(DocumentSymbolResponse::Flat(symbols)) => {
            let ghost start = candidate_views(out@);
            let mut k: usize = 0;
            while k < symbols.len()
                invariant
                    k <= symbols@.len(),
                    candidate_views(out@) == start + flat_candidates(symbols@.take(k as int), query@),
                decreases symbols@.len() - k,
            {
                let s = &symbols[k];
                assert(symbols@.take(k + 1).drop_last() =~= symbols@.take(k as int));
                if symbol_name_matches(s.name.as_str(), query) {
                    push_candidate(out, s.location.range.start.line, s.location.range.start.character, &s.name, &s.kind_name);
                }
                k = k + 1;
                assert(candidate_views(out@) =~= start + flat_candidates(symbols@.take(k as int), query@));
            }
            assert(symbols@.take(symbols@.len() as int) =~= symbols@);
        },
        Some(DocumentSymbolResponse::Nested(symbols)) => {
            collect_forest_candidates(symbols.as_slice(), query, out);
        },
    }
}

/// Which way a call-hierarchy query goes.
#[derive(Clone, Copy, Debug, PartialEq, Eq, Structural)]
pub enum CallHierarchyDirection {
    Incoming,
    Outgoing,
}

impl CallHierarchyDirection {
    /// The name of the operation in tool replies.
    pub fn operation_name(self) -> (s: &'static str)
        ensures
            s@ == (match self {
                CallHierarchyDirection::Incoming => "incomingCalls"@,
                CallHierarchyDirection::Outgoing => "outgoingCalls"@,
            }),
    {
        match self {
            CallHierarchyDirection::Incoming => "incomingCalls",
            CallHierarchyDirection::Outgoing => "outgoingCalls",
        }
    }
}

/// What the code-action preview needs to know of a code action or command.
#[derive(Clone, Debug, PartialEq, Eq, Structural)]
pub enum CodeActionSummary {
    /// A bare command.
    Command,
    /// A code action: whether it carries a command, an edit, data to resolve.
    Action { has_command: bool, has_edit: bool, has_data: bool },
}

/// The positions of the actions that can be previewed, in order: those with
/// an edit ready, and those without that can be resolved (through their
/// data). Actions that carry a command are left out, and so are commands.
pub open spec fn previewable(actions: Seq<CodeActionSummary>) -> (Seq<usize>, Seq<usize>)
    decreases actions.len(),
{
    if actions.len() == 0 {
        (seq![], seq![])
    } else {
        let (ready, resolvable) = previewable(actions.drop_last());
        let i = (actions.len() - 1) as usize;
        match actions.last() {
            CodeActionSummary::Action { has_command, has_edit, has_data } => if has_command {
                (ready, resolvable)
            } else if has_edit {
                (ready.push(i), resolvable)
            } else if has_data {
                (ready, resolvable.push(i))
            } else {
                (ready, resolvable)
            },
            CodeActionSummary::Command => (ready, resolvable),
        }
    }
}

/// Splits the code actions into those ready to preview and those to
/// resolve first, by position.
pub fn filter_previewable_code_actions(actions: &[CodeActionSummary]) -> (r: (Vec<usize>, Vec<usize>))
    ensures
        (r.0@, r.1@) == previewable(actions@),
{
    let mut ready: Vec<usize> = Vec::new();
    let mut resolvable: Vec<usize> = Vec::new();
    let mut k: usize = 0;
    while k < actions.len()
        invariant
            k <= actions@.len(),
            (ready@, resolvable@) == previewable(actions@.take(k as int)),
        decreases actions@.len() - k,
    {
        assert(actions@.take(k + 1).drop_last() =~= actions@.take(k as int));
        match &actions[k] {
            CodeActionSummary::Action { has_command, has_edit, has_data } => {
                if *has_command {
                } else if *has_edit {
                    ready.push(k);
                } else if *has_data {
                    resolvable.push(k);
                }
            },
            CodeActionSummary::Command => {},
        }
        k = k + 1;
    }
    assert(actions@.take(actions@.len() as int) =~= actions@);
    (ready, resolvable)
}

/// The titles listed one per line after `- `.
pub open spec fn title_list(titles: Seq<Seq<char>>) -> Seq<char> {
    "- "@ + join(titles, "\n- "@)
}

/// The code action chosen for preview: the first with the given title, or
/// the only one when no title is given.
pub open spec fn chosen_action(titles: Seq<Seq<char>>, title: Option<Seq<char>>) -> Result<int, Seq<char>> {
    match title {
        Some(t) => if exists|i: int| 0 <= i < titles.len() && titles[i] == t {
            Ok(choose|i: int| 0 <= i < titles.len() && titles[i] == t && forall|j: int| 0 <= j < i ==> titles[j] != t)
        } else {
            Err("no code action titled '"@ + t + "'. Available:\n"@ + title_list(titles))
        },
        None => if titles.len() == 1 {
            Ok(0)
        } else {
            Err("multiple previewable code actions found; pass `title` to select one:\n"@ + title_list(titles))
        },
    }
}

/// Chooses the code action to preview among actions with these titles: the
/// position of the first titled `title` when one is given, else the only
/// one; otherwise the error listing the titles.
pub fn choose_code_action(titles: &[String], title: Option<&str>) -> (r: Result<usize, String>)
    ensures
        match r {
            Ok(i) => chosen_action(string_views(titles@), match title { Some(t) => Some(t@), None => None }) == Ok::<int, Seq<char>>(i as int),
            Err(e) => chosen_action(string_views(titles@), match title { Some(t) => Some(t@), None => None }) == Err::<int, Seq<char>>(e@),
        },
{
    let ghost views = string_views(titles@);
    let mut list = String::from_str("- ");
    list.append(join_strings(&clone_strings(titles), "\n- ").as_str());
    match title {
        Some(t) => {
            let want = chars_of(t);
            let mut k: usize = 0;
            while k < titles.len()
                invariant
                    k <= titles@.len(),
                    views == string_views(titles@),
                    want@ == t@,
                    title == Some(t),
                    forall|j: int| 0 <= j < k ==> views[j] != t@,
                decreases titles@.len() - k,
            {
                if eq_chars(&chars_of(titles[k].as_str()), &want) {
                    proof {
                        assert(views[k as int] == t@);
                        assert(exists|i: int| 0 <= i < views.len() && views[i] == t@);
                        let c = choose|i: int| 0 <= i < views.len() && views[i] == t@ && forall|j: int| 0 <= j < i ==> views[j] != t@;
                        assert(0 <= k < views.len() && views[k as int] == t@ && forall|j: int| 0 <= j < k ==> views[j] != t@);
                        if c < k {
                            assert(views[c] != t@);
                        } else if c > k {
                            assert(views[k as int] != t@);
                        }
                        assert(c == k);
                        assert(chosen_action(views, Some(t@)) == Ok::<int, Seq<char>>(k as int));
                    }
                    return Ok(k);
                }
                k = k + 1;
            }
            let mut e = String::from_str("no code action titled '");
            e.append(t);
            e.append("'. Available:\n");
            e.append(list.as_str());
            Err(e)
        },
        None => {
            if titles.len() == 1 {
                Ok(0)
            } else {
                let mut e = String::from_str("multiple previewable code actions found; pass `title` to select one:\n");
                e.append(list.as_str());
                Err(e)
            }
        },
    }
}

/// Where a query's position comes from: a one-based line and character
/// given (kept zero-based), or a symbol to look up.
#[derive(Debug, Clone, PartialEq, Eq)]
pub enum PositionSource {
    At(u32, u32),
    Symbol(String),
}

/// The position a query asks for: `line` and `character` when both are
/// given (they must be one-based), else a symbol (trimmed, not blank).
pub fn resolve_line_char(line: Option<u32>, character: Option<u32>, symbol: Option<&str>) -> (r: Result<
    PositionSource,
    String,
>)
    ensures
        (line is Some && character is Some) ==> match r {
            Ok(PositionSource::At(l0, c0)) => line->Some_0 > 0 && character->Some_0 > 0 && l0 == line->Some_0 - 1
                && c0 == character->Some_0 - 1,
            Ok(PositionSource::Symbol(_)) => false,
            Err(e) => (line->Some_0 == 0 || character->Some_0 == 0) && e@ == "`line` and `character` must be 1-based"@,
        },
        !(line is Some && character is Some) ==> match r {
            Ok(PositionSource::Symbol(s)) => symbol matches Some(x) && trim(x@).len() > 0 && s@ == trim(x@),
            Ok(PositionSource::At(_, _)) => false,
            Err(e) => !(symbol matches Some(x) && trim(x@).len() > 0) && e@
                == "position required: provide (`line`, `character`) or `symbol`"@,
        },
{
    match (line, character) {
        (Some(l), Some(c)) => {
            if l == 0 || c == 0 {
                return Err(String::from_str("`line` and `character` must be 1-based"));
            }
            return Ok(PositionSource::At(l - 1, c - 1));
        },
        _ => {},
    }
    match symbol {
        Some(x) => {
            let t = trim_chars(chars_of(x).as_slice());
            if t.len() > 0 {
                return Ok(PositionSource::Symbol(string_of(t.as_slice())));
            }
        },
        None => {},
    }
    Err(String::from_str("position required: provide (`line`, `character`) or `symbol`"))
}

/// A candidate's line in the list of ambiguous matches.
pub open spec fn candidate_line(path: Seq<char>, c: (u32, u32, Seq<char>, Seq<char>)) -> Seq<char> {
    c.3 + seq![' '] + c.2 + " @ "@ + path + seq![':'] + decimal((c.0 + 1) as nat) + seq![':'] + decimal((c.1 + 1) as nat)
}

/// What the document's symbols say of a symbol's position: the single
/// match, or an error for none or several (listing them).
pub open spec fn symbol_position(symbol: Seq<char>, path: Seq<char>, cs: Seq<(u32, u32, Seq<char>, Seq<char>)>) -> Result<
    (u32, u32),
    Seq<char>,
> {
    if cs.len() == 1 {
        Ok((cs[0].0, cs[0].1))
    } else if cs.len() == 0 {
        Err("symbol '"@ + symbol + "' not found in "@ + path)
    } else {
        Err("multiple symbols matching '"@ + symbol + "' found in "@ + path + ":\n- "@ + join(
            cs.map_values(|c: (u32, u32, Seq<char>, Seq<char>)| candidate_line(path, c)),
            "\n- "@,
        ))
    }
}

/// Picks a symbol's position among the document's matching symbols.
pub fn choose_symbol_position(symbol: &str, path_display: &str, candidates: &Vec<SymbolCandidate>) -> (r: Result<
    (u32, u32),
    String,
>)
    ensures
        match r {
            Ok(p) => symbol_position(symbol@, path_display@, candidate_views(candidates@)) == Ok::<
                (u32, u32),
                Seq<char>,
            >(p),
            Err(e) => symbol_position(symbol@, path_display@, candidate_views(candidates@)) == Err::<
                (u32, u32),
                Seq<char>,
            >(e@),
        },
{
    let ghost cv = candidate_views(candidates@);
    if candidates.len() == 1 {
        return Ok((candidates[0].0, candidates[0].1));
    }
    if candidates.len() == 0 {
        let mut e = String::from_str("symbol '");
        e.append(symbol);
        e.append("' not found in ");
        e.append(path_display);
        return Err(e);
    }
    let mut lines: Vec<String> = Vec::new();
    let mut k: usize = 0;
    while k < candidates.len()
        invariant
            k <= candidates@.len(),
            cv == candidate_views(candidates@),
            string_views(lines@) == cv.take(k as int).map_values(
                |c: (u32, u32, Seq<char>, Seq<char>)| candidate_line(path_display@, c),
            ),
        decreases candidates@.len() - k,
    {
        let c = &candidates[k];
        let mut l = c.3.clone();
        push_char(&mut l, ' ');
        l.append(c.2.as_str());
        l.append(" @ ");
        l.append(path_display);
        push_char(&mut l, ':');
        push_decimal(&mut l, c.0 as u64 + 1);
        push_char(&mut l, ':');
        push_decimal(&mut l, c.1 as u64 + 1);
        let ghost before = string_views(lines@);
        assert(l@ =~= candidate_line(path_display@, cv[k as int]));
        lines.push(l);
        assert(string_views(lines@) =~= before.push(candidate_line(path_display@, cv[k as int])));
        k = k + 1;
        assert(cv.take(k as int).map_values(|c: (u32, u32, Seq<char>, Seq<char>)| candidate_line(path_display@, c))
            =~= cv.take(k - 1).map_values(|c: (u32, u32, Seq<char>, Seq<char>)| candidate_line(path_display@, c)).push(
            candidate_line(path_display@, cv[k - 1]),
        ));
    }
    assert(cv.take(candidates@.len() as int) =~= cv);
    let mut e = String::from_str("multiple symbols matching '");
    e.append(symbol);
    e.append("' found in ");
    e.append(path_display);
    e.append(":\n- ");
    let joined = join_strings(&lines, "\n- ");
    e.append(joined.as_str());
    Err(e)
}

/// Checks a file before a query: it must exist, be a file, and have a
/// language server configured.
pub fn check_file_for_query(path_display: &str, root_name: &str, exists: bool, is_file: bool, has_servers: bool) -> (r: Result<
    (),
    String,
>)
    ensures
        !exists ==> (r matches Err(e) && e@ == "file not found: "@ + path_display@),
        exists && !is_file ==> (r matches Err(e) && e@ == "path is not a file: "@ + path_display@),
        exists && is_file && !has_servers ==> (r matches Err(e) && e@ == "no LSP server configured for "@
            + path_display@ + " under root '"@ + root_name@
            + "'. Use `code_intel` for tree-sitter-based analysis or `grep` for text search instead."@),
        exists && is_file && has_servers ==> r is Ok,
{
    if !exists {
        let mut e = String::from_str("file not found: ");
        e.append(path_display);
        return Err(e);
    }
    if !is_file {
        let mut e = String::from_str("path is not a file: ");
        e.append(path_display);
        return Err(e);
    }
    if !has_servers {
        let mut e = String::from_str("no LSP server configured for ");
        e.append(path_display);
        e.append(" under root '");
        e.append(root_name);
        e.append("'. Use `code_intel` for tree-sitter-based analysis or `grep` for text search instead.");
        return Err(e);
    }
    Ok(())
}

/// The error when no language server could start for a file, with the
/// servers' startup details when there are any.
pub open spec fn no_server_started_text(path: Seq<char>, root: Seq<char>, details: Seq<Seq<char>>) -> Seq<char> {
    "no LSP server could be started for "@ + path + " under root '"@ + root + seq!['\''] + (if details.len() == 0 {
        Seq::empty()
    } else {
        "\nstartup details:\n- "@ + join(details, "\n- "@)
    }) + "\n\nUse `code_intel` for tree-sitter-based analysis or `grep` for text search instead."@
}

/// The error when no language server could start for a file.
pub fn no_server_started_message(path_display: &str, root_name: &str, details: &Vec<String>) -> (r: String)
    ensures
        r@ == no_server_started_text(path_display@, root_name@, string_views(details@)),
{
    let mut e = String::from_str("no LSP server could be started for ");
    e.append(path_display);
    e.append(" under root '");
    e.append(root_name);
    let ghost head = e@;
    push_char(&mut e, '\'');
    assert(e@ =~= head + seq!['\'']);
    let ghost mid = e@;
    if details.len() > 0 {
        e.append("\nstartup details:\n- ");
        let joined = join_strings(details, "\n- ");
        e.append(joined.as_str());
    } else {
        assert(mid + Seq::<char>::empty() =~= mid);
    }
    e.append("\n\nUse `code_intel` for tree-sitter-based analysis or `grep` for text search instead.");
    e
}

/// Whether the warm-up walk skips a directory: hidden ones and
/// `node_modules`.
pub fn skip_warmup_dir(name: &str) -> (r: bool)
    ensures
        r == ((name@.len() > 0 && name@[0] == '.') || name@ == "node_modules"@),
{
    let v = chars_of(name);
    (v.len() > 0 && v[0] == '.') || crate::text::str_eq(name, "node_modules")
}

} // verus!
