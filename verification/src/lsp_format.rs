//! How the `lsp` tool renders language-server answers for the model:
//! locations, references, hover text, symbols and rename ranges.
use vstd::prelude::*;

use crate::document::opt_view;
use crate::text::{decimal, join, join_strings, push_char, push_decimal, string_views};

verus! {

/// A zero-based position in a document.
#[derive(Clone, Copy, Debug, PartialEq, Eq, Structural)]
pub struct LspPosition {
    pub line: u32,
    pub character: u32,
}

/// A range in a document.
#[derive(Clone, Copy, Debug, PartialEq, Eq, Structural)]
pub struct LspRange {
    pub start: LspPosition,
    pub end: LspPosition,
}

/// A range in the document named by `uri`.
#[derive(Debug)]
pub struct LspLocation {
    pub uri: String,
    pub range: LspRange,
}

/// Whether `uri` holds no `:`, so that no URL scheme can be read from it.
pub open spec fn has_no_colon(uri: Seq<char>) -> bool {
    forall|k: int| 0 <= k < uri.len() ==> uri[k] != ':'
}

/// The file-system path of a URI, as `url::Url::parse` followed by
/// `Url::to_file_path` gives it, displayed; `Err(Some(..))` with the parse
/// error's text when the URI does not parse, `Err(None)` when it names no
/// local file. Stated: a URI without `:` has no scheme, so `Url::parse`
/// (given no base) fails with `RelativeUrlWithoutBase`, whose text is
/// "relative URL without a base". The path of a URI that parses, and which
/// such URIs give one, depend on the platform (and `to_file_path` does not
/// check the scheme), so nothing is stated of them.
#[verifier::external_body]
pub(crate) fn uri_file_path(uri: &str) -> (r: Result<String, Option<String>>)
    ensures
        has_no_colon(uri@) ==> r is Err && opt_view(r->Err_0) == Some("relative URL without a base"@),
{
    match url::Url::parse(uri) {
        Ok(url) => match url.to_file_path() {
            Ok(path) => Ok(path.display().to_string()),
            Err(()) => Err(None),
        },
        Err(e) => Err(Some(e.to_string())),
    }
}

/// `:line:character` with one-based numbers.
pub open spec fn position_suffix(line0: u32, char0: u32) -> Seq<char> {
    seq![':'] + decimal((line0 + 1) as nat) + seq![':'] + decimal((char0 + 1) as nat)
}

/// A position in the document `uri`: its file path where it has one
/// (`path`), else the URI itself, then the one-based line and character.
pub open spec fn uri_position_text(uri: Seq<char>, path: Option<Seq<char>>, line0: u32, char0: u32) -> Seq<char> {
    (match path {
        Some(p) => p,
        None => uri,
    }) + position_suffix(line0, char0)
}

/// Whether `text` renders a position in `uri` for one of the outcomes of
/// turning the URI into a path. A URI without `:` is shown as it is.
pub open spec fn is_uri_position_text(text: Seq<char>, uri: Seq<char>, line0: u32, char0: u32) -> bool {
    &&& exists|path: Option<Seq<char>>| text == uri_position_text(uri, path, line0, char0)
    &&& has_no_colon(uri) ==> text == uri + position_suffix(line0, char0)
}

fn push_position_suffix(s: &mut String, line0: u32, char0: u32)
    requires
        line0 < u32::MAX,
        char0 < u32::MAX,
    ensures
        final(s)@ == old(s)@ + position_suffix(line0, char0),
{
    push_char(s, ':');
    push_decimal(s, (line0 + 1) as u64);
    push_char(s, ':');
    push_decimal(s, (char0 + 1) as u64);
}

/// A position in the document `uri`, given the path the URI names (if any).
pub fn format_uri_position_with(uri: &str, path: Option<&str>, line0: u32, char0: u32) -> (r: String)
    requires
        line0 < u32::MAX,
        char0 < u32::MAX,
    ensures
        r@ == uri_position_text(
            uri@,
            match path {
                Some(p) => Some(p@),
                None => None,
            },
            line0,
            char0,
        ),
{
    let mut r = match path {
        Some(p) => String::from_str(p),
        None => String::from_str(uri),
    };
    push_position_suffix(&mut r, line0, char0);
    r
}

/// A position in the document `uri`: the file path where the URI names a
/// local file, else the URI, then the one-based line and character.
pub fn format_uri_position(uri: &str, line0: u32, char0: u32) -> (r: String)
    requires
        line0 < u32::MAX,
        char0 < u32::MAX,
    ensures
        is_uri_position_text(r@, uri@, line0, char0),
{
    let path = uri_file_path(uri);
    let r = match &path {
        Ok(p) => format_uri_position_with(uri, Some(p.as_str()), line0, char0),
        Err(_) => format_uri_position_with(uri, None, line0, char0),
    };
    assert(r@ == uri_position_text(uri@, match path { Ok(p) => Some(p@), Err(_) => None }, line0, char0));
    r
}

/// Whether a location's start can be shown one-based.
pub open spec fn location_ok(loc: LspLocation) -> bool {
    loc.range.start.line < u32::MAX && loc.range.start.character < u32::MAX
}

/// Whether `text` renders the start of `loc`.
pub open spec fn is_location_text(text: Seq<char>, loc: LspLocation) -> bool {
    is_uri_position_text(text, loc.uri@, loc.range.start.line, loc.range.start.character)
}

/// The start of a location.
pub fn format_location(loc: &LspLocation) -> (r: String)
    requires
        location_ok(*loc),
    ensures
        is_location_text(r@, *loc),
{
    format_uri_position(loc.uri.as_str(), loc.range.start.line, loc.range.start.character)
}

/// Whether `lines` render the locations, one line each, in order.
pub open spec fn are_location_lines(lines: Seq<Seq<char>>, locs: Seq<LspLocation>) -> bool {
    lines.len() == locs.len() && forall|i: int| 0 <= i < locs.len() ==> is_location_text(#[trigger] lines[i], locs[i])
}

/// The lines of the first `n` locations.
fn location_lines(locs: &[LspLocation], n: usize) -> (lines: Vec<String>)
    requires
        n <= locs@.len(),
        forall|i: int| 0 <= i < locs@.len() ==> location_ok(#[trigger] locs@[i]),
    ensures
        are_location_lines(string_views(lines@), locs@.take(n as int)),
{
    let mut lines: Vec<String> = Vec::new();
    let mut k: usize = 0;
    while k < n
        invariant
            n <= locs@.len(),
            k <= n,
            forall|i: int| 0 <= i < locs@.len() ==> location_ok(#[trigger] locs@[i]),
            are_location_lines(string_views(lines@), locs@.take(k as int)),
        decreases n - k,
    {
        let line = format_location(&locs[k]);
        let ghost prev = string_views(lines@);
        let ghost text = line@;
        lines.push(line);
        proof {
            let views = string_views(lines@);
            assert(views =~= prev.push(text));
            let taken = locs@.take(k + 1);
            assert forall|i: int| 0 <= i < taken.len() implies is_location_text(#[trigger] views[i], taken[i]) by {
                if i < k {
                    assert(taken[i] == locs@.take(k as int)[i]);
                }
            }
        }
        k = k + 1;
    }
    lines
}

/// The answer to a definition-like request: one location, a list of
/// locations, or a list of links (rendered by their target).
#[derive(Debug)]
pub enum DefinitionResponse {
    Scalar(LspLocation),
    Array(Vec<LspLocation>),
    Link(Vec<LspLocation>),
}

/// Whether every location of the answer can be shown one-based.
pub open spec fn definition_ok(resp: Option<DefinitionResponse>) -> bool {
    match resp {
        None => true,
        Some(DefinitionResponse::Scalar(loc)) => location_ok(loc),
        Some(DefinitionResponse::Array(locs)) => forall|i: int| 0 <= i < locs@.len() ==> location_ok(#[trigger] locs@[i]),
        Some(DefinitionResponse::Link(locs)) => forall|i: int| 0 <= i < locs@.len() ==> location_ok(#[trigger] locs@[i]),
    }
}

/// Whether `text` renders the answer: `not_found` when there is none or the
/// list is empty, else the locations one per line.
pub open spec fn is_definition_text(text: Seq<char>, resp: Option<DefinitionResponse>, not_found: Seq<char>) -> bool {
    match resp {
        None => text == not_found,
        Some(DefinitionResponse::Scalar(loc)) => is_location_text(text, loc),
        Some(DefinitionResponse::Array(locs)) => if locs@.len() == 0 {
            text == not_found
        } else {
            exists|lines: Seq<Seq<char>>| #[trigger] are_location_lines(lines, locs@) && text == join(lines, "\n"@)
        },
        Some(DefinitionResponse::Link(locs)) => if locs@.len() == 0 {
            text == not_found
        } else {
            exists|lines: Seq<Seq<char>>| #[trigger] are_location_lines(lines, locs@) && text == join(lines, "\n"@)
        },
    }
}

fn format_definition_like(resp: Option<DefinitionResponse>, not_found: &str) -> (r: String)
    requires
        definition_ok(resp),
    ensures
        is_definition_text(r@, resp, not_found@),
{
    match resp {
        None => String::from_str(not_found),
        Some(DefinitionResponse::Scalar(loc)) => format_location(&loc),
        Some(DefinitionResponse::Array(locs)) | Some(DefinitionResponse::Link(locs)) => {
            if locs.len() == 0 {
                String::from_str(not_found)
            } else {
                let lines = location_lines(locs.as_slice(), locs.len());
                assert(locs@.take(locs@.len() as int) =~= locs@);
                join_strings(&lines, "\n")
            }
        },
    }
}

/// The answer to `goToDefinition`.
pub fn format_definition(resp: Option<DefinitionResponse>) -> (r: String)
    requires
        definition_ok(resp),
    ensures
        is_definition_text(r@, resp, "No definition found."@),
{
    format_definition_like(resp, "No definition found.")
}

/// The answer to `goToImplementation`.
pub fn format_implementation(resp: Option<DefinitionResponse>) -> (r: String)
    requires
        definition_ok(resp),
    ensures
        is_definition_text(r@, resp, "No implementation found."@),
{
    format_definition_like(resp, "No implementation found.")
}

/// Whether the answer holds no location.
pub open spec fn definition_is_empty(resp: Option<DefinitionResponse>) -> bool {
    match resp {
        None => true,
        Some(DefinitionResponse::Scalar(_)) => false,
        Some(DefinitionResponse::Array(locs)) => locs@.len() == 0,
        Some(DefinitionResponse::Link(links)) => links@.len() == 0,
    }
}

/// Whether a definition-like answer holds no location.
pub fn is_empty_definition(resp: &Option<DefinitionResponse>) -> (b: bool)
    ensures
        b == definition_is_empty(*resp),
{
    match resp {
        None => true,
        Some(DefinitionResponse::Scalar(_)) => false,
        Some(DefinitionResponse::Array(locs)) => locs.len() == 0,
        Some(DefinitionResponse::Link(links)) => links.len() == 0,
    }
}

/// The heading of a truncated list: how many of how many are shown.
pub open spec fn showing_line(shown: nat, total: nat, what: Seq<char>) -> Seq<char> {
    "Showing "@ + decimal(shown) + " of "@ + decimal(total) + seq![' '] + what + " (increase `limit` for more):"@
}

fn push_showing_line(lines: &mut Vec<String>, shown: usize, total: usize, what: &str)
    ensures
        string_views(final(lines)@) == string_views(old(lines)@).push(showing_line(shown as nat, total as nat, what@)),
{
    let mut s = String::from_str("Showing ");
    push_decimal(&mut s, shown as u64);
    s.append(" of ");
    push_decimal(&mut s, total as u64);
    push_char(&mut s, ' ');
    s.append(what);
    s.append(" (increase `limit` for more):");
    assert(s@ =~= showing_line(shown as nat, total as nat, what@));
    let ghost prev = string_views(lines@);
    lines.push(s);
    assert(string_views(lines@) =~= prev.push(showing_line(shown as nat, total as nat, what@)));
    assert(string_views(lines@) =~= string_views(old(lines)@).push(showing_line(shown as nat, total as nat, what@)));
}

/// Whether `text` renders the references: a note when none were found;
/// else, when more than `limit` were found, a line saying how many are
/// shown, then the first `limit` of them one per line.
pub open spec fn is_references_text(text: Seq<char>, refs: Seq<LspLocation>, limit: usize) -> bool {
    if refs.len() == 0 {
        text == "No references found."@
    } else {
        exists|lines: Seq<Seq<char>>|
            #[trigger] are_location_lines(lines, refs.take(shown_count(refs.len(), limit) as int)) && text == join(
                if refs.len() > limit {
                    seq![showing_line(shown_count(refs.len(), limit), refs.len(), "references"@)] + lines
                } else {
                    lines
                },
                "\n"@,
            )
    }
}

/// How many of `len` items a list limited to `limit` shows.
pub open spec fn shown_count(len: nat, limit: usize) -> nat {
    if len < limit {
        len
    } else {
        limit as nat
    }
}

/// The answer to `findReferences`, listing at most `limit` references.
pub fn format_references(refs: &[LspLocation], limit: usize) -> (r: String)
    requires
        forall|i: int| 0 <= i < refs@.len() ==> location_ok(#[trigger] refs@[i]),
    ensures
        is_references_text(r@, refs@, limit),
{
    if refs.len() == 0 {
        return String::from_str("No references found.");
    }
    let total = refs.len();
    let shown = if total < limit {
        total
    } else {
        limit
    };
    let body = location_lines(refs, shown);
    let mut lines: Vec<String> = Vec::new();
    if total > limit {
        push_showing_line(&mut lines, shown, total, "references");
    }
    let ghost head = string_views(lines@);
    let mut k: usize = 0;
    while k < body.len()
        invariant
            k <= body@.len(),
            string_views(lines@) == head + string_views(body@).take(k as int),
        decreases body@.len() - k,
    {
        let ghost prev = string_views(lines@);
        lines.push(body[k].clone());
        assert(string_views(lines@) =~= prev.push(string_views(body@)[k as int]));
        k = k + 1;
        assert(string_views(lines@) =~= head + string_views(body@).take(k as int));
    }
    assert(string_views(body@).take(body@.len() as int) =~= string_views(body@));
    let r = join_strings(&lines, "\n");
    let ghost bv = string_views(body@);
    assert(are_location_lines(bv, refs@.take(shown as int)));
    if total > limit {
        assert(head =~= seq![showing_line(shown as nat, total as nat, "references"@)]);
        assert(string_views(lines@) =~= seq![showing_line(shown as nat, total as nat, "references"@)] + bv);
    } else {
        assert(head =~= Seq::<Seq<char>>::empty());
        assert(string_views(lines@) =~= bv);
    }
    let ghost sh: nat = shown_count(refs@.len(), limit);
    assert(sh == shown as nat);
    let ghost listed = if refs@.len() > limit {
        seq![showing_line(sh, refs@.len(), "references"@)] + bv
    } else {
        bv
    };
    assert(string_views(lines@) == listed);
    assert(are_location_lines(bv, refs@.take(sh as int)) && r@ == join(listed, "\n"@));
    assert(is_references_text(r@, refs@, limit));
    r
}

/// Hover text in one of its marked forms.
#[derive(Debug)]
pub enum MarkedText {
    Plain(String),
    Code { language: String, value: String },
}

/// The contents of a hover answer.
#[derive(Debug)]
pub enum HoverContent {
    Scalar(MarkedText),
    Array(Vec<MarkedText>),
    Markup(String),
}

/// Marked text as the model sees it: plain text as it is, code in a fence
/// tagged with its language.
pub open spec fn marked_text(m: MarkedText) -> Seq<char> {
    match m {
        MarkedText::Plain(t) => t@,
        MarkedText::Code { language, value } => "```"@ + language@ + seq!['\n'] + value@ + "\n```"@,
    }
}

fn format_marked_text(m: &MarkedText) -> (r: String)
    ensures
        r@ == marked_text(*m),
{
    match m {
        MarkedText::Plain(t) => t.clone(),
        MarkedText::Code { language, value } => {
            let mut s = String::from_str("```");
            s.append(language.as_str());
            push_char(&mut s, '\n');
            s.append(value.as_str());
            s.append("\n```");
            s
        },
    }
}

/// The hover answer: a note when there is none, else its contents, several
/// parts separated by `---` lines.
pub open spec fn hover_text(hover: Option<HoverContent>) -> Seq<char> {
    match hover {
        None => "No hover information available."@,
        Some(HoverContent::Scalar(m)) => marked_text(m),
        Some(HoverContent::Array(parts)) => join(parts@.map_values(|m: MarkedText| marked_text(m)), "\n---\n"@),
        Some(HoverContent::Markup(value)) => value@,
    }
}

/// Law: a hover answer with a single marked string renders that string
/// exactly as a list answer holding only it does: plain text as it is, code
/// in a fence tagged with its language. The note on missing hover stands for
/// no answer.
pub proof fn law_hover_single_marked_string(m: MarkedText, parts: Vec<MarkedText>)
    requires
        parts@ == seq![m],
    ensures
        hover_text(Some(HoverContent::Scalar(m))) == hover_text(Some(HoverContent::Array(parts))),
        hover_text(None) == "No hover information available."@,
        m matches MarkedText::Plain(t) ==> hover_text(Some(HoverContent::Scalar(m))) == t@,
        m matches MarkedText::Code { language, value } ==> hover_text(Some(HoverContent::Scalar(m)))
            == "```"@ + language@ + "\n"@ + value@ + "\n```"@,
{
    reveal_strlit("\n");
    let texts = parts@.map_values(|x: MarkedText| marked_text(x));
    assert(texts =~= seq![marked_text(m)]);
    assert(join(texts, "\n---\n"@) == marked_text(m));
}

/// Law: a list answer with one more marked string at the end renders as the
/// list before it, a `---` rule between lines, then that string as it renders
/// alone; markup renders as it is.
pub proof fn law_hover_parts_in_order(a: Vec<MarkedText>, b: Vec<MarkedText>, m: MarkedText, value: String)
    requires
        a@.len() > 0,
        b@ == a@.push(m),
    ensures
        hover_text(Some(HoverContent::Array(b))) == hover_text(Some(HoverContent::Array(a))) + "\n---\n"@
            + hover_text(Some(HoverContent::Scalar(m))),
        hover_text(Some(HoverContent::Markup(value))) == value@,
{
    let f = |x: MarkedText| marked_text(x);
    assert(b@.map_values(f) =~= a@.map_values(f).push(marked_text(m)));
    assert(b@.map_values(f).drop_last() =~= a@.map_values(f));
}

/// The answer to `hover`.
pub fn format_hover(hover: Option<HoverContent>) -> (r: String)
    ensures
        r@ == hover_text(hover),
{
    match hover {
        None => String::from_str("No hover information available."),
        Some(HoverContent::Scalar(m)) => format_marked_text(&m),
        Some(HoverContent::Array(parts)) => {
            let mut texts: Vec<String> = Vec::new();
            let mut k: usize = 0;
            while k < parts.len()
                invariant
                    k <= parts@.len(),
                    string_views(texts@) == parts@.take(k as int).map_values(|m: MarkedText| marked_text(m)),
                decreases parts@.len() - k,
            {
                let ghost prev = string_views(texts@);
                let t = format_marked_text(&parts[k]);
                let ghost tv = t@;
                texts.push(t);
                assert(string_views(texts@) =~= prev.push(tv));
                k = k + 1;
                assert(string_views(texts@) =~= parts@.take(k as int).map_values(|m: MarkedText| marked_text(m)));
            }
            assert(parts@.take(parts@.len() as int) =~= parts@);
            join_strings(&texts, "\n---\n")
        },
        Some(HoverContent::Markup(value)) => value,
    }
}

/// The answer to `prepareRename`.
#[derive(Debug)]
pub enum PrepareRenameResponse {
    Range(LspRange),
    RangeWithPlaceholder { range: LspRange, placeholder: String },
    DefaultBehavior { default_behavior: bool },
}

/// Whether the range can be shown one-based.
pub open spec fn range_ok(r: LspRange) -> bool {
    r.start.line < u32::MAX && r.start.character < u32::MAX && r.end.line < u32::MAX && r.end.character < u32::MAX
}

/// `[line:character]-[line:character]`, one-based.
pub open spec fn range_text(r: LspRange) -> Seq<char> {
    seq!['['] + decimal((r.start.line + 1) as nat) + seq![':'] + decimal((r.start.character + 1) as nat)
        + "]-["@ + decimal((r.end.line + 1) as nat) + seq![':'] + decimal((r.end.character + 1) as nat)
        + seq![']']
}

/// The prepare-rename answer.
pub open spec fn prepare_rename_text(resp: Option<PrepareRenameResponse>) -> Seq<char> {
    match resp {
        None => "No rename available."@,
        Some(PrepareRenameResponse::Range(r)) => "Rename range: "@ + range_text(r),
        Some(PrepareRenameResponse::RangeWithPlaceholder { range, placeholder }) => "Rename range: "@ + range_text(
            range,
        ) + "\nPlaceholder: "@ + placeholder@,
        Some(PrepareRenameResponse::DefaultBehavior { default_behavior }) => "Rename supported (default behavior: "@
            + (if default_behavior {
            "true"@
        } else {
            "false"@
        }) + ")."@,
    }
}

fn push_range(s: &mut String, r: LspRange)
    requires
        range_ok(r),
    ensures
        final(s)@ == old(s)@ + range_text(r),
{
    push_char(s, '[');
    push_decimal(s, (r.start.line + 1) as u64);
    push_char(s, ':');
    push_decimal(s, (r.start.character + 1) as u64);
    s.append("]-[");
    push_decimal(s, (r.end.line + 1) as u64);
    push_char(s, ':');
    push_decimal(s, (r.end.character + 1) as u64);
    push_char(s, ']');
}

/// The answer to `prepareRename`.
pub fn format_prepare_rename(resp: Option<PrepareRenameResponse>) -> (r: String)
    requires
        match resp {
            Some(PrepareRenameResponse::Range(r)) => range_ok(r),
            Some(PrepareRenameResponse::RangeWithPlaceholder { range, .. }) => range_ok(range),
            _ => true,
        },
    ensures
        r@ == prepare_rename_text(resp),
{
    match resp {
        None => String::from_str("No rename available."),
        Some(PrepareRenameResponse::Range(range)) => {
            let mut s = String::from_str("Rename range: ");
            push_range(&mut s, range);
            s
        },
        Some(PrepareRenameResponse::RangeWithPlaceholder { range, placeholder }) => {
            let mut s = String::from_str("Rename range: ");
            push_range(&mut s, range);
            s.append("\nPlaceholder: ");
            s.append(placeholder.as_str());
            s
        },
        Some(PrepareRenameResponse::DefaultBehavior { default_behavior }) => {
            let mut s = String::from_str("Rename supported (default behavior: ");
            if default_behavior {
                s.append("true");
            } else {
                s.append("false");
            }
            s.append(").");
            s
        },
    }
}

/// A symbol of a document or workspace: its name, the debug name of its
/// kind, and where it is.
#[derive(Debug)]
pub struct SymbolInformation {
    pub name: String,
    pub kind_name: String,
    pub location: LspLocation,
}

/// Whether `text` renders the workspace symbol: kind, name, `@` and position.
pub open spec fn is_workspace_symbol_text(text: Seq<char>, s: SymbolInformation) -> bool {
    exists|pos: Seq<char>|
        is_location_text(pos, s.location) && text == s.kind_name@ + seq![' '] + s.name@ + " @ "@ + pos
}

/// Whether `lines` render the symbols, one line each, in order.
pub open spec fn are_workspace_symbol_lines(lines: Seq<Seq<char>>, symbols: Seq<SymbolInformation>) -> bool {
    lines.len() == symbols.len() && forall|i: int|
        0 <= i < symbols.len() ==> is_workspace_symbol_text(#[trigger] lines[i], symbols[i])
}

/// Whether `text` renders the workspace symbols: a note when there are none;
/// else, when `truncated`, a line saying how many of `total` are shown, then
/// the first `limit` symbols one per line.
pub open spec fn is_workspace_symbols_text(
    text: Seq<char>,
    symbols: Seq<SymbolInformation>,
    limit: usize,
    total: usize,
    truncated: bool,
) -> bool {
    if symbols.len() == 0 {
        text == "No symbols found."@
    } else {
        exists|lines: Seq<Seq<char>>|
            #[trigger] are_workspace_symbol_lines(lines, symbols.take(shown_count(symbols.len(), limit) as int))
                && text == join(
                if truncated {
                    seq![showing_line(shown_count(symbols.len(), limit), total as nat, "symbols"@)] + lines
                } else {
                    lines
                },
                "\n"@,
            )
    }
}

/// The answer to `workspaceSymbol`: at most `limit` of the symbols found,
/// with a note of the `total` when the list was `truncated`.
pub fn format_workspace_symbols(symbols: &[SymbolInformation], limit: usize, total: usize, truncated: bool) -> (r: String)
    requires
        forall|i: int| 0 <= i < symbols@.len() ==> location_ok(#[trigger] symbols@[i].location),
    ensures
        is_workspace_symbols_text(r@, symbols@, limit, total, truncated),
{
    if symbols.len() == 0 {
        return String::from_str("No symbols found.");
    }
    let shown = if symbols.len() < limit {
        symbols.len()
    } else {
        limit
    };
    let mut lines: Vec<String> = Vec::new();
    if truncated {
        push_showing_line(&mut lines, shown, total, "symbols");
    }
    let ghost head = string_views(lines@);
    let ghost start = lines@.len();
    let mut k: usize = 0;
    while k < shown
        invariant
            shown <= symbols@.len(),
            k <= shown,
            head.len() == start,
            forall|i: int| 0 <= i < symbols@.len() ==> location_ok(#[trigger] symbols@[i].location),
            string_views(lines@).len() == start + k,
            string_views(lines@).take(start as int) == head,
            forall|i: int| 0 <= i < k ==> is_workspace_symbol_text(#[trigger] string_views(lines@)[start + i], symbols@[i]),
        decreases shown - k,
    {
        let sym = &symbols[k];
        let pos = format_location(&sym.location);
        let mut line = sym.kind_name.clone();
        push_char(&mut line, ' ');
        line.append(sym.name.as_str());
        line.append(" @ ");
        line.append(pos.as_str());
        assert(is_location_text(pos@, symbols@[k as int].location));
        assert(line@ =~= symbols@[k as int].kind_name@ + seq![' '] + symbols@[k as int].name@ + " @ "@ + pos@);
        assert(is_workspace_symbol_text(line@, symbols@[k as int]));
        let ghost before = string_views(lines@);
        lines.push(line);
        assert(string_views(lines@) =~= before.push(line@));
        assert(string_views(lines@).take(start as int) =~= before.take(start as int));
        k = k + 1;
    }
    let ghost body = string_views(lines@).skip(start as int);
    assert(string_views(lines@) =~= head + body);
    let r = join_strings(&lines, "\n");
    let ghost sh: nat = shown_count(symbols@.len(), limit);
    assert(sh == shown as nat);
    assert(are_workspace_symbol_lines(body, symbols@.take(sh as int))) by {
        assert forall|i: int| 0 <= i < sh implies is_workspace_symbol_text(#[trigger] body[i], symbols@.take(sh as int)[i]) by {
            assert(body[i] == string_views(lines@)[start + i]);
            assert(symbols@.take(sh as int)[i] == symbols@[i]);
        }
    }
    if truncated {
        assert(head =~= seq![showing_line(sh, total as nat, "symbols"@)]);
    } else {
        assert(head =~= Seq::<Seq<char>>::empty());
        assert(head + body =~= body);
    }
    r
}

} // verus!
