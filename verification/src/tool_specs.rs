//! The function-tool declarations of the language-server and
//! code-intelligence tools: each parameter's name, kind and description.
use vstd::prelude::*;

use crate::text::string_views;

verus! {

/// The JSON kind of a tool parameter; an open object accepts any keys,
/// and an object array holds such objects.
#[derive(Clone, Copy, Debug, PartialEq, Eq, Structural)]
pub enum ParamKind {
    String,
    Number,
    Integer,
    Boolean,
    StringArray,
    ObjectArray,
    OpenObject,
}

/// A parameter of a function tool.
#[derive(Clone, Debug)]
pub struct ToolParam {
    pub name: String,
    pub kind: ParamKind,
    pub description: Option<String>,
}

/// A parameter as values: name, kind and description.
pub type ParamView = (Seq<char>, ParamKind, Option<Seq<char>>);

pub open spec fn param_view(p: ToolParam) -> ParamView {
    (p.name@, p.kind, match p.description {
        Some(d) => Some(d@),
        None => None,
    })
}

pub open spec fn param_views(ps: Seq<ToolParam>) -> Seq<ParamView> {
    ps.map_values(|p: ToolParam| param_view(p))
}

/// A function tool's declaration: its name, its parameters, which of them
/// are required, whether other keys are accepted, and whether the schema
/// is strict.
#[derive(Clone, Debug)]
pub struct FunctionToolSpec {
    pub name: String,
    pub params: Vec<ToolParam>,
    pub required: Vec<String>,
    pub additional_properties: bool,
    pub strict: bool,
}

fn param(name: &str, kind: ParamKind, description: &str) -> (p: ToolParam)
    ensures
        param_view(p) == (name@, kind, Some(description@)),
{
    ToolParam { name: String::from_str(name), kind, description: Some(String::from_str(description)) }
}

/// The parameters of the `lsp` tool, in key order.
pub open spec fn lsp_tool_params_spec() -> Seq<ParamView> {
    seq![
        ("character"@, ParamKind::Number, Some("1-based character/column number"@)),
        ("end_character"@, ParamKind::Number, Some("1-based end character/column number (for codeActionPreview range)."@)),
        ("end_line"@, ParamKind::Number, Some("1-based end line number (for codeActionPreview range)."@)),
        ("file"@, ParamKind::String, Some("Absolute path to the file (required for most operations)"@)),
        ("fuzz"@, ParamKind::Boolean, Some("When a position-based query returns empty, retry nearby positions (default true)."@)),
        ("item"@, ParamKind::OpenObject, None),
        ("limit"@, ParamKind::Number, Some("Result limit (default 10, max 50)."@)),
        ("line"@, ParamKind::Number, Some("1-based line number"@)),
        ("new_name"@, ParamKind::String, Some("New symbol name (for renamePreview)."@)),
        ("only"@, ParamKind::String, Some("Code action kind filter (for codeActionPreview), e.g. 'quickfix' (default)."@)),
        ("operation"@, ParamKind::String, Some("The LSP operation to perform: goToDefinition, findReferences, hover, documentSymbol, workspaceSymbol, goToImplementation, prepareCallHierarchy, incomingCalls, outgoingCalls, prepareRename, renamePreview, codeActionPreview, diagnostics"@)),
        ("query"@, ParamKind::String, Some("Search query for workspaceSymbol operation"@)),
        ("root"@, ParamKind::String, Some("Optional root name. If omitted, root is inferred from file path or all roots are searched when supported."@)),
        ("symbol"@, ParamKind::String, Some("Alternative to line/character: resolve a symbol name within `file` to a position (best-effort)."@)),
        ("title"@, ParamKind::String, Some("Code action title selector when multiple actions are available (for codeActionPreview)."@)),
    ]
}

/// The parameters of the `code_intel` tool, in key order.
pub open spec fn code_intel_tool_params_spec() -> Seq<ParamView> {
    seq![
        ("chunk_size"@, ParamKind::Number, Some("Chunk size in bytes for chunkIndices (default 5000)."@)),
        ("definition"@, ParamKind::String, Some("Definition text for define/redefine operations."@)),
        ("depth"@, ParamKind::Number, Some("Depth for structure tree (default 3)."@)),
        ("file"@, ParamKind::String, Some("Absolute file path for file-scoped operations."@)),
        ("kind"@, ParamKind::String, Some("Optional symbol kind filter for symbols operation."@)),
        ("limit"@, ParamKind::Number, Some("Result count limit (default 20, max 50)."@)),
        ("line"@, ParamKind::Number, Some("1-based start line for peek."@)),
        ("mark"@, ParamKind::String, Some("Mark for markFile. Built-ins: test, docs, config, generated, entryPoint. Custom values are allowed."@)),
        ("operation"@, ParamKind::String, Some("Operation name: symbolSearch, symbols, callers, tests, variables, implementation, structure, peek, grep, chunkIndices, defineSymbol, redefineSymbol, defineFile, redefineFile, markFile, saveAnnotations, loadAnnotations, addRoot, removeRoot, listRoots"@)),
        ("overlap"@, ParamKind::Number, Some("Chunk overlap in bytes for chunkIndices (default 200)."@)),
        ("path"@, ParamKind::String, Some("Absolute directory path for addRoot."@)),
        ("pattern"@, ParamKind::String, Some("Regex pattern for grep."@)),
        ("query"@, ParamKind::String, Some("Symbol search query for symbolSearch."@)),
        ("response_format"@, ParamKind::String, Some("Output format: text (default) or json."@)),
        ("root"@, ParamKind::String, Some("Optional root name for query scoping. Required by removeRoot; used by addRoot as the new root name."@)),
        ("scope"@, ParamKind::String, Some("Grep scope: all or code."@)),
        ("symbol"@, ParamKind::String, Some("Symbol/function name for symbol-scoped operations."@)),
    ]
}

/// The `lsp` tool's parameters: their names, kinds and descriptions,
/// in key order; only `operation` is required and no other key is accepted.
pub fn create_lsp_tool() -> (t: FunctionToolSpec)
    ensures
        t.name@ == "lsp"@,
        param_views(t.params@) == lsp_tool_params_spec(),
        string_views(t.required@) == seq!["operation"@],
        !t.additional_properties,
        !t.strict,
{
    let mut params: Vec<ToolParam> = Vec::new();
    params.push(param("character", ParamKind::Number, "1-based character/column number"));
    params.push(param("end_character", ParamKind::Number, "1-based end character/column number (for codeActionPreview range)."));
    params.push(param("end_line", ParamKind::Number, "1-based end line number (for codeActionPreview range)."));
    params.push(param("file", ParamKind::String, "Absolute path to the file (required for most operations)"));
    params.push(param("fuzz", ParamKind::Boolean, "When a position-based query returns empty, retry nearby positions (default true)."));
    params.push(ToolParam { name: String::from_str("item"), kind: ParamKind::OpenObject, description: None });
    params.push(param("limit", ParamKind::Number, "Result limit (default 10, max 50)."));
    params.push(param("line", ParamKind::Number, "1-based line number"));
    params.push(param("new_name", ParamKind::String, "New symbol name (for renamePreview)."));
    params.push(param("only", ParamKind::String, "Code action kind filter (for codeActionPreview), e.g. 'quickfix' (default)."));
    params.push(param("operation", ParamKind::String, "The LSP operation to perform: goToDefinition, findReferences, hover, documentSymbol, workspaceSymbol, goToImplementation, prepareCallHierarchy, incomingCalls, outgoingCalls, prepareRename, renamePreview, codeActionPreview, diagnostics"));
    params.push(param("query", ParamKind::String, "Search query for workspaceSymbol operation"));
    params.push(param("root", ParamKind::String, "Optional root name. If omitted, root is inferred from file path or all roots are searched when supported."));
    params.push(param("symbol", ParamKind::String, "Alternative to line/character: resolve a symbol name within `file` to a position (best-effort)."));
    params.push(param("title", ParamKind::String, "Code action title selector when multiple actions are available (for codeActionPreview)."));
    assert(param_views(params@) =~= lsp_tool_params_spec());
    let mut required: Vec<String> = Vec::new();
    required.push(String::from_str("operation"));
    assert(string_views(required@) =~= seq!["operation"@]);
    FunctionToolSpec { name: String::from_str("lsp"), params, required, additional_properties: false, strict: false }
}

/// The `code_intel` tool's parameters: their names, kinds and descriptions,
/// in key order; only `operation` is required and no other key is accepted.
pub fn create_code_intel_tool() -> (t: FunctionToolSpec)
    ensures
        t.name@ == "code_intel"@,
        param_views(t.params@) == code_intel_tool_params_spec(),
        string_views(t.required@) == seq!["operation"@],
        !t.additional_properties,
        !t.strict,
{
    let mut params: Vec<ToolParam> = Vec::new();
    params.push(param("chunk_size", ParamKind::Number, "Chunk size in bytes for chunkIndices (default 5000)."));
    params.push(param("definition", ParamKind::String, "Definition text for define/redefine operations."));
    params.push(param("depth", ParamKind::Number, "Depth for structure tree (default 3)."));
    params.push(param("file", ParamKind::String, "Absolute file path for file-scoped operations."));
    params.push(param("kind", ParamKind::String, "Optional symbol kind filter for symbols operation."));
    params.push(param("limit", ParamKind::Number, "Result count limit (default 20, max 50)."));
    params.push(param("line", ParamKind::Number, "1-based start line for peek."));
    params.push(param("mark", ParamKind::String, "Mark for markFile. Built-ins: test, docs, config, generated, entryPoint. Custom values are allowed."));
    params.push(param("operation", ParamKind::String, "Operation name: symbolSearch, symbols, callers, tests, variables, implementation, structure, peek, grep, chunkIndices, defineSymbol, redefineSymbol, defineFile, redefineFile, markFile, saveAnnotations, loadAnnotations, addRoot, removeRoot, listRoots"));
    params.push(param("overlap", ParamKind::Number, "Chunk overlap in bytes for chunkIndices (default 200)."));
    params.push(param("path", ParamKind::String, "Absolute directory path for addRoot."));
    params.push(param("pattern", ParamKind::String, "Regex pattern for grep."));
    params.push(param("query", ParamKind::String, "Symbol search query for symbolSearch."));
    params.push(param("response_format", ParamKind::String, "Output format: text (default) or json."));
    params.push(param("root", ParamKind::String, "Optional root name for query scoping. Required by removeRoot; used by addRoot as the new root name."));
    params.push(param("scope", ParamKind::String, "Grep scope: all or code."));
    params.push(param("symbol", ParamKind::String, "Symbol/function name for symbol-scoped operations."));
    assert(param_views(params@) =~= code_intel_tool_params_spec());
    let mut required: Vec<String> = Vec::new();
    required.push(String::from_str("operation"));
    assert(string_views(required@) =~= seq!["operation"@]);
    FunctionToolSpec { name: String::from_str("code_intel"), params, required, additional_properties: false, strict: false }
}

} // verus!
