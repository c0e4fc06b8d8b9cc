//! The operations of the code-intelligence and language-server tools, by
//! the names the model uses for them, and which of them change state.
use vstd::prelude::*;

use crate::text::str_eq;

verus! {

/// An operation of the code-intelligence tool.
#[derive(Clone, Copy, Debug, PartialEq, Eq, Structural)]
pub enum CodeIntelOperation {
    SymbolSearch,
    Symbols,
    Callers,
    Tests,
    Variables,
    Implementation,
    Structure,
    Peek,
    Grep,
    ChunkIndices,
    DefineSymbol,
    RedefineSymbol,
    DefineFile,
    RedefineFile,
    MarkFile,
    SaveAnnotations,
    LoadAnnotations,
    AddRoot,
    RemoveRoot,
    ListRoots,
}

/// The operation a name (in camel case) names, if any.
pub open spec fn code_intel_operation_named(name: Seq<char>) -> Option<CodeIntelOperation> {
    if name == "symbolSearch"@ {
        Some(CodeIntelOperation::SymbolSearch)
    } else if name == "symbols"@ {
        Some(CodeIntelOperation::Symbols)
    } else if name == "callers"@ {
        Some(CodeIntelOperation::Callers)
    } else if name == "tests"@ {
        Some(CodeIntelOperation::Tests)
    } else if name == "variables"@ {
        Some(CodeIntelOperation::Variables)
    } else if name == "implementation"@ {
        Some(CodeIntelOperation::Implementation)
    } else if name == "structure"@ {
        Some(CodeIntelOperation::Structure)
    } else if name == "peek"@ {
        Some(CodeIntelOperation::Peek)
    } else if name == "grep"@ {
        Some(CodeIntelOperation::Grep)
    } else if name == "chunkIndices"@ {
        Some(CodeIntelOperation::ChunkIndices)
    } else if name == "defineSymbol"@ {
        Some(CodeIntelOperation::DefineSymbol)
    } else if name == "redefineSymbol"@ {
        Some(CodeIntelOperation::RedefineSymbol)
    } else if name == "defineFile"@ {
        Some(CodeIntelOperation::DefineFile)
    } else if name == "redefineFile"@ {
        Some(CodeIntelOperation::RedefineFile)
    } else if name == "markFile"@ {
        Some(CodeIntelOperation::MarkFile)
    } else if name == "saveAnnotations"@ {
        Some(CodeIntelOperation::SaveAnnotations)
    } else if name == "loadAnnotations"@ {
        Some(CodeIntelOperation::LoadAnnotations)
    } else if name == "addRoot"@ {
        Some(CodeIntelOperation::AddRoot)
    } else if name == "removeRoot"@ {
        Some(CodeIntelOperation::RemoveRoot)
    } else if name == "listRoots"@ {
        Some(CodeIntelOperation::ListRoots)
    } else {
        None
    }
}

/// Reads an operation's name.
pub fn parse_code_intel_operation(name: &str) -> (r: Option<CodeIntelOperation>)
    ensures
        r == code_intel_operation_named(name@),
{
    if str_eq(name, "symbolSearch") {
        return Some(CodeIntelOperation::SymbolSearch);
    }
    if str_eq(name, "symbols") {
        return Some(CodeIntelOperation::Symbols);
    }
    if str_eq(name, "callers") {
        return Some(CodeIntelOperation::Callers);
    }
    if str_eq(name, "tests") {
        return Some(CodeIntelOperation::Tests);
    }
    if str_eq(name, "variables") {
        return Some(CodeIntelOperation::Variables);
    }
    if str_eq(name, "implementation") {
        return Some(CodeIntelOperation::Implementation);
    }
    if str_eq(name, "structure") {
        return Some(CodeIntelOperation::Structure);
    }
    if str_eq(name, "peek") {
        return Some(CodeIntelOperation::Peek);
    }
    if str_eq(name, "grep") {
        return Some(CodeIntelOperation::Grep);
    }
    if str_eq(name, "chunkIndices") {
        return Some(CodeIntelOperation::ChunkIndices);
    }
    if str_eq(name, "defineSymbol") {
        return Some(CodeIntelOperation::DefineSymbol);
    }
    if str_eq(name, "redefineSymbol") {
        return Some(CodeIntelOperation::RedefineSymbol);
    }
    if str_eq(name, "defineFile") {
        return Some(CodeIntelOperation::DefineFile);
    }
    if str_eq(name, "redefineFile") {
        return Some(CodeIntelOperation::RedefineFile);
    }
    if str_eq(name, "markFile") {
        return Some(CodeIntelOperation::MarkFile);
    }
    if str_eq(name, "saveAnnotations") {
        return Some(CodeIntelOperation::SaveAnnotations);
    }
    if str_eq(name, "loadAnnotations") {
        return Some(CodeIntelOperation::LoadAnnotations);
    }
    if str_eq(name, "addRoot") {
        return Some(CodeIntelOperation::AddRoot);
    }
    if str_eq(name, "removeRoot") {
        return Some(CodeIntelOperation::RemoveRoot);
    }
    if str_eq(name, "listRoots") {
        return Some(CodeIntelOperation::ListRoots);
    }
    None
}

/// An operation of the language-server tool.
#[derive(Clone, Copy, Debug, PartialEq, Eq, Structural)]
pub enum LspOperation {
    GoToDefinition,
    FindReferences,
    Hover,
    DocumentSymbol,
    WorkspaceSymbol,
    GoToImplementation,
    PrepareCallHierarchy,
    IncomingCalls,
    OutgoingCalls,
    PrepareRename,
    RenamePreview,
    CodeActionPreview,
    Diagnostics,
}

/// The operation a name (in camel case) names, if any.
pub open spec fn lsp_operation_named(name: Seq<char>) -> Option<LspOperation> {
    if name == "goToDefinition"@ {
        Some(LspOperation::GoToDefinition)
    } else if name == "findReferences"@ {
        Some(LspOperation::FindReferences)
    } else if name == "hover"@ {
        Some(LspOperation::Hover)
    } else if name == "documentSymbol"@ {
        Some(LspOperation::DocumentSymbol)
    } else if name == "workspaceSymbol"@ {
        Some(LspOperation::WorkspaceSymbol)
    } else if name == "goToImplementation"@ {
        Some(LspOperation::GoToImplementation)
    } else if name == "prepareCallHierarchy"@ {
        Some(LspOperation::PrepareCallHierarchy)
    } else if name == "incomingCalls"@ {
        Some(LspOperation::IncomingCalls)
    } else if name == "outgoingCalls"@ {
        Some(LspOperation::OutgoingCalls)
    } else if name == "prepareRename"@ {
        Some(LspOperation::PrepareRename)
    } else if name == "renamePreview"@ {
        Some(LspOperation::RenamePreview)
    } else if name == "codeActionPreview"@ {
        Some(LspOperation::CodeActionPreview)
    } else if name == "diagnostics"@ {
        Some(LspOperation::Diagnostics)
    } else {
        None
    }
}

/// Reads an operation's name.
pub fn parse_lsp_operation(name: &str) -> (r: Option<LspOperation>)
    ensures
        r == lsp_operation_named(name@),
{
    if str_eq(name, "goToDefinition") {
        return Some(LspOperation::GoToDefinition);
    }
    if str_eq(name, "findReferences") {
        return Some(LspOperation::FindReferences);
    }
    if str_eq(name, "hover") {
        return Some(LspOperation::Hover);
    }
    if str_eq(name, "documentSymbol") {
        return Some(LspOperation::DocumentSymbol);
    }
    if str_eq(name, "workspaceSymbol") {
        return Some(LspOperation::WorkspaceSymbol);
    }
    if str_eq(name, "goToImplementation") {
        return Some(LspOperation::GoToImplementation);
    }
    if str_eq(name, "prepareCallHierarchy") {
        return Some(LspOperation::PrepareCallHierarchy);
    }
    if str_eq(name, "incomingCalls") {
        return Some(LspOperation::IncomingCalls);
    }
    if str_eq(name, "outgoingCalls") {
        return Some(LspOperation::OutgoingCalls);
    }
    if str_eq(name, "prepareRename") {
        return Some(LspOperation::PrepareRename);
    }
    if str_eq(name, "renamePreview") {
        return Some(LspOperation::RenamePreview);
    }
    if str_eq(name, "codeActionPreview") {
        return Some(LspOperation::CodeActionPreview);
    }
    if str_eq(name, "diagnostics") {
        return Some(LspOperation::Diagnostics);
    }
    None
}

/// Whether a code-intelligence operation changes state (annotations and
/// roots); such calls need the user's approval.
pub open spec fn changes_state(op: CodeIntelOperation) -> bool {
    match op {
        CodeIntelOperation::DefineSymbol
        | CodeIntelOperation::RedefineSymbol
        | CodeIntelOperation::DefineFile
        | CodeIntelOperation::RedefineFile
        | CodeIntelOperation::MarkFile
        | CodeIntelOperation::SaveAnnotations
        | CodeIntelOperation::LoadAnnotations
        | CodeIntelOperation::AddRoot
        | CodeIntelOperation::RemoveRoot => true,
        _ => false,
    }
}

/// Whether a code-intelligence call changes state; a call whose operation
/// could not be read (`None`) does not.
pub fn code_intel_is_mutating(op: Option<CodeIntelOperation>) -> (r: bool)
    ensures
        r == (op matches Some(o) && changes_state(o)),
{
    match op {
        Some(o) => match o {
            CodeIntelOperation::DefineSymbol
            | CodeIntelOperation::RedefineSymbol
            | CodeIntelOperation::DefineFile
            | CodeIntelOperation::RedefineFile
            | CodeIntelOperation::MarkFile
            | CodeIntelOperation::SaveAnnotations
            | CodeIntelOperation::LoadAnnotations
            | CodeIntelOperation::AddRoot
            | CodeIntelOperation::RemoveRoot => true,
            _ => false,
        },
        None => false,
    }
}

/// How a tool's answer is rendered.
#[derive(Clone, Copy, Debug, PartialEq, Eq, Structural)]
pub enum ResponseFormat {
    Text,
    Json,
}

impl Default for ResponseFormat {
    /// Text, unless JSON is asked for.
    fn default() -> (r: Self)
        ensures
            r == ResponseFormat::Text,
    {
        ResponseFormat::Text
    }
}

/// Reads a response format's name (`text` or `json`).
pub fn parse_response_format(name: &str) -> (r: Option<ResponseFormat>)
    ensures
        r == if name@ == "text"@ {
            Some(ResponseFormat::Text)
        } else if name@ == "json"@ {
            Some(ResponseFormat::Json)
        } else {
            None
        },
{
    if str_eq(name, "text") {
        return Some(ResponseFormat::Text);
    }
    if str_eq(name, "json") {
        return Some(ResponseFormat::Json);
    }
    None
}

} // verus!
