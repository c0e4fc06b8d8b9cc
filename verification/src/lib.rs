use vstd::prelude::*;

pub mod attach_url_files;
pub mod attachments;
pub mod code_intel_format;
pub mod coordination;
pub mod crop_figure;
pub mod document;
pub mod js_repl;
pub mod lsp_install;
pub mod lsp_feedback;
pub mod lsp_format;
pub mod lsp_symbols;
pub mod operations;
pub mod patch_preview;
pub mod pdfium;
pub mod prompt;
pub mod reading_view;
pub mod reading_view_tool_specs;
pub mod roots;
pub mod research_config;
pub mod research_tool_specs;
pub mod research_tools;
pub mod research_types;
pub mod session_config;
pub mod shell_snapshot;
pub mod section_round_trip;
pub mod sorting;
pub mod supabase;
pub mod supabase_session;
pub mod text;
pub mod tool_args;
pub mod tool_dispatch;
pub mod tool_specs;
pub mod unified_exec;
pub mod virtual_workspace;
pub mod workspace_edit;

verus! {
}
