//! The function-tool declarations of the reading-view tools: each tool's
//! name, description and parameters.
use vstd::prelude::*;

use crate::reading_view::{display_mode_guidance_text, reading_view_display_mode_guidance};
use crate::research_tool_specs::{param, strings, DescribedTool};
use crate::text::string_views;
use crate::tool_specs::{param_views, FunctionToolSpec, ParamKind, ParamView, ToolParam};

verus! {

/// The parameters of the `present_reading_view` tool, in key order.
pub open spec fn present_document_params_spec() -> Seq<ParamView> {
    seq![
        ("content"@, ParamKind::String, Some("Full markdown content. Use ## headings to define sections."@)),
        ("document_id"@, ParamKind::String, Some("Unique slug identifying this document for targeted updates"@)),
        ("title"@, ParamKind::String, Some("Display title for the document"@)),
    ]
}

/// The `present_reading_view` description before the display-mode guidance.
pub const PRESENT_DOCUMENT_DESCRIPTION_START: &'static str = "Present structured content in a sectioned reading view that the user can navigate and ask follow-up questions about. Use this instead of inline text whenever your response is a structured explanation with multiple sections — paper walkthroughs, deep dives, research briefings, organized reports, or any multi-section content with ## headings. FOLLOW-UPS: When a reading view was previously presented and the user asks ANY follow-up about the same topic (re-explain, simplify, go deeper, different angle, etc.), ALWAYS use the reading view tools — either update/append to the existing document or present a fresh one. Never fall back to plain text for follow-ups on a topic that has a reading view. Do NOT use this for short answers, confirmations, or conversational replies unrelated to an active document. IMPORTANT: Never mention 'KB', 'knowledge base', 'card', or 'card ID' in the title or content — the user cares about the subject matter, not internal storage. Use the paper/topic name as the title (e.g. 'Cosmos Policy Walkthrough', not 'KB Walkthrough: paper-cosmos-policy'). Write as if you understand the material directly, not as if you are reading from a database entry. CITATION STYLE: Never use academic citation format like 'Smith et al. (2026)' or parenthetical years '(2025)'. Reading view content is read aloud — use natural phrasing instead: 'the authors showed...', 'researchers found...', 'the original transformer paper introduced...'. Reference papers by title or description, not by author-year citation. When the method name or paper title is short and recognizable, prefer it over a generic phrase — say 'the GRPO method showed' or 'the Attention paper demonstrated' rather than just 'researchers showed'. Use 'researchers showed' only when neither the method nor the paper name is short or memorable. STREAMING STRUCTURE: For substantial multi-section reading views, prefer a skeleton-first flow. First call present_reading_view with the final title and all ## section headings, but leave the section bodies empty. This opens the reading view immediately as an outline or skeleton. Then immediately fill the sections in order with update_document_section calls. Do not wait for user input between those tool calls. For short or single-section reading views, presenting the full content at once is fine. FIGURES: To include figures from the paper, call `crop_and_store_figure` with the page number and bounding box coordinates for each figure you want to include. Then reference the returned asset_path in your markdown as `![caption](asset_path)`. You can also use ```mermaid code blocks for generated diagrams. MATH: In Tui mode, use Unicode math symbols directly (π, θ, α, ∑, ∫, ≤, ≥, →, ×, ⁿ, ², √, ᵀ, etc.) instead of LaTeX. In Browser mode, ALWAYS encode equations and math symbols with the <eq> convention instead of raw Unicode math or raw $...$ / $$...$$ delimiters: inline <eq latex=\"...\">spoken reading</eq>, display <eq latex=\"...\" display=\"block\">spoken reading</eq>, or self-closing <eq latex=\"...\" speak=\"spoken reading\"/>. In each <eq>, the latex attribute is rendered visually and the inner text or speak attribute is what gets read aloud. The latex attribute must contain the raw LaTeX body only, with no $, $$, \\(, or \\[ delimiters. The spoken reading should describe the equation the way a lecturer would say it aloud — natural English, not literal LaTeX. Examples: latex=\"x^2 + y^2 = z^2\" → \"x squared plus y squared equals z squared\", latex=\"\\\\sum_{i=1}^n x_i\" → \"the sum of x i from 1 to n\", latex=\"A \\\\cup B \\\\subseteq C\" → \"A union B is a subset of C\", latex=\"\\\\alpha \\\\geq \\\\beta\" → \"alpha is at least beta\". Do NOT read notation literally (\"angle bracket\", \"backslash langle\", \"left paren\"). Describe meaning, not visual symbols. NEVER use underscore subscript notation (W_Q, d_k) — write subscripts as inline lowercase letters (Wq, Wk, Wv, dk) or use Unicode sub/superscripts where available (₀₁₂, ᵢ, ₖ, xⁿ, n²). NEVER wrap math in backtick code spans or code blocks. ";

/// The `present_reading_view` description after the display-mode guidance.
pub const PRESENT_DOCUMENT_DESCRIPTION_END: &'static str = " CRITICAL — SILENCE AFTER PRESENTING: The reading view IS your response. After calling this tool, do NOT output any additional text in the chat — no summary, no recap, no 'here is what I found', no restatement of the content. The user already sees the full document in the reading view. Any text you add after this tool call will appear as redundant duplication. The ONLY exception is a short follow-up question to the user (e.g. 'Would you like me to go deeper on any section?'). If you have no question, output nothing. To re-display a previously presented document (with all section updates intact), pass only the document_id.";

/// The `present_reading_view` tool's declaration: its description, its parameters in key
/// order, the required ones; no other keys are accepted.
pub fn present_document_tool() -> (t: DescribedTool)
    ensures
        t.spec.name@ == "present_reading_view"@,
        t.description@ == PRESENT_DOCUMENT_DESCRIPTION_START@ + display_mode_guidance_text() + PRESENT_DOCUMENT_DESCRIPTION_END@,
        param_views(t.spec.params@) == present_document_params_spec(),
        string_views(t.spec.required@) == seq!["document_id"@],
        !t.spec.additional_properties,
        !t.spec.strict,
{
    let mut description = String::from_str(PRESENT_DOCUMENT_DESCRIPTION_START);
    description.append(reading_view_display_mode_guidance());
    description.append(PRESENT_DOCUMENT_DESCRIPTION_END);
    let mut params: Vec<ToolParam> = Vec::new();
    params.push(param("content", ParamKind::String, "Full markdown content. Use ## headings to define sections."));
    params.push(param("document_id", ParamKind::String, "Unique slug identifying this document for targeted updates"));
    params.push(param("title", ParamKind::String, "Display title for the document"));
    assert(param_views(params@) =~= present_document_params_spec());
    let required = strings(&["document_id"]);
    assert(string_views(required@) =~= seq!["document_id"@]);
    DescribedTool {
        spec: FunctionToolSpec {
            name: String::from_str("present_reading_view"),
            params,
            required,
            additional_properties: false,
            strict: false,
        },
        description,
    }
}

/// The parameters of the `update_document_section` tool, in key order.
pub open spec fn update_document_section_params_spec() -> Seq<ParamView> {
    seq![
        ("content"@, ParamKind::String, Some("New markdown content for the section"@)),
        ("document_id"@, ParamKind::String, Some("The document to update (must match a previous present_reading_view call)"@)),
        ("section_index"@, ParamKind::Number, Some("0-based section index to replace"@)),
    ]
}

/// The description of the `update_document_section` tool.
pub const UPDATE_DOCUMENT_SECTION_DESCRIPTION: &'static str = "Replace the entire content of a section in a document being read by the user. Use this to fill an empty section, or when the user explicitly asks to rewrite/restructure/simplify the whole section. Prefer patch_document_section for targeted edits. Use this only for whole-section rewrites, not for inserting an answer after one passage. Content style: write straight prose that continues the section's voice. Do NOT use a Q:/A: format. If the answer would be unclear without context, a short italic lead-in is fine (e.g. *On dropout:* ...), but skip it when the meaning is obvious from placement. Don't overuse it. Do NOT prefix with bold/italic topic lines like '**On the efficiency gains:**' or '*Regarding caching:*' — just write the content directly. SILENCE AFTER UPDATING: The reading view already shows the updated content. Do not repeat or summarize the changes in the chat. Only add text if you have a follow-up question for the user.";

/// The `update_document_section` tool's declaration: its description, its parameters in key
/// order, the required ones; no other keys are accepted.
pub fn update_document_section_tool() -> (t: DescribedTool)
    ensures
        t.spec.name@ == "update_document_section"@,
        t.description@ == UPDATE_DOCUMENT_SECTION_DESCRIPTION@,
        param_views(t.spec.params@) == update_document_section_params_spec(),
        string_views(t.spec.required@) == seq!["document_id"@, "section_index"@, "content"@],
        !t.spec.additional_properties,
        !t.spec.strict,
{
    let description = String::from_str(UPDATE_DOCUMENT_SECTION_DESCRIPTION);
    let mut params: Vec<ToolParam> = Vec::new();
    params.push(param("content", ParamKind::String, "New markdown content for the section"));
    params.push(param("document_id", ParamKind::String, "The document to update (must match a previous present_reading_view call)"));
    params.push(param("section_index", ParamKind::Number, "0-based section index to replace"));
    assert(param_views(params@) =~= update_document_section_params_spec());
    let required = strings(&["document_id", "section_index", "content"]);
    assert(string_views(required@) =~= seq!["document_id"@, "section_index"@, "content"@]);
    DescribedTool {
        spec: FunctionToolSpec {
            name: String::from_str("update_document_section"),
            params,
            required,
            additional_properties: false,
            strict: false,
        },
        description,
    }
}

/// The parameters of the `append_to_section` tool, in key order.
pub open spec fn append_to_section_params_spec() -> Seq<ParamView> {
    seq![
        ("content"@, ParamKind::String, Some("Markdown content to append at the end of the section"@)),
        ("document_id"@, ParamKind::String, Some("The document to update (must match a previous present_reading_view call)"@)),
        ("foldable"@, ParamKind::Boolean, Some("When true, content appears in a collapsible region the user can fold/expand with `f`. Set true for inserted answers, explanations, and examples. Set false ONLY when the patch replaces the original passage with a permanent rewrite. Default: true for append/patch when not specified."@)),
        ("section_index"@, ParamKind::Number, Some("0-based section index to append to"@)),
        ("summary"@, ParamKind::String, Some("Short descriptive label for this content (5-10 words). Always provide this. Used as fold title when collapsed."@)),
    ]
}

/// The description of the `append_to_section` tool.
pub const APPEND_TO_SECTION_DESCRIPTION: &'static str = "Append content to the end of a section in a document currently being read. Use this when adding information to a section without rewriting it entirely, especially when the answer applies to the section as a whole and no single passage is the right insertion point. Content style: write straight prose that continues the section's voice. Do NOT use a Q:/A: format. If the answer would be unclear without context, a short italic lead-in is fine (e.g. *On dropout:* ...), but skip it when the meaning is obvious from placement. Don't overuse it. Do NOT prefix with bold/italic topic lines like '**On the efficiency gains:**' or '*Regarding caching:*' — just write the content directly. SUMMARY (required): Always set the `summary` parameter to a short descriptive label of your answer (5-10 words), e.g. summary=\"Role of attention heads in GPT\". This is used as a section label regardless of foldable. FOLDABLE CONTENT: Set foldable=true for any inserted answer, explanation, example, or deep dive — the user can collapse and re-expand it with `f`. Only set foldable=false when the user explicitly asked for a permanent rewrite of the original passage (i.e. update_document_section / a patch that REPLACES old_text rather than appending after it). Default to foldable=true unless you are sure the content is meant to overwrite the original passage. SILENCE AFTER APPENDING: The reading view already shows the appended content. Do not repeat or summarize what you added in the chat. Only add text if you have a follow-up question for the user.";

/// The `append_to_section` tool's declaration: its description, its parameters in key
/// order, the required ones; no other keys are accepted.
pub fn append_to_section_tool() -> (t: DescribedTool)
    ensures
        t.spec.name@ == "append_to_section"@,
        t.description@ == APPEND_TO_SECTION_DESCRIPTION@,
        param_views(t.spec.params@) == append_to_section_params_spec(),
        string_views(t.spec.required@) == seq!["document_id"@, "section_index"@, "content"@],
        !t.spec.additional_properties,
        !t.spec.strict,
{
    let description = String::from_str(APPEND_TO_SECTION_DESCRIPTION);
    let mut params: Vec<ToolParam> = Vec::new();
    params.push(param("content", ParamKind::String, "Markdown content to append at the end of the section"));
    params.push(param("document_id", ParamKind::String, "The document to update (must match a previous present_reading_view call)"));
    params.push(param("foldable", ParamKind::Boolean, "When true, content appears in a collapsible region the user can fold/expand with `f`. Set true for inserted answers, explanations, and examples. Set false ONLY when the patch replaces the original passage with a permanent rewrite. Default: true for append/patch when not specified."));
    params.push(param("section_index", ParamKind::Number, "0-based section index to append to"));
    params.push(param("summary", ParamKind::String, "Short descriptive label for this content (5-10 words). Always provide this. Used as fold title when collapsed."));
    assert(param_views(params@) =~= append_to_section_params_spec());
    let required = strings(&["document_id", "section_index", "content"]);
    assert(string_views(required@) =~= seq!["document_id"@, "section_index"@, "content"@]);
    DescribedTool {
        spec: FunctionToolSpec {
            name: String::from_str("append_to_section"),
            params,
            required,
            additional_properties: false,
            strict: false,
        },
        description,
    }
}

/// The parameters of the `patch_document_section` tool, in key order.
pub open spec fn patch_document_section_params_spec() -> Seq<ParamView> {
    seq![
        ("document_id"@, ParamKind::String, Some("The document to update (must match a previous present_reading_view call)"@)),
        ("foldable"@, ParamKind::Boolean, Some("When true, content appears in a collapsible region the user can fold/expand with `f`. Set true for inserted answers, explanations, and examples. Set false ONLY when the patch replaces the original passage with a permanent rewrite. Default: true for append/patch when not specified."@)),
        ("new_text"@, ParamKind::String, Some("Replacement text"@)),
        ("old_text"@, ParamKind::String, Some("Exact text to find within the section content"@)),
        ("section_index"@, ParamKind::Number, Some("0-based section index to patch"@)),
        ("summary"@, ParamKind::String, Some("Short descriptive label for this content (5-10 words). Always provide this. Used as fold title when collapsed."@)),
    ]
}

/// The description of the `patch_document_section` tool.
pub const PATCH_DOCUMENT_SECTION_DESCRIPTION: &'static str = "Find and replace specific text within a section of a document currently being read. Use this for targeted edits like fixing a sentence or updating a specific paragraph without rewriting the entire section. To insert an answer after an existing passage, set old_text to that exact passage and set new_text to '<that same passage>\\n\\n<your answer>'. To rewrite a passage, set old_text to the exact passage and set new_text to only the rewritten replacement text, without including the old_text again. Content style: write straight prose that continues the section's voice. Do NOT use a Q:/A: format. If the answer would be unclear without context, a short italic lead-in is fine (e.g. *On dropout:* ...), but skip it when the meaning is obvious from placement. Don't overuse it. Do NOT prefix with bold/italic topic lines like '**On the efficiency gains:**' or '*Regarding caching:*' — just write the content directly. SUMMARY (required): Always set the `summary` parameter to a short descriptive label of your answer (5-10 words), e.g. summary=\"Role of attention heads in GPT\". This is used as a section label regardless of foldable. FOLDABLE CONTENT: Set foldable=true for any inserted answer, explanation, example, or deep dive — the user can collapse and re-expand it with `f`. Only set foldable=false when the user explicitly asked for a permanent rewrite of the original passage (i.e. update_document_section / a patch that REPLACES old_text rather than appending after it). Default to foldable=true unless you are sure the content is meant to overwrite the original passage. SILENCE AFTER PATCHING: The reading view already shows the patched content. Do not repeat or summarize the changes in the chat. Only add text if you have a follow-up question for the user.";

/// The `patch_document_section` tool's declaration: its description, its parameters in key
/// order, the required ones; no other keys are accepted.
pub fn patch_document_section_tool() -> (t: DescribedTool)
    ensures
        t.spec.name@ == "patch_document_section"@,
        t.description@ == PATCH_DOCUMENT_SECTION_DESCRIPTION@,
        param_views(t.spec.params@) == patch_document_section_params_spec(),
        string_views(t.spec.required@) == seq!["document_id"@, "section_index"@, "old_text"@, "new_text"@],
        !t.spec.additional_properties,
        !t.spec.strict,
{
    let description = String::from_str(PATCH_DOCUMENT_SECTION_DESCRIPTION);
    let mut params: Vec<ToolParam> = Vec::new();
    params.push(param("document_id", ParamKind::String, "The document to update (must match a previous present_reading_view call)"));
    params.push(param("foldable", ParamKind::Boolean, "When true, content appears in a collapsible region the user can fold/expand with `f`. Set true for inserted answers, explanations, and examples. Set false ONLY when the patch replaces the original passage with a permanent rewrite. Default: true for append/patch when not specified."));
    params.push(param("new_text", ParamKind::String, "Replacement text"));
    params.push(param("old_text", ParamKind::String, "Exact text to find within the section content"));
    params.push(param("section_index", ParamKind::Number, "0-based section index to patch"));
    params.push(param("summary", ParamKind::String, "Short descriptive label for this content (5-10 words). Always provide this. Used as fold title when collapsed."));
    assert(param_views(params@) =~= patch_document_section_params_spec());
    let required = strings(&["document_id", "section_index", "old_text", "new_text"]);
    assert(string_views(required@) =~= seq!["document_id"@, "section_index"@, "old_text"@, "new_text"@]);
    DescribedTool {
        spec: FunctionToolSpec {
            name: String::from_str("patch_document_section"),
            params,
            required,
            additional_properties: false,
            strict: false,
        },
        description,
    }
}

/// The parameters of the `add_document_section` tool, in key order.
pub open spec fn add_document_section_params_spec() -> Seq<ParamView> {
    seq![
        ("after_section_index"@, ParamKind::Number, Some("Insert the new section AFTER this 0-based index. Use -1 to insert at the beginning."@)),
        ("content"@, ParamKind::String, Some("Markdown content for the section body"@)),
        ("document_id"@, ParamKind::String, Some("The document to update (must match a previous present_reading_view call)"@)),
        ("foldable"@, ParamKind::Boolean, Some("When true, the new section starts collapsed. Use for supplementary content. Default: false."@)),
        ("heading"@, ParamKind::String, Some("The ## heading for the new section"@)),
        ("summary"@, ParamKind::String, Some("Short descriptive label for this section (5-10 words). Used as fold title when collapsed."@)),
    ]
}

/// The description of the `add_document_section` tool.
pub const ADD_DOCUMENT_SECTION_DESCRIPTION: &'static str = "Add a new section to a document currently being read by the user. Use this when a follow-up question introduces a new topic that deserves its own section, rather than cramming new content into existing sections via append. Do NOT use this to rewrite existing content — use update_document_section for that. Content style: write straight prose that continues the section's voice. Do NOT use a Q:/A: format. If the answer would be unclear without context, a short italic lead-in is fine (e.g. *On dropout:* ...), but skip it when the meaning is obvious from placement. Don't overuse it. Do NOT prefix with bold/italic topic lines like '**On the efficiency gains:**' or '*Regarding caching:*' — just write the content directly. SUMMARY (required): Always set the `summary` parameter to a short descriptive label of your answer (5-10 words), e.g. summary=\"Role of attention heads in GPT\". This is used as a section label regardless of foldable. FOLDABLE CONTENT: Set foldable=true for any inserted answer, explanation, example, or deep dive — the user can collapse and re-expand it with `f`. Only set foldable=false when the user explicitly asked for a permanent rewrite of the original passage (i.e. update_document_section / a patch that REPLACES old_text rather than appending after it). Default to foldable=true unless you are sure the content is meant to overwrite the original passage. SILENCE AFTER ADDING: The reading view already shows the new section. Do not repeat or summarize the content in the chat. Only add text if you have a follow-up question for the user.";

/// The `add_document_section` tool's declaration: its description, its parameters in key
/// order, the required ones; no other keys are accepted.
pub fn add_document_section_tool() -> (t: DescribedTool)
    ensures
        t.spec.name@ == "add_document_section"@,
        t.description@ == ADD_DOCUMENT_SECTION_DESCRIPTION@,
        param_views(t.spec.params@) == add_document_section_params_spec(),
        string_views(t.spec.required@) == seq!["document_id"@, "after_section_index"@, "heading"@, "content"@],
        !t.spec.additional_properties,
        !t.spec.strict,
{
    let description = String::from_str(ADD_DOCUMENT_SECTION_DESCRIPTION);
    let mut params: Vec<ToolParam> = Vec::new();
    params.push(param("after_section_index", ParamKind::Number, "Insert the new section AFTER this 0-based index. Use -1 to insert at the beginning."));
    params.push(param("content", ParamKind::String, "Markdown content for the section body"));
    params.push(param("document_id", ParamKind::String, "The document to update (must match a previous present_reading_view call)"));
    params.push(param("foldable", ParamKind::Boolean, "When true, the new section starts collapsed. Use for supplementary content. Default: false."));
    params.push(param("heading", ParamKind::String, "The ## heading for the new section"));
    params.push(param("summary", ParamKind::String, "Short descriptive label for this section (5-10 words). Used as fold title when collapsed."));
    assert(param_views(params@) =~= add_document_section_params_spec());
    let required = strings(&["document_id", "after_section_index", "heading", "content"]);
    assert(string_views(required@) =~= seq!["document_id"@, "after_section_index"@, "heading"@, "content"@]);
    DescribedTool {
        spec: FunctionToolSpec {
            name: String::from_str("add_document_section"),
            params,
            required,
            additional_properties: false,
            strict: false,
        },
        description,
    }
}

} // verus!
