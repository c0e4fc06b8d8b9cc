//! Diagnostic feedback for the implicit LSP integration (after
//! `apply_patch` and `read_file`): the error-level diagnostics of a file,
//! rendered as an XML block for the model.
use vstd::prelude::*;

use crate::text::{decimal, push_char, push_decimal, string_views};

verus! {

/// Maximum number of diagnostics reported per file.
pub const MAX_DIAGNOSTICS_PER_FILE: usize = 20;

/// One diagnostic as a language server reported it: whether its severity is
/// `ERROR`, its zero-based start position and its message.
#[derive(Debug)]
pub struct DiagnosticEntry {
    pub is_error: bool,
    pub line: u32,
    pub character: u32,
    pub message: String,
}

/// The line reporting an error diagnostic, with one-based positions.
pub open spec fn error_line(d: DiagnosticEntry) -> Seq<char> {
    "ERROR ["@ + decimal((d.line + 1) as nat) + seq![':'] + decimal((d.character + 1) as nat) + "] "@
        + d.message@
}

/// The lines of the error-level diagnostics, in order.
pub open spec fn error_lines(diags: Seq<DiagnosticEntry>) -> Seq<Seq<char>>
    decreases diags.len(),
{
    if diags.len() == 0 {
        seq![]
    } else {
        let prev = error_lines(diags.drop_last());
        if diags.last().is_error {
            prev.push(error_line(diags.last()))
        } else {
            prev
        }
    }
}

/// The lines of the error-level diagnostics, in order. Positions are
/// reported one-based, so they must stay below `u32::MAX`.
pub fn collect_error_lines(diags: &[DiagnosticEntry]) -> (lines: Vec<String>)
    requires
        forall|i: int|
            0 <= i < diags@.len() && (#[trigger] diags@[i]).is_error ==> diags@[i].line < u32::MAX
                && diags@[i].character < u32::MAX,
    ensures
        string_views(lines@) == error_lines(diags@),
{
    let mut lines: Vec<String> = Vec::new();
    let mut k: usize = 0;
    while k < diags.len()
        invariant
            k <= diags@.len(),
            forall|i: int|
                0 <= i < diags@.len() && (#[trigger] diags@[i]).is_error ==> diags@[i].line < u32::MAX
                    && diags@[i].character < u32::MAX,
            string_views(lines@) == error_lines(diags@.take(k as int)),
        decreases diags@.len() - k,
    {
        let d = &diags[k];
        assert(diags@.take(k + 1).drop_last() =~= diags@.take(k as int));
        let ghost prev = lines@;
        if d.is_error {
            let mut line = String::from_str("ERROR [");
            push_decimal(&mut line, (d.line + 1) as u64);
            push_char(&mut line, ':');
            push_decimal(&mut line, (d.character + 1) as u64);
            line.append("] ");
            line.append(d.message.as_str());
            assert(line@ =~= error_line(*d));
            lines.push(line);
            assert(string_views(lines@) =~= string_views(prev).push(error_line(*d)));
        }
        k = k + 1;
    }
    assert(diags@.take(diags@.len() as int) =~= diags@);
    lines
}

/// Each line followed by a newline.
pub open spec fn newline_terminated(lines: Seq<Seq<char>>) -> Seq<char>
    decreases lines.len(),
{
    if lines.len() == 0 {
        seq![]
    } else {
        newline_terminated(lines.drop_last()) + lines.last() + seq!['\n']
    }
}

/// The feedback block for a file's errors: nothing when there are none;
/// else the first `MAX_DIAGNOSTICS_PER_FILE` lines, a count of the rest
/// when some are left out, inside a `<diagnostics>` element.
pub open spec fn diagnostics_xml(path: Seq<char>, errors: Seq<Seq<char>>) -> Seq<char> {
    if errors.len() == 0 {
        seq![]
    } else {
        let shown = if errors.len() <= 20 {
            errors
        } else {
            errors.take(20)
        };
        "\nLSP errors detected in "@ + path + ", please fix:\n<diagnostics file=\""@ + path + "\">\n"@
            + newline_terminated(shown) + (if errors.len() > 20 {
            "... and "@ + decimal((errors.len() - 20) as nat) + " more\n"@
        } else {
            seq![]
        }) + "</diagnostics>"@
    }
}

/// Formats the errors of the file displayed as `path` as XML diagnostics
/// output; empty when there are no errors.
pub fn format_diagnostics_xml(path: &str, errors: &[String]) -> (result: String)
    ensures
        result@ == diagnostics_xml(path@, string_views(errors@)),
{
    if errors.len() == 0 {
        return String::new();
    }
    let total = errors.len();
    let shown = if total < MAX_DIAGNOSTICS_PER_FILE {
        total
    } else {
        MAX_DIAGNOSTICS_PER_FILE
    };
    let remaining = total - shown;
    let mut result = String::from_str("\nLSP errors detected in ");
    result.append(path);
    result.append(", please fix:\n<diagnostics file=\"");
    result.append(path);
    result.append("\">\n");
    let ghost head = result@;
    let ghost views = string_views(errors@);
    let mut k: usize = 0;
    while k < shown
        invariant
            shown <= errors@.len(),
            k <= shown,
            views == string_views(errors@),
            result@ == head + newline_terminated(views.take(k as int)),
        decreases shown - k,
    {
        assert(views.take(k + 1).drop_last() =~= views.take(k as int));
        result.append(errors[k].as_str());
        push_char(&mut result, '\n');
        k = k + 1;
    }
    if total <= 20 {
        assert(views.take(shown as int) =~= views);
    }
    let ghost body = result@;
    if remaining > 0 {
        result.append("... and ");
        push_decimal(&mut result, remaining as u64);
        result.append(" more\n");
    }
    result.append("</diagnostics>");
    assert(result@ =~= diagnostics_xml(path@, views));
    result
}

/// The feedback for a file from the diagnostics every server reported, in
/// order; empty when none of them is an error.
pub fn errors_feedback(path: &str, diags: &[DiagnosticEntry]) -> (result: String)
    requires
        forall|i: int|
            0 <= i < diags@.len() && (#[trigger] diags@[i]).is_error ==> diags@[i].line < u32::MAX
                && diags@[i].character < u32::MAX,
    ensures
        result@ == diagnostics_xml(path@, error_lines(diags@)),
{
    let lines = collect_error_lines(diags);
    format_diagnostics_xml(path, lines.as_slice())
}

} // verus!
