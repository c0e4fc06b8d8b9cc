//! What the `js_repl` tool reports of one evaluation of a JavaScript snippet:
//! the log line, and the result handed to code mode.
use vstd::prelude::*;

use crate::document::json_string_literal;
use crate::document::json_string_literal_of;
use crate::text::{chars_of, decimal, first_index, push_decimal, string_of};

verus! {

/// The outcome of one evaluation: the value's text (or the error's), whether
/// it succeeded, and how long it ran.
#[derive(Debug, Clone)]
pub struct JsEvalOutcome {
    pub value: String,
    pub success: bool,
    pub elapsed_ms: u64,
}

/// The tool's output for one evaluation.
#[derive(Debug, Clone)]
pub struct JsReplToolOutput {
    pub outcome: JsEvalOutcome,
}

/// `s` up to (not including) its first line break.
pub open spec fn first_line(s: Seq<char>) -> Seq<char> {
    s.take(first_index(s, '\n'))
}

/// The log line of an evaluation: its status and the first line of its value.
pub open spec fn log_preview_text(success: bool, value: Seq<char>) -> Seq<char> {
    if success {
        "js_repl ok: "@ + first_line(value)
    } else {
        "js_repl failed: "@ + first_line(value)
    }
}

/// The JSON object handed to code mode: `elapsed_ms`, `success` and `value`,
/// keys in sorted order, the value as a JSON string literal.
pub open spec fn code_mode_json(outcome: JsEvalOutcome) -> Seq<char> {
    "{\"elapsed_ms\":"@ + decimal(outcome.elapsed_ms as nat) + ",\"success\":"@
        + (if outcome.success {
        "true"@
    } else {
        "false"@
    }) + ",\"value\":"@ + json_string_literal(outcome.value@) + "}"@
}

impl JsReplToolOutput {
    /// The output of an evaluation.
    pub fn new(outcome: JsEvalOutcome) -> (r: Self)
        ensures
            r.outcome == outcome,
    {
        JsReplToolOutput { outcome }
    }

    /// The log line: `js_repl ok: ` or `js_repl failed: `, then the value's
    /// first line.
    pub fn log_preview(&self) -> (r: String)
        ensures
            r@ == log_preview_text(self.outcome.success, self.outcome.value@),
    {
        let v = chars_of(self.outcome.value.as_str());
        let mut k: usize = 0;
        while k < v.len() && v[k] != '\n'
            invariant
                k <= v@.len(),
                forall|j: int| 0 <= j < k ==> v@[j] != '\n',
            decreases v@.len() - k,
        {
            k = k + 1;
        }
        proof {
            crate::text::lemma_first_index_is(v@, '\n', k as int);
        }
        let mut first: Vec<char> = Vec::new();
        let mut i: usize = 0;
        while i < k
            invariant
                i <= k <= v@.len(),
                first@ == v@.take(i as int),
            decreases k - i,
        {
            first.push(v[i]);
            i = i + 1;
            assert(first@ =~= v@.take(i as int));
        }
        let mut out = if self.outcome.success {
            String::from_str("js_repl ok: ")
        } else {
            String::from_str("js_repl failed: ")
        };
        let rest = string_of(first.as_slice());
        out.append(rest.as_str());
        out
    }

    /// Whether the evaluation succeeded, for the log.
    pub fn success_for_logging(&self) -> (r: bool)
        ensures
            r == self.outcome.success,
    {
        self.outcome.success
    }

    /// The JSON text of the result handed to code mode.
    pub fn code_mode_result(&self) -> (r: String)
        ensures
            r@ == code_mode_json(self.outcome),
    {
        let lit = json_string_literal_of(self.outcome.value.as_str());
        let mut out = String::from_str("{\"elapsed_ms\":");
        push_decimal(&mut out, self.outcome.elapsed_ms);
        out.append(",\"success\":");
        if self.outcome.success {
            out.append("true");
        } else {
            out.append("false");
        }
        out.append(",\"value\":");
        out.append(lit.as_str());
        out.append("}");
        out
    }
}

} // verus!
