//! Helpers shared by the code-intelligence tool handlers: result limits,
//! argument checks, and cutting long output down to size.
use vstd::prelude::*;



use crate::text::{chars_of, push_char};

verus! {

/// The number of results an `lsp` query returns: `limit` (10 when absent),
/// clamped to 1..=50.
pub open spec fn lsp_limit_spec(limit: Option<usize>) -> usize {
    let l = match limit {
        Some(l) => l,
        None => 10,
    };
    if l < 1 {
        1
    } else if l > 50 {
        50
    } else {
        l
    }
}

/// The number of results an `lsp` query returns.
pub fn lsp_limit(limit: Option<usize>) -> (r: usize)
    ensures
        r == lsp_limit_spec(limit),
{
    let l = match limit {
        Some(l) => l,
        None => 10,
    };
    if l < 1 {
        1
    } else if l > 50 {
        50
    } else {
        l
    }
}

/// The number of bytes of `c` in UTF-8.
pub open spec fn utf8_len(c: char) -> nat {
    if (c as u32) < 0x80 {
        1
    } else if (c as u32) < 0x800 {
        2
    } else if (c as u32) < 0x10000 {
        3
    } else {
        4
    }
}

/// The number of bytes of `s` in UTF-8.
pub open spec fn utf8_bytes(s: Seq<char>) -> nat
    decreases s.len(),
{
    if s.len() == 0 {
        0
    } else {
        utf8_len(s[0]) + utf8_bytes(s.drop_first())
    }
}

/// How many whole characters from the start of `s` fit in `max` bytes.
pub open spec fn fitting_chars(s: Seq<char>, max: nat) -> nat
    decreases s.len(),
{
    if s.len() == 0 || utf8_len(s[0]) > max {
        0
    } else {
        1 + fitting_chars(s.drop_first(), (max - utf8_len(s[0])) as nat)
    }
}

/// The position of the last `c` in `s`, if any.
pub open spec fn last_index_of(s: Seq<char>, c: char) -> Option<nat>
    decreases s.len(),
{
    if s.len() == 0 {
        None
    } else if s.last() == c {
        Some((s.len() - 1) as nat)
    } else {
        last_index_of(s.drop_last(), c)
    }
}

/// Output cut to at most `max` bytes: unchanged when it fits; else the
/// longest prefix of whole characters that fits, cut back to its last
/// newline, followed by a truncation note (the note alone when no character
/// fits). The flag tells whether it was cut.
pub open spec fn truncated_output(s: Seq<char>, max: nat) -> (Seq<char>, bool) {
    if utf8_bytes(s) <= max {
        (s, false)
    } else if fitting_chars(s, max) == 0 {
        ("... truncated"@, true)
    } else {
        (s.take(
            match last_index_of(s.take(fitting_chars(s, max) as int), '\n') {
                Some(i) => i as int,
                None => fitting_chars(s, max) as int,
            },
        ) + "\n\n... truncated"@, true)
    }
}

pub(crate) fn char_utf8_len(c: char) -> (n: usize)
    ensures
        n == utf8_len(c),
{
    let v = c as u32;
    if v < 0x80 {
        1
    } else if v < 0x800 {
        2
    } else if v < 0x10000 {
        3
    } else {
        4
    }
}

proof fn lemma_fitting_all(s: Seq<char>, max: nat)
    ensures
        utf8_bytes(s) <= max <==> fitting_chars(s, max) == s.len(),
        fitting_chars(s, max) <= s.len(),
    decreases s.len(),
{
    if s.len() > 0 {
        if utf8_len(s[0]) <= max {
            lemma_fitting_all(s.drop_first(), (max - utf8_len(s[0])) as nat);
        }
    }
}

/// The characters that fit take no more than the bytes allowed.
proof fn lemma_fitting_prefix_bytes(s: Seq<char>, max: nat)
    ensures
        utf8_bytes(s.take(fitting_chars(s, max) as int)) <= max,
    decreases s.len(),
{
    if s.len() == 0 || utf8_len(s[0]) > max {
        assert(s.take(0) =~= Seq::<char>::empty());
    } else {
        let rest = (max - utf8_len(s[0])) as nat;
        lemma_fitting_prefix_bytes(s.drop_first(), rest);
        lemma_fitting_all(s.drop_first(), rest);
        let f = fitting_chars(s.drop_first(), rest);
        assert(s.take(1 + f as int).drop_first() =~= s.drop_first().take(f as int));
        assert(s.take(1 + f as int)[0] == s[0]);
    }
}

/// Cut output stays within the limit: output that fits is kept as it is;
/// output that does not is cut to a prefix that fits (the truncation note
/// follows it), or to the note alone.
pub proof fn law_truncation_within_limit(s: Seq<char>, max: nat)
    ensures
        !truncated_output(s, max).1 ==> truncated_output(s, max).0 == s && utf8_bytes(s) <= max,
        truncated_output(s, max).1 ==> utf8_bytes(s) > max && (truncated_output(s, max).0 == "... truncated"@
            || exists|cut: int|
            0 <= cut <= s.len() && utf8_bytes(#[trigger] s.take(cut)) <= max && truncated_output(s, max).0 == s.take(
                cut,
            ) + "\n\n... truncated"@),
{
    lemma_fitting_all(s, max);
    let f = fitting_chars(s, max);
    if utf8_bytes(s) > max && f > 0 {
        lemma_fitting_prefix_bytes(s, max);
        let cut = match last_index_of(s.take(f as int), '\n') {
            Some(i) => i as int,
            None => f as int,
        };
        lemma_last_index_bound(s.take(f as int), '\n');
        assert(s.take(f as int) =~= s.take(cut) + s.take(f as int).skip(cut));
        crate::workspace_edit::lemma_utf8_bytes_concat(s.take(cut), s.take(f as int).skip(cut));
        assert(utf8_bytes(s.take(cut)) <= max);
        assert(truncated_output(s, max).0 == s.take(cut) + "\n\n... truncated"@);
    }
}

/// The last position of `c` lies within the text.
proof fn lemma_last_index_bound(s: Seq<char>, c: char)
    ensures
        last_index_of(s, c) matches Some(i) ==> i < s.len(),
    decreases s.len(),
{
    if s.len() > 0 && s.last() != c {
        lemma_last_index_bound(s.drop_last(), c);
    }
}

/// Counts the characters from the start of `v` that fit in `max` bytes.
fn count_fitting(v: &[char], max: usize) -> (n: usize)
    ensures
        n == fitting_chars(v@, max as nat),
{
    let mut k: usize = 0;
    let mut left: usize = max;
    assert(v@.skip(0) =~= v@);
    while k < v.len()
        invariant
            k <= v@.len(),
            left <= max,
            fitting_chars(v@, max as nat) == k + fitting_chars(v@.skip(k as int), left as nat),
        decreases v@.len() - k,
    {
        let w = char_utf8_len(v[k]);
        assert(v@.skip(k as int)[0] == v@[k as int]);
        assert(v@.skip(k as int).drop_first() =~= v@.skip(k + 1));
        if w > left {
            return k;
        }
        left = left - w;
        k = k + 1;
    }
    assert(v@.skip(k as int) =~= Seq::<char>::empty());
    k
}

/// The position of the last newline among the first `n` characters.
fn last_newline(v: &[char], n: usize) -> (r: Option<usize>)
    requires
        n <= v@.len(),
    ensures
        match r {
            Some(i) => last_index_of(v@.take(n as int), '\n') == Some(i as nat) && i < n,
            None => last_index_of(v@.take(n as int), '\n') is None,
        },
{
    let mut k: usize = n;
    while k > 0
        invariant
            k <= n <= v@.len(),
            last_index_of(v@.take(n as int), '\n') == last_index_of(v@.take(k as int), '\n'),
        decreases k,
    {
        assert(v@.take(k as int).drop_last() =~= v@.take(k - 1));
        if v[k - 1] == '\n' {
            return Some(k - 1);
        }
        k = k - 1;
    }
    None
}

/// Cuts tool output down to at most `max_bytes` bytes of UTF-8.
pub fn truncate_tool_output(output: &str, max_bytes: usize) -> (r: (String, bool))
    ensures
        (r.0@, r.1) == truncated_output(output@, max_bytes as nat),
{
    let v = chars_of(output);
    let n = count_fitting(v.as_slice(), max_bytes);
    proof {
        lemma_fitting_all(v@, max_bytes as nat);
    }
    if n == v.len() {
        return (String::from_str(output), false);
    }
    if n == 0 {
        return (String::from_str("... truncated"), true);
    }
    let cut: usize = match last_newline(v.as_slice(), n) {
        Some(i) => i,
        None => n,
    };
    let mut out = String::new();
    let mut i: usize = 0;
    while i < cut
        invariant
            cut <= n <= v@.len(),
            i <= cut,
            out@ == v@.take(i as int),
        decreases cut - i,
    {
        push_char(&mut out, v[i]);
        i = i + 1;
        assert(out@ =~= v@.take(i as int));
    }
    out.append("\n\n... truncated");
    proof {
        assert(v@.take(n as int).take(cut as int) =~= v@.take(cut as int));
    }
    (out, true)
}

/// What to do with the additional permissions a command asks for.
#[derive(Debug, Clone, Copy, PartialEq, Eq, Structural)]
pub enum PermissionStep {
    /// The command asks for none.
    NoPermissions,
    /// Normalize the requested profile and check that it names a path.
    Normalize,
}

/// The error when additional permissions are switched off.
pub open spec fn permissions_disabled_error() -> Seq<char> {
    "additional permissions are disabled; enable `features.request_permission` before using `with_additional_permissions`"@
}

/// The error when the approval policy does not allow asking.
pub open spec fn approval_policy_error(policy: Seq<char>) -> Seq<char> {
    "approval policy is "@ + policy
        + "; reject command — you cannot request additional permissions unless the approval policy is OnRequest"@
}

/// The error when a command asks for additional permissions without a profile.
pub open spec fn missing_permissions_error() -> Seq<char> {
    "missing `additional_permissions`; provide `file_system.read` and/or `file_system.write` when using `with_additional_permissions`"@
}

/// The error when a profile is given without asking for it.
pub open spec fn unrequested_permissions_error() -> Seq<char> {
    "`additional_permissions` requires `sandbox_permissions` set to `with_additional_permissions`"@
}

/// Checks a command's request for additional permissions: they must be
/// switched on to be used at all; asking for them needs the on-request
/// approval policy (`policy_name` is the policy's name) and a profile, which
/// is then normalized; a profile without asking is refused.
pub fn check_additional_permissions(
    request_permission_enabled: bool,
    approval_on_request: bool,
    policy_name: &str,
    uses_additional_permissions: bool,
    has_profile: bool,
) -> (r: Result<PermissionStep, String>)
    ensures
        !request_permission_enabled && (uses_additional_permissions || has_profile) ==> (r matches Err(e) && e@
            == permissions_disabled_error()),
        (request_permission_enabled || !(uses_additional_permissions || has_profile)) && uses_additional_permissions
            ==> match r {
            Ok(step) => approval_on_request && has_profile && step == PermissionStep::Normalize,
            Err(e) => (!approval_on_request && e@ == approval_policy_error(policy_name@)) || (approval_on_request
                && !has_profile && e@ == missing_permissions_error()),
        },
        (request_permission_enabled || !(uses_additional_permissions || has_profile)) && !uses_additional_permissions
            ==> match r {
            Ok(step) => !has_profile && step == PermissionStep::NoPermissions,
            Err(e) => has_profile && e@ == unrequested_permissions_error(),
        },
{
    if !request_permission_enabled && (uses_additional_permissions || has_profile) {
        return Err(
            String::from_str(
                "additional permissions are disabled; enable `features.request_permission` before using `with_additional_permissions`",
            ),
        );
    }
    if uses_additional_permissions {
        if !approval_on_request {
            let mut e = String::from_str("approval policy is ");
            e.append(policy_name);
            e.append(
                "; reject command — you cannot request additional permissions unless the approval policy is OnRequest",
            );
            return Err(e);
        }
        if !has_profile {
            return Err(
                String::from_str(
                    "missing `additional_permissions`; provide `file_system.read` and/or `file_system.write` when using `with_additional_permissions`",
                ),
            );
        }
        return Ok(PermissionStep::Normalize);
    }
    if has_profile {
        Err(
            String::from_str(
                "`additional_permissions` requires `sandbox_permissions` set to `with_additional_permissions`",
            ),
        )
    } else {
        Ok(PermissionStep::NoPermissions)
    }
}

/// A normalized profile must name at least one path to read or write.
pub fn check_normalized_permissions(is_empty: bool) -> (r: Result<(), String>)
    ensures
        r is Ok <==> !is_empty,
        r matches Err(e) ==> e@
            == "`additional_permissions` must include at least one path in `file_system.read` or `file_system.write`"@,
{
    if is_empty {
        return Err(
            String::from_str(
                "`additional_permissions` must include at least one path in `file_system.read` or `file_system.write`",
            ),
        );
    }
    Ok(())
}

/// The most bytes of output a code-intelligence or language-server reply
/// carries.
pub const HANDLER_MAX_RESULT_BYTES: usize = 8192;

/// The text of an `lsp` reply: the output cut to 8 KiB, and when it was
/// cut, a line saying so first.
pub fn lsp_output_text(result: &str) -> (r: String)
    ensures
        r@ == if truncated_output(result@, HANDLER_MAX_RESULT_BYTES as nat).1 {
            "[output truncated to 8KB]\n"@ + truncated_output(result@, HANDLER_MAX_RESULT_BYTES as nat).0
        } else {
            truncated_output(result@, HANDLER_MAX_RESULT_BYTES as nat).0
        },
{
    let (text, cut) = truncate_tool_output(result, HANDLER_MAX_RESULT_BYTES);
    if cut {
        let mut r = String::from_str("[output truncated to 8KB]\n");
        r.append(text.as_str());
        r
    } else {
        text
    }
}

/// The text of a `code_intel` reply: the output cut to 8 KiB.
pub fn code_intel_output_text(output: &str) -> (r: String)
    ensures
        r@ == truncated_output(output@, HANDLER_MAX_RESULT_BYTES as nat).0,
{
    truncate_tool_output(output, HANDLER_MAX_RESULT_BYTES).0
}

} // verus!
