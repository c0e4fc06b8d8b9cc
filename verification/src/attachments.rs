//! Local PDF paths mentioned in the user's text, and where a provider's
//! file uploads go.
use vstd::prelude::*;

use crate::lsp_install::{join_path, join_path_str};
use crate::reading_view::{lowercase_ascii, lowercase_ascii_chars};
use crate::text::{chars_of, contains, ends_with, ends_with_chars, find_chars, is_whitespace, is_ws, str_eq, string_of, string_views};

verus! {

/// The first whitespace at or after `k`, or the end.
pub open spec fn next_ws(s: Seq<char>, k: int) -> int
    decreases s.len() - k,
{
    if k >= s.len() {
        s.len() as int
    } else if is_ws(s[k]) {
        k
    } else {
        next_ws(s, k + 1)
    }
}

/// The first `q` at or after `k`, if any.
pub open spec fn next_quote(s: Seq<char>, k: int, q: char) -> Option<int>
    decreases s.len() - k,
{
    if k >= s.len() {
        None
    } else if s[k] == q {
        Some(k)
    } else {
        next_quote(s, k + 1, q)
    }
}

/// The tokens of `s` from position `i` on: runs of non-whitespace; a token
/// opening with a quote runs to the matching quote (whitespace included)
/// when whitespace or the end follows it, else on to the next whitespace;
/// an unmatched quote takes the rest of the text.
pub open spec fn tokens_from(s: Seq<char>, i: int) -> Seq<Seq<char>>
    decreases s.len() - i, 1int,
{
    if i < 0 || i >= s.len() {
        seq![]
    } else if is_ws(s[i]) {
        tokens_from(s, i + 1)
    } else if s[i] == '"' || s[i] == '\'' {
        quoted_tokens_from(s, i, next_quote(s, i + 1, s[i]))
    } else {
        let e = next_ws(s, i + 1);
        if i < e <= s.len() {
            seq![s.subrange(i, e)] + tokens_from(s, e)
        } else {
            seq![]
        }
    }
}

/// The tokens from a quote at `i` whose match is at `close`.
pub open spec fn quoted_tokens_from(s: Seq<char>, i: int, close: Option<int>) -> Seq<Seq<char>>
    decreases s.len() - i, 0int,
{
    match close {
        Some(j) => if i < j < s.len() {
            if j + 1 == s.len() || is_ws(s[j + 1]) {
                seq![s.subrange(i, j + 1)] + tokens_from(s, j + 1)
            } else {
                let e = next_ws(s, j + 1);
                if j < e <= s.len() {
                    seq![s.subrange(i, e)] + tokens_from(s, e)
                } else {
                    seq![]
                }
            }
        } else {
            seq![]
        },
        None => if 0 <= i < s.len() {
            seq![s.subrange(i, s.len() as int)]
        } else {
            seq![]
        },
    }
}

proof fn lemma_next_ws_bounds(s: Seq<char>, k: int)
    requires
        0 <= k,
    ensures
        k <= s.len() ==> k <= next_ws(s, k) <= s.len(),
        k > s.len() ==> next_ws(s, k) == s.len(),
        next_ws(s, k) < s.len() ==> is_ws(s[next_ws(s, k)]),
        forall|m: int| k <= m < next_ws(s, k) ==> !is_ws(#[trigger] s[m]),
    decreases s.len() - k,
{
    if k < s.len() && !is_ws(s[k]) {
        lemma_next_ws_bounds(s, k + 1);
    }
}

proof fn lemma_next_quote(s: Seq<char>, k: int, q: char)
    requires
        0 <= k,
    ensures
        match next_quote(s, k, q) {
            Some(j) => k <= j < s.len() && s[j] == q && forall|m: int| k <= m < j ==> #[trigger] s[m] != q,
            None => forall|m: int| k <= m < s.len() ==> #[trigger] s[m] != q,
        },
    decreases s.len() - k,
{
    if k < s.len() && s[k] != q {
        lemma_next_quote(s, k + 1, q);
    }
}

fn find_next_ws(v: &[char], k: usize) -> (e: usize)
    requires
        k <= v@.len(),
    ensures
        e == next_ws(v@, k as int),
{
    proof {
        lemma_next_ws_bounds(v@, k as int);
    }
    let mut e = k;
    while e < v.len() && !is_whitespace(v[e])
        invariant
            k <= e <= v@.len(),
            next_ws(v@, e as int) == next_ws(v@, k as int),
        decreases v@.len() - e,
    {
        e = e + 1;
    }
    e
}

fn find_next_quote(v: &[char], k: usize, q: char) -> (r: Option<usize>)
    requires
        k <= v@.len(),
    ensures
        match r {
            Some(j) => next_quote(v@, k as int, q) == Some(j as int),
            None => next_quote(v@, k as int, q) is None,
        },
{
    let mut j = k;
    while j < v.len()
        invariant
            k <= j <= v@.len(),
            next_quote(v@, j as int, q) == next_quote(v@, k as int, q),
        decreases v@.len() - j,
    {
        if v[j] == q {
            return Some(j);
        }
        j = j + 1;
    }
    None
}

fn slice_string(v: &[char], a: usize, b: usize) -> (s: String)
    requires
        a <= b <= v@.len(),
    ensures
        s@ == v@.subrange(a as int, b as int),
{
    let mut s = String::new();
    let mut k = a;
    while k < b
        invariant
            a <= k <= b <= v@.len(),
            s@ == v@.subrange(a as int, k as int),
        decreases b - k,
    {
        crate::text::push_char(&mut s, v[k]);
        k = k + 1;
        assert(s@ =~= v@.subrange(a as int, k as int));
    }
    s
}

/// The whitespace-separated words of `s` from position `i` on, as
/// `str::split_whitespace` gives them: the maximal runs of characters that
/// are not whitespace, in order.
pub open spec fn whitespace_words_from(s: Seq<char>, i: int) -> Seq<Seq<char>>
    decreases s.len() - i,
{
    if i < 0 || i >= s.len() {
        seq![]
    } else if is_ws(s[i]) {
        whitespace_words_from(s, i + 1)
    } else {
        let e = next_ws(s, i + 1);
        if i < e <= s.len() {
            seq![s.subrange(i, e)] + whitespace_words_from(s, e)
        } else {
            seq![]
        }
    }
}

/// Whether `s` holds no quote character.
pub open spec fn has_no_quotes(s: Seq<char>) -> bool {
    forall|k: int| 0 <= k < s.len() ==> #[trigger] s[k] != '"' && s[k] != '\''
}

proof fn lemma_tokens_are_words(s: Seq<char>, i: int)
    requires
        0 <= i,
        has_no_quotes(s),
    ensures
        tokens_from(s, i) == whitespace_words_from(s, i),
        forall|t: int| 0 <= t < tokens_from(s, i).len() ==> (#[trigger] tokens_from(s, i)[t]).len() > 0
            && forall|m: int| 0 <= m < tokens_from(s, i)[t].len() ==> !is_ws(#[trigger] tokens_from(s, i)[t][m]),
    decreases s.len() - i,
{
    if i < s.len() {
        if is_ws(s[i]) {
            lemma_tokens_are_words(s, i + 1);
        } else {
            assert(s[i] != '"' && s[i] != '\'');
            lemma_next_ws_bounds(s, i + 1);
            let e = next_ws(s, i + 1);
            lemma_tokens_are_words(s, e);
            let ts = tokens_from(s, i);
            assert(ts == seq![s.subrange(i, e)] + tokens_from(s, e));
            assert forall|t: int| 0 <= t < ts.len() implies (#[trigger] ts[t]).len() > 0
                && forall|m: int| 0 <= m < ts[t].len() ==> !is_ws(#[trigger] ts[t][m]) by {
                if t == 0 {
                    assert(ts[0] == s.subrange(i, e));
                    assert forall|m: int| 0 <= m < ts[0].len() implies !is_ws(#[trigger] ts[0][m]) by {
                        assert(ts[0][m] == s[i + m]);
                        if m > 0 {
                            assert(i + 1 <= i + m < e);
                        }
                    }
                } else {
                    assert(ts[t] == tokens_from(s, e)[t - 1]);
                }
            }
        }
    }
}

/// Law: text without quotes splits into its whitespace-separated words,
/// as `str::split_whitespace` gives them; each token is non-empty and
/// holds no whitespace.
pub proof fn law_unquoted_tokens_are_whitespace_words(s: Seq<char>)
    requires
        has_no_quotes(s),
    ensures
        tokens_from(s, 0) == whitespace_words_from(s, 0),
        forall|t: int| 0 <= t < tokens_from(s, 0).len() ==> (#[trigger] tokens_from(s, 0)[t]).len() > 0
            && forall|m: int| 0 <= m < tokens_from(s, 0)[t].len() ==> !is_ws(#[trigger] tokens_from(s, 0)[t][m]),
{
    lemma_tokens_are_words(s, 0);
}

/// Splits text into the tokens that may be paths.
pub fn split_text_path_tokens(text: &str) -> (tokens: Vec<String>)
    ensures
        string_views(tokens@) == tokens_from(text@, 0),
{
    let v = chars_of(text);
    let n = v.len();
    let mut tokens: Vec<String> = Vec::new();
    let mut i: usize = 0;
    while i < n
        invariant
            v@ == text@,
            n == v@.len(),
            i <= n,
            string_views(tokens@) + tokens_from(v@, i as int) == tokens_from(v@, 0),
        decreases n - i, 
    {
        let ch = v[i];
        let ghost before = string_views(tokens@);
        if is_whitespace(ch) {
            i = i + 1;
        } else if ch == '"' || ch == '\'' {
            let close = find_next_quote(v.as_slice(), i + 1, ch);
            proof {
                lemma_next_quote(v@, i + 1, ch);
            }
            assert(tokens_from(v@, i as int) == quoted_tokens_from(v@, i as int, next_quote(v@, i + 1, ch)));
            match close {
                Some(j) => {
                    assert(tokens_from(v@, i as int) == quoted_tokens_from(v@, i as int, Some(j as int)));
                    if j + 1 == n || is_whitespace(v[j + 1]) {
                        let t = slice_string(v.as_slice(), i, j + 1);
                        tokens.push(t);
                        assert(string_views(tokens@) =~= before.push(v@.subrange(i as int, j + 1)));
                        assert(tokens_from(v@, i as int) == seq![v@.subrange(i as int, j + 1)] + tokens_from(v@, j + 1));
                        assert(before + tokens_from(v@, i as int) =~= string_views(tokens@) + tokens_from(v@, j + 1));
                        i = j + 1;
                    } else {
                        let e = find_next_ws(v.as_slice(), j + 1);
                        proof {
                            lemma_next_ws_bounds(v@, j + 1);
                        }
                        let t = slice_string(v.as_slice(), i, e);
                        tokens.push(t);
                        assert(string_views(tokens@) =~= before.push(v@.subrange(i as int, e as int)));
                        assert(before + tokens_from(v@, i as int) =~= string_views(tokens@) + tokens_from(v@, e as int));
                        i = e;
                    }
                },
                None => {
                    assert(tokens_from(v@, i as int) == quoted_tokens_from(v@, i as int, None));
                    let t = slice_string(v.as_slice(), i, n);
                    tokens.push(t);
                    assert(string_views(tokens@) =~= before.push(v@.subrange(i as int, n as int)));
                    assert(before + tokens_from(v@, i as int) =~= string_views(tokens@) + tokens_from(v@, n as int));
                    i = n;
                },
            }
        } else {
            let e = find_next_ws(v.as_slice(), i + 1);
            proof {
                lemma_next_ws_bounds(v@, i + 1);
            }
            let t = slice_string(v.as_slice(), i, e);
            tokens.push(t);
            assert(string_views(tokens@) =~= before.push(v@.subrange(i as int, e as int)));
            assert(before + tokens_from(v@, i as int) =~= string_views(tokens@) + tokens_from(v@, e as int));
            i = e;
        }
    }
    assert(string_views(tokens@) =~= string_views(tokens@) + tokens_from(v@, n as int));
    tokens
}

/// The token without a pair of matching quotes around it, if it has one.
pub open spec fn unquoted(token: Seq<char>) -> Seq<char> {
    if token.len() >= 2 && ((token[0] == '"' && token.last() == '"') || (token[0] == '\'' && token.last() == '\'')) {
        token.subrange(1, token.len() - 1)
    } else {
        token
    }
}

/// Strips one pair of matching quotes around the token.
pub fn strip_wrapping_quote_pair(token: &str) -> (r: String)
    ensures
        r@ == unquoted(token@),
{
    let v = chars_of(token);
    let n = v.len();
    if n >= 2 && ((v[0] == '"' && v[n - 1] == '"') || (v[0] == '\'' && v[n - 1] == '\'')) {
        slice_string(v.as_slice(), 1, n - 1)
    } else {
        String::from_str(token)
    }
}

/// Whether the token names a PDF: not empty, ending in `.pdf` in any case.
pub open spec fn is_pdf_token(token: Seq<char>) -> bool {
    token.len() > 0 && ends_with(lowercase_ascii(token), ".pdf"@)
}

/// Whether the token names a PDF.
pub fn is_pdf_path_token(token: &str) -> (b: bool)
    ensures
        b == is_pdf_token(token@),
{
    let v = chars_of(token);
    v.len() > 0 && ends_with_chars(lowercase_ascii_chars(&v).as_slice(), chars_of(".pdf").as_slice())
}

/// Whether the token looks like a URL: it holds `://`.
pub fn looks_like_url(token: &str) -> (b: bool)
    ensures
        b == contains(token@, "://"@),
{
    find_chars(chars_of(token).as_slice(), chars_of("://").as_slice()).is_some()
}

/// The token as a path: itself when absolute, else under `cwd`.
pub open spec fn resolved_candidate(token: Seq<char>, cwd: Seq<char>) -> Seq<char> {
    if token.len() > 0 && token[0] == '/' {
        token
    } else {
        join_path(cwd, token)
    }
}

/// The token as a path: itself when absolute, else under `cwd`.
pub fn resolve_candidate_path(token: &str, cwd: &str) -> (r: String)
    ensures
        r@ == resolved_candidate(token@, cwd@),
{
    let v = chars_of(token);
    if v.len() > 0 && v[0] == '/' {
        String::from_str(token)
    } else {
        join_path_str(cwd, token)
    }
}

/// The PDF paths a text names, in order: its tokens, unquoted, that end in
/// `.pdf` and are not URLs, resolved against `cwd`.
pub open spec fn pdf_candidates(tokens: Seq<Seq<char>>, cwd: Seq<char>) -> Seq<Seq<char>>
    decreases tokens.len(),
{
    if tokens.len() == 0 {
        seq![]
    } else {
        let prev = pdf_candidates(tokens.drop_last(), cwd);
        let t = unquoted(tokens.last());
        if is_pdf_token(t) && !contains(t, "://"@) {
            prev.push(resolved_candidate(t, cwd))
        } else {
            prev
        }
    }
}

/// The candidate PDF paths named in a text, before the file system is asked
/// which of them exist.
pub fn local_pdf_path_candidates(text: &str, cwd: &str) -> (r: Vec<String>)
    ensures
        string_views(r@) == pdf_candidates(tokens_from(text@, 0), cwd@),
{
    let tokens = split_text_path_tokens(text);
    let ghost ts = string_views(tokens@);
    let mut out: Vec<String> = Vec::new();
    let mut k: usize = 0;
    while k < tokens.len()
        invariant
            k <= tokens@.len(),
            ts == string_views(tokens@),
            string_views(out@) == pdf_candidates(ts.take(k as int), cwd@),
        decreases tokens@.len() - k,
    {
        assert(ts.take(k + 1).drop_last() =~= ts.take(k as int));
        let candidate = strip_wrapping_quote_pair(tokens[k].as_str());
        if is_pdf_path_token(candidate.as_str()) && !looks_like_url(candidate.as_str()) {
            let ghost prev = string_views(out@);
            let p = resolve_candidate_path(candidate.as_str(), cwd);
            let ghost pv = p@;
            out.push(p);
            assert(string_views(out@) =~= prev.push(pv));
        }
        k = k + 1;
    }
    assert(ts.take(tokens@.len() as int) =~= ts);
    out
}

/// The raw bytes that fit in an inline payload of the given size once
/// base64-encoded: three quarters of it (the product saturating).
pub open spec fn max_raw_inline_spec(max_inline_payload_bytes: u64) -> u64 {
    if max_inline_payload_bytes * 3 > u64::MAX {
        (u64::MAX / 4) as u64
    } else {
        (max_inline_payload_bytes * 3 / 4) as u64
    }
}

/// The raw bytes that fit in an inline payload of the given size.
pub fn max_raw_inline_bytes(max_inline_payload_bytes: u64) -> (r: u64)
    ensures
        r == max_raw_inline_spec(max_inline_payload_bytes),
{
    let product: u64 = if max_inline_payload_bytes > u64::MAX / 3 {
        u64::MAX
    } else {
        max_inline_payload_bytes * 3
    };
    product / 4
}

/// `s` without the `/` it ends in, however many.
pub open spec fn trim_trailing_slashes(s: Seq<char>) -> Seq<char>
    decreases s.len(),
{
    if s.len() > 0 && s.last() == '/' {
        trim_trailing_slashes(s.drop_last())
    } else {
        s
    }
}

/// `s` without the suffix `p` where it ends in it.
pub open spec fn without_suffix(s: Seq<char>, p: Seq<char>) -> Seq<char> {
    if ends_with(s, p) {
        s.take(s.len() - p.len())
    } else {
        s
    }
}

/// The default API origin of a provider.
pub open spec fn fallback_base_url(provider_id: Seq<char>) -> Seq<char> {
    if provider_id == "openai"@ {
        "https://api.openai.com"@
    } else if provider_id == "anthropic"@ {
        "https://api.anthropic.com"@
    } else if provider_id == "gemini"@ {
        "https://generativelanguage.googleapis.com"@
    } else {
        seq![]
    }
}

/// Where a provider's file uploads go: its configured base URL (else its
/// default), without trailing slashes and without the API version suffix
/// (`/v1` for OpenAI and Anthropic, `/v1beta` for Gemini).
pub open spec fn upload_base_url(provider_id: Seq<char>, base_url: Option<Seq<char>>) -> Seq<char> {
    let base = trim_trailing_slashes(
        match base_url {
            Some(b) => b,
            None => fallback_base_url(provider_id),
        },
    );
    if provider_id == "openai"@ || provider_id == "anthropic"@ {
        without_suffix(base, "/v1"@)
    } else if provider_id == "gemini"@ {
        without_suffix(base, "/v1beta"@)
    } else {
        base
    }
}

fn strip_suffix_chars(v: &Vec<char>, p: &str) -> (r: Vec<char>)
    ensures
        r@ == without_suffix(v@, p@),
{
    let pc = chars_of(p);
    if ends_with_chars(v.as_slice(), pc.as_slice()) {
        let n = v.len() - pc.len();
        let mut r: Vec<char> = Vec::new();
        let mut k: usize = 0;
        while k < n
            invariant
                n <= v@.len(),
                k <= n,
                r@ == v@.take(k as int),
            decreases n - k,
        {
            r.push(v[k]);
            k = k + 1;
            assert(r@ =~= v@.take(k as int));
        }
        r
    } else {
        crate::text::copy_slice(v.as_slice())
    }
}

/// Where a provider's file uploads go.
pub fn upload_base_url_for_provider(provider_id: &str, base_url: Option<&str>) -> (r: String)
    ensures
        r@ == upload_base_url(
            provider_id@,
            match base_url {
                Some(b) => Some(b@),
                None => None,
            },
        ),
{
    let fallback = if str_eq(provider_id, "openai") {
        "https://api.openai.com"
    } else if str_eq(provider_id, "anthropic") {
        "https://api.anthropic.com"
    } else if str_eq(provider_id, "gemini") {
        "https://generativelanguage.googleapis.com"
    } else {
        ""
    };
    proof {
        reveal_strlit("");
    }
    let chosen = match base_url {
        Some(b) => b,
        None => fallback,
    };
    let mut base = chars_of(chosen);
    let ghost orig = base@;
    while base.len() > 0 && base[base.len() - 1] == '/'
        invariant
            trim_trailing_slashes(base@) == trim_trailing_slashes(orig),
        decreases base@.len(),
    {
        base.pop();
    }
    let stripped = if str_eq(provider_id, "openai") || str_eq(provider_id, "anthropic") {
        strip_suffix_chars(&base, "/v1")
    } else if str_eq(provider_id, "gemini") {
        strip_suffix_chars(&base, "/v1beta")
    } else {
        base
    };
    string_of(stripped.as_slice())
}

/// A writable root of the sandbox, as seen for one path: whether the policy
/// makes the path writable under it, the root made canonical, and its
/// read-only subpaths made canonical.
#[derive(Debug, Clone)]
pub struct WritableRootCheck {
    pub path_writable: bool,
    pub canonical_root: String,
    pub canonical_read_only_subpaths: Vec<String>,
}

/// Whether a path lies under a root and outside its read-only subpaths (or
/// the policy makes it writable there).
pub open spec fn allowed_by_root(p: Seq<char>, r: WritableRootCheck) -> bool {
    r.path_writable || (crate::roots::path_starts_with(p, r.canonical_root@) && forall|i: int|
        0 <= i < r.canonical_read_only_subpaths@.len() ==> !crate::roots::path_starts_with(
            p,
            #[trigger] r.canonical_read_only_subpaths@[i]@,
        ))
}

/// Whether a file found in the text may be attached: it lies under the
/// working directory, or a writable root allows it.
pub open spec fn path_allowed(p: Seq<char>, cwd: Seq<char>, roots: Seq<WritableRootCheck>) -> bool {
    crate::roots::path_starts_with(p, cwd) || exists|i: int| 0 <= i < roots.len() && allowed_by_root(p, #[trigger] roots[i])
}

/// Whether a root allows the path.
fn root_allows(p: &str, r: &WritableRootCheck) -> (b: bool)
    ensures
        b == allowed_by_root(p@, *r),
{
    if r.path_writable {
        return true;
    }
    if !crate::roots::path_has_prefix(p, r.canonical_root.as_str()) {
        return false;
    }
    let mut k: usize = 0;
    while k < r.canonical_read_only_subpaths.len()
        invariant
            k <= r.canonical_read_only_subpaths@.len(),
            !r.path_writable,
            crate::roots::path_starts_with(p@, r.canonical_root@),
            forall|i: int| 0 <= i < k ==> !crate::roots::path_starts_with(p@, #[trigger] r.canonical_read_only_subpaths@[i]@),
        decreases r.canonical_read_only_subpaths@.len() - k,
    {
        if crate::roots::path_has_prefix(p, r.canonical_read_only_subpaths[k].as_str()) {
            return false;
        }
        k = k + 1;
    }
    true
}

/// Whether a canonical path found in the text may be attached: it lies under
/// the (canonical) working directory or a writable root allows it.
pub fn is_canonical_path_within_allowed_roots(canonical_path: &str, canonical_cwd: &str, roots: &[WritableRootCheck]) -> (b: bool)
    ensures
        b == path_allowed(canonical_path@, canonical_cwd@, roots@),
{
    if crate::roots::path_has_prefix(canonical_path, canonical_cwd) {
        return true;
    }
    let mut k: usize = 0;
    while k < roots.len()
        invariant
            k <= roots@.len(),
            !crate::roots::path_starts_with(canonical_path@, canonical_cwd@),
            forall|i: int| 0 <= i < k ==> !allowed_by_root(canonical_path@, #[trigger] roots@[i]),
        decreases roots@.len() - k,
    {
        if root_allows(canonical_path, &roots[k]) {
            return true;
        }
        k = k + 1;
    }
    false
}

/// Whether `p` is the same path as one of `paths`.
pub open spec fn among_paths(paths: Seq<Seq<char>>, p: Seq<char>) -> bool {
    exists|i: int| 0 <= i < paths.len() && crate::virtual_workspace::same_path(#[trigger] paths[i], p)
}

/// The found paths to attach, in order: each one unless it is the same path
/// as a file already attached or one found before it.
pub open spec fn new_paths(existing: Seq<Seq<char>>, found: Seq<Seq<char>>) -> Seq<Seq<char>>
    decreases found.len(),
{
    if found.len() == 0 {
        Seq::empty()
    } else {
        let prev = new_paths(existing, found.drop_last());
        if among_paths(existing, found.last()) || among_paths(found.drop_last(), found.last()) {
            prev
        } else {
            prev.push(found.last())
        }
    }
}

/// Whether `p` is the same path as one of the first `n` of `paths`.
fn among(paths: &[String], n: usize, p: &str) -> (b: bool)
    requires
        n <= paths@.len(),
    ensures
        b == among_paths(string_views(paths@).take(n as int), p@),
{
    let ghost pv = string_views(paths@).take(n as int);
    let mut k: usize = 0;
    while k < n
        invariant
            k <= n <= paths@.len(),
            pv == string_views(paths@).take(n as int),
            forall|i: int| 0 <= i < k ==> !crate::virtual_workspace::same_path(#[trigger] pv[i], p@),
        decreases n - k,
    {
        if crate::virtual_workspace::same_path_exec(paths[k].as_str(), p) {
            assert(crate::virtual_workspace::same_path(pv[k as int], p@));
            return true;
        }
        k = k + 1;
    }
    false
}

/// The canonical PDF paths found in the text that are not attached yet, in
/// order and without repeats (`existing` are the paths attached already).
pub fn new_local_pdf_paths(existing: &[String], found: &[String]) -> (r: Vec<String>)
    ensures
        string_views(r@) == new_paths(string_views(existing@), string_views(found@)),
{
    let ghost ev = string_views(existing@);
    let ghost fv = string_views(found@);
    let mut out: Vec<String> = Vec::new();
    let mut k: usize = 0;
    assert(fv.take(0) =~= Seq::<Seq<char>>::empty());
    assert(string_views(out@) =~= Seq::<Seq<char>>::empty());
    while k < found.len()
        invariant
            k <= found@.len(),
            ev == string_views(existing@),
            fv == string_views(found@),
            string_views(out@) == new_paths(ev, fv.take(k as int)),
        decreases found@.len() - k,
    {
        assert(fv.take(k + 1).drop_last() =~= fv.take(k as int));
        assert(fv.take(k + 1).last() == fv[k as int]);
        assert(ev.take(existing@.len() as int) =~= ev);
        let seen_before = among(existing, existing.len(), found[k].as_str());
        let repeated = among(found, k, found[k].as_str());
        if !seen_before && !repeated {
            let ghost before = string_views(out@);
            let p = found[k].clone();
            assert(p@ == fv[k as int]);
            out.push(p);
            assert(string_views(out@) =~= before.push(fv[k as int]));
        }
        k = k + 1;
    }
    assert(fv.take(found@.len() as int) =~= fv);
    out
}

/// What the file system said of one PDF path candidate: its canonical path
/// (`None` where it could not be made canonical) and whether that is a file.
#[derive(Debug, Clone)]
pub struct CandidateCheck {
    pub canonical: Option<String>,
    pub is_file: bool,
}

/// Whether a checked candidate is attached: it has a canonical path, that
/// is a file, and it lies within the allowed roots.
pub open spec fn candidate_accepted(c: CandidateCheck, cwd: Seq<char>, roots: Seq<WritableRootCheck>) -> bool {
    match c.canonical {
        Some(p) => c.is_file && path_allowed(p@, cwd, roots),
        None => false,
    }
}

/// The canonical paths of the accepted candidates, in order.
pub open spec fn accepted_paths(checks: Seq<CandidateCheck>, cwd: Seq<char>, roots: Seq<WritableRootCheck>) -> Seq<Seq<char>>
    decreases checks.len(),
{
    if checks.len() == 0 {
        Seq::empty()
    } else {
        let prev = accepted_paths(checks.drop_last(), cwd, roots);
        if candidate_accepted(checks.last(), cwd, roots) {
            prev.push(checks.last().canonical->Some_0@)
        } else {
            prev
        }
    }
}

/// The PDF paths found in the user's text that may be attached: of the
/// candidates (each with what the file system said of it), those with a
/// canonical path that is a file within the allowed roots, in order.
/// `new_local_pdf_paths` then drops those attached already or repeated.
pub fn accepted_pdf_paths(checks: &[CandidateCheck], canonical_cwd: &str, roots: &[WritableRootCheck]) -> (r: Vec<String>)
    ensures
        string_views(r@) == accepted_paths(checks@, canonical_cwd@, roots@),
{
    let mut out: Vec<String> = Vec::new();
    let mut k: usize = 0;
    assert(checks@.take(0) =~= Seq::<CandidateCheck>::empty());
    assert(string_views(out@) =~= Seq::<Seq<char>>::empty());
    while k < checks.len()
        invariant
            k <= checks@.len(),
            string_views(out@) == accepted_paths(checks@.take(k as int), canonical_cwd@, roots@),
        decreases checks@.len() - k,
    {
        assert(checks@.take(k + 1).drop_last() =~= checks@.take(k as int));
        assert(checks@.take(k + 1).last() == checks@[k as int]);
        if checks[k].is_file {
            if let Some(p) = &checks[k].canonical {
                if is_canonical_path_within_allowed_roots(p.as_str(), canonical_cwd, roots) {
                    let ghost before = string_views(out@);
                    let c = p.clone();
                    out.push(c);
                    assert(string_views(out@) =~= before.push(c@));
                }
            }
        }
        k = k + 1;
    }
    assert(checks@.take(checks@.len() as int) =~= checks@);
    out
}

/// An item of the user's input, as far as attaching local PDF files reads
/// it: text, a local file, an uploaded file (by its source path), or
/// anything else.
#[derive(Debug, Clone)]
pub enum UserInputItem {
    Text(String),
    LocalFile(String),
    UploadedFile(String),
    Other,
}

/// The file paths an input names (local files and uploaded files), in
/// order.
pub open spec fn input_paths(inputs: Seq<UserInputItem>) -> Seq<Seq<char>>
    decreases inputs.len(),
{
    if inputs.len() == 0 {
        seq![]
    } else {
        let prev = input_paths(inputs.drop_last());
        match inputs.last() {
            UserInputItem::LocalFile(p) => prev.push(p@),
            UserInputItem::UploadedFile(p) => prev.push(p@),
            _ => prev,
        }
    }
}

/// The texts of the input, in order.
pub open spec fn input_texts(inputs: Seq<UserInputItem>) -> Seq<Seq<char>>
    decreases inputs.len(),
{
    if inputs.len() == 0 {
        seq![]
    } else {
        let prev = input_texts(inputs.drop_last());
        match inputs.last() {
            UserInputItem::Text(t) => prev.push(t@),
            _ => prev,
        }
    }
}

/// Whether `item` is the local file `path`.
pub open spec fn is_local_file(item: UserInputItem, path: Seq<char>) -> bool {
    item matches UserInputItem::LocalFile(p) && p@ == path
}

/// The file paths the input names (each to be made canonical before they
/// are compared with what the text mentions).
pub fn attached_paths(inputs: &[UserInputItem]) -> (r: Vec<String>)
    ensures
        string_views(r@) == input_paths(inputs@),
{
    let mut r: Vec<String> = Vec::new();
    let mut k: usize = 0;
    assert(inputs@.take(0) =~= Seq::<UserInputItem>::empty());
    assert(string_views(r@) =~= Seq::<Seq<char>>::empty());
    while k < inputs.len()
        invariant
            k <= inputs@.len(),
            string_views(r@) == input_paths(inputs@.take(k as int)),
        decreases inputs@.len() - k,
    {
        assert(inputs@.take(k + 1).drop_last() =~= inputs@.take(k as int));
        assert(inputs@.take(k + 1).last() == inputs@[k as int]);
        let ghost before = string_views(r@);
        match &inputs[k] {
            UserInputItem::LocalFile(p) => {
                let c = p.clone();
                r.push(c);
                assert(string_views(r@) =~= before.push(c@));
            },
            UserInputItem::UploadedFile(p) => {
                let c = p.clone();
                r.push(c);
                assert(string_views(r@) =~= before.push(c@));
            },
            _ => {},
        }
        k = k + 1;
    }
    assert(inputs@.take(inputs@.len() as int) =~= inputs@);
    r
}

/// The texts of the input, in order (where PDF paths are looked for).
pub fn text_inputs(inputs: &[UserInputItem]) -> (r: Vec<String>)
    ensures
        string_views(r@) == input_texts(inputs@),
{
    let mut r: Vec<String> = Vec::new();
    let mut k: usize = 0;
    assert(inputs@.take(0) =~= Seq::<UserInputItem>::empty());
    assert(string_views(r@) =~= Seq::<Seq<char>>::empty());
    while k < inputs.len()
        invariant
            k <= inputs@.len(),
            string_views(r@) == input_texts(inputs@.take(k as int)),
        decreases inputs@.len() - k,
    {
        assert(inputs@.take(k + 1).drop_last() =~= inputs@.take(k as int));
        assert(inputs@.take(k + 1).last() == inputs@[k as int]);
        let ghost before = string_views(r@);
        match &inputs[k] {
            UserInputItem::Text(t) => {
                let c = t.clone();
                r.push(c);
                assert(string_views(r@) =~= before.push(c@));
            },
            _ => {},
        }
        k = k + 1;
    }
    assert(inputs@.take(inputs@.len() as int) =~= inputs@);
    r
}

/// Appends to the input a local file for each PDF path found in its text
/// that is neither attached already nor found before (`existing`: the
/// canonical paths of the files the input names; `found`: the accepted
/// canonical PDF paths, in order). The input before stays as it was.
pub fn inject_local_pdf_paths(inputs: &mut Vec<UserInputItem>, existing: &[String], found: &[String])
    ensures
        final(inputs)@.len() == old(inputs)@.len() + new_paths(string_views(existing@), string_views(found@)).len(),
        final(inputs)@.take(old(inputs)@.len() as int) == old(inputs)@,
        forall|i: int| 0 <= i < new_paths(string_views(existing@), string_views(found@)).len() ==> is_local_file(
            #[trigger] final(inputs)@[old(inputs)@.len() + i],
            new_paths(string_views(existing@), string_views(found@))[i],
        ),
{
    let add = new_local_pdf_paths(existing, found);
    let ghost np = new_paths(string_views(existing@), string_views(found@));
    let ghost start = inputs@;
    let mut k: usize = 0;
    while k < add.len()
        invariant
            k <= add@.len(),
            string_views(add@) == np,
            inputs@.len() == start.len() + k,
            inputs@.take(start.len() as int) == start,
            forall|i: int| 0 <= i < k ==> is_local_file(#[trigger] inputs@[start.len() + i], np[i]),
        decreases add@.len() - k,
    {
        let p = add[k].clone();
        assert(p@ == np[k as int]);
        inputs.push(UserInputItem::LocalFile(p));
        assert(inputs@.take(start.len() as int) =~= start);
        k = k + 1;
    }
}

proof fn lemma_found_all_among(existing: Seq<Seq<char>>, found: Seq<Seq<char>>)
    ensures
        forall|k: int| 0 <= k < found.len() ==> among_paths(existing + new_paths(existing, found), #[trigger] found[k]),
    decreases found.len(),
{
    if found.len() > 0 {
        let prev = found.drop_last();
        lemma_found_all_among(existing, prev);
        let np = new_paths(existing, found);
        let pnp = new_paths(existing, prev);
        let all = existing + np;
        let pall = existing + pnp;
        let f = found.last();
        if among_paths(existing, f) || among_paths(prev, f) {
            assert(np == pnp);
            assert forall|k: int| 0 <= k < found.len() implies among_paths(all, #[trigger] found[k]) by {
                if k < prev.len() {
                    assert(found[k] == prev[k]);
                } else if among_paths(existing, f) {
                    let i = choose|i: int| 0 <= i < existing.len() && crate::virtual_workspace::same_path(#[trigger] existing[i], f);
                    assert(all[i] == existing[i]);
                } else {
                    let j = choose|j: int| 0 <= j < prev.len() && crate::virtual_workspace::same_path(#[trigger] prev[j], f);
                    assert(among_paths(all, prev[j]));
                    let i = choose|i: int| 0 <= i < all.len() && crate::virtual_workspace::same_path(#[trigger] all[i], prev[j]);
                    assert(crate::virtual_workspace::same_path(all[i], f));
                }
            }
        } else {
            assert(np == pnp.push(f));
            assert forall|k: int| 0 <= k < found.len() implies among_paths(all, #[trigger] found[k]) by {
                if k < prev.len() {
                    assert(found[k] == prev[k]);
                    assert(among_paths(pall, prev[k]));
                    let i = choose|i: int| 0 <= i < pall.len() && crate::virtual_workspace::same_path(#[trigger] pall[i], prev[k]);
                    assert(all[i] == pall[i]);
                } else {
                    assert(all[all.len() - 1] == f);
                    assert(crate::virtual_workspace::same_path(all[all.len() - 1], f));
                }
            }
        }
    }
}

proof fn lemma_none_new(existing: Seq<Seq<char>>, found: Seq<Seq<char>>)
    requires
        forall|k: int| 0 <= k < found.len() ==> among_paths(existing, #[trigger] found[k]),
    ensures
        new_paths(existing, found).len() == 0,
    decreases found.len(),
{
    if found.len() > 0 {
        let prev = found.drop_last();
        assert forall|k: int| 0 <= k < prev.len() implies among_paths(existing, #[trigger] prev[k]) by {
            assert(prev[k] == found[k]);
        }
        lemma_none_new(existing, prev);
        assert(among_paths(existing, found[found.len() - 1]));
    }
}

/// Law: injecting the PDF paths found in the text a second time, with the
/// files attached by the first injection among those already attached and
/// the same paths found, appends nothing.
pub proof fn law_second_injection_appends_nothing(existing: Seq<Seq<char>>, found: Seq<Seq<char>>)
    ensures
        new_paths(existing + new_paths(existing, found), found).len() == 0,
{
    lemma_found_all_among(existing, found);
    lemma_none_new(existing + new_paths(existing, found), found);
}

/// Law: the paths an injection appends are pairwise different paths, and
/// none is the same path as a file attached already.
pub proof fn law_injected_paths_are_new_and_distinct(existing: Seq<Seq<char>>, found: Seq<Seq<char>>)
    ensures
        forall|i: int| 0 <= i < new_paths(existing, found).len() ==> !among_paths(existing, #[trigger] new_paths(existing, found)[i]),
        forall|i: int, j: int| 0 <= i < j < new_paths(existing, found).len() ==> !crate::virtual_workspace::same_path(
            #[trigger] new_paths(existing, found)[i],
            #[trigger] new_paths(existing, found)[j],
        ),
    decreases found.len(),
{
    if found.len() > 0 {
        let prev = found.drop_last();
        law_injected_paths_are_new_and_distinct(existing, prev);
        let np = new_paths(existing, found);
        let pnp = new_paths(existing, prev);
        let f = found.last();
        if !(among_paths(existing, f) || among_paths(prev, f)) {
            lemma_new_paths_from(existing, prev);
            assert forall|i: int, j: int| 0 <= i < j < np.len() implies !crate::virtual_workspace::same_path(
                #[trigger] np[i],
                #[trigger] np[j],
            ) by {
                if j == np.len() - 1 {
                    assert(np[j] == f);
                    assert(np[i] == pnp[i]);
                    let k = choose|k: int| 0 <= k < prev.len() && #[trigger] prev[k] == pnp[i];
                    if crate::virtual_workspace::same_path(np[i], np[j]) {
                        assert(crate::virtual_workspace::same_path(prev[k], f));
                        assert(among_paths(prev, f));
                    }
                } else {
                    assert(np[i] == pnp[i] && np[j] == pnp[j]);
                }
            }
        }
    }
}

proof fn lemma_new_paths_from(existing: Seq<Seq<char>>, found: Seq<Seq<char>>)
    ensures
        forall|i: int| #![trigger new_paths(existing, found)[i]] 0 <= i < new_paths(existing, found).len() ==> exists|k: int| 0 <= k < found.len() && #[trigger] found[k] == new_paths(existing, found)[i],
    decreases found.len(),
{
    if found.len() > 0 {
        let prev = found.drop_last();
        lemma_new_paths_from(existing, prev);
        let np = new_paths(existing, found);
        let pnp = new_paths(existing, prev);
        assert forall|i: int| #![trigger np[i]] 0 <= i < np.len() implies exists|k: int| 0 <= k < found.len() && #[trigger] found[k] == np[i] by {
            if i < pnp.len() {
                assert(np[i] == pnp[i]);
                let k = choose|k: int| 0 <= k < prev.len() && #[trigger] prev[k] == pnp[i];
                assert(found[k] == prev[k]);
            } else {
                assert(found[found.len() - 1] == np[i]);
            }
        }
    }
}

/// Whether `p` is the canonical path of an accepted candidate among `checks`.
pub open spec fn from_accepted_check(checks: Seq<CandidateCheck>, cwd: Seq<char>, roots: Seq<WritableRootCheck>, p: Seq<char>) -> bool {
    exists|k: int| #![trigger checks[k]] 0 <= k < checks.len() && candidate_accepted(checks[k], cwd, roots)
        && checks[k].canonical->Some_0@ == p
}

proof fn lemma_accepted_from(checks: Seq<CandidateCheck>, cwd: Seq<char>, roots: Seq<WritableRootCheck>)
    ensures
        forall|i: int| 0 <= i < accepted_paths(checks, cwd, roots).len() ==> from_accepted_check(
            checks,
            cwd,
            roots,
            #[trigger] accepted_paths(checks, cwd, roots)[i],
        ),
    decreases checks.len(),
{
    if checks.len() > 0 {
        let prev = checks.drop_last();
        lemma_accepted_from(prev, cwd, roots);
        let a = accepted_paths(checks, cwd, roots);
        let pa = accepted_paths(prev, cwd, roots);
        let last = checks[checks.len() - 1];
        assert(last == checks.last());
        if candidate_accepted(last, cwd, roots) {
            assert(a == pa.push(last.canonical->Some_0@));
        } else {
            assert(a == pa);
        }
        assert forall|i: int| 0 <= i < a.len() implies from_accepted_check(checks, cwd, roots, #[trigger] a[i]) by {
            if i < pa.len() {
                assert(a[i] == pa[i]);
                assert(from_accepted_check(prev, cwd, roots, pa[i]));
                let k = choose|k: int| #![trigger prev[k]] 0 <= k < prev.len() && candidate_accepted(prev[k], cwd, roots)
                    && prev[k].canonical->Some_0@ == pa[i];
                assert(checks[k] == prev[k]);
                assert(candidate_accepted(checks[k], cwd, roots) && checks[k].canonical->Some_0@ == a[i]);
            } else {
                let k = checks.len() - 1;
                assert(candidate_accepted(checks[k], cwd, roots) && checks[k].canonical->Some_0@ == a[i]);
            }
        }
    }
}

/// Law: every path an injection appends, from the accepted candidates, is
/// the canonical path of a checked candidate that the file system reported
/// as a file and that lies within the working directory or an allowed
/// writable root.
pub proof fn law_injected_paths_are_accepted_files(
    existing: Seq<Seq<char>>,
    checks: Seq<CandidateCheck>,
    cwd: Seq<char>,
    roots: Seq<WritableRootCheck>,
)
    ensures
        forall|i: int| 0 <= i < new_paths(existing, accepted_paths(checks, cwd, roots)).len() ==> from_accepted_check(
            checks,
            cwd,
            roots,
            #[trigger] new_paths(existing, accepted_paths(checks, cwd, roots))[i],
        ),
{
    let found = accepted_paths(checks, cwd, roots);
    lemma_new_paths_from(existing, found);
    lemma_accepted_from(checks, cwd, roots);
    let np = new_paths(existing, found);
    assert forall|i: int| 0 <= i < np.len() implies from_accepted_check(checks, cwd, roots, #[trigger] np[i]) by {
        let j = choose|j: int| 0 <= j < found.len() && #[trigger] found[j] == np[i];
        assert(from_accepted_check(checks, cwd, roots, found[j]));
    }
}

} // verus!
