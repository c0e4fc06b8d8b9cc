//! Running a login-shell command through the session's shell snapshot:
//! `shell -lc <script>` becomes a non-login shell that sources the snapshot
//! and then restores the environment overrides that must win over it.
use vstd::prelude::*;

use crate::lsp_install::escape_single_quotes;
use crate::sorting::{dedup, dedup_strings, sort_strings, str_order};
use crate::text::{chars_of, decimal, join, join_strings, push_char, push_decimal, str_eq, string_views};

verus! {

/// Whether `c` is an ASCII letter.
pub open spec fn ascii_alpha(c: char) -> bool {
    ('a' <= c && c <= 'z') || ('A' <= c && c <= 'Z')
}

/// Whether `c` is an ASCII letter or digit.
pub open spec fn ascii_alnum(c: char) -> bool {
    ascii_alpha(c) || ('0' <= c && c <= '9')
}

/// Whether `name` can name a shell variable: a letter or `_`, then letters,
/// digits and `_`.
pub open spec fn valid_shell_name(name: Seq<char>) -> bool {
    &&& name.len() > 0
    &&& (name[0] == '_' || ascii_alpha(name[0]))
    &&& forall|i: int| 1 <= i < name.len() ==> (#[trigger] name[i] == '_' || ascii_alnum(name[i]))
}

/// Whether `name` can name a shell variable.
pub fn is_valid_shell_variable_name(name: &str) -> (b: bool)
    ensures
        b == valid_shell_name(name@),
{
    let c = chars_of(name);
    if c.len() == 0 {
        return false;
    }
    let first = c[0];
    if !(first == '_' || ('a' <= first && first <= 'z') || ('A' <= first && first <= 'Z')) {
        return false;
    }
    let mut i: usize = 1;
    while i < c.len()
        invariant
            c@ == name@,
            1 <= i <= c@.len(),
            forall|k: int| 1 <= k < i ==> (#[trigger] name@[k] == '_' || ascii_alnum(name@[k])),
        decreases c@.len() - i,
    {
        let ch = c[i];
        if !(ch == '_' || ('a' <= ch && ch <= 'z') || ('A' <= ch && ch <= 'Z') || ('0' <= ch && ch <= '9')) {
            return false;
        }
        i = i + 1;
    }
    true
}

/// `input` with each `'` written as `'"'"'`, for use inside single quotes.
pub fn shell_single_quote(input: &str) -> (r: String)
    ensures
        r@ == escape_single_quotes(input@),
{
    proof {
        reveal_strlit("'\"'\"'");
    }
    let v = chars_of(input);
    let mut r = String::new();
    let mut k: usize = 0;
    while k < v.len()
        invariant
            v@ == input@,
            k <= v@.len(),
            r@ == escape_single_quotes(v@.take(k as int)),
        decreases v@.len() - k,
    {
        assert(v@.take(k + 1).drop_last() =~= v@.take(k as int));
        if v[k] == '\'' {
            r.append("'\"'\"'");
        } else {
            push_char(&mut r, v[k]);
        }
        k = k + 1;
    }
    assert(v@.take(v@.len() as int) =~= v@);
    r
}

/// The non-empty blocks, in order.
pub open spec fn nonempty_blocks(blocks: Seq<Seq<char>>) -> Seq<Seq<char>>
    decreases blocks.len(),
{
    if blocks.len() == 0 {
        seq![]
    } else if blocks.last().len() == 0 {
        nonempty_blocks(blocks.drop_last())
    } else {
        nonempty_blocks(blocks.drop_last()).push(blocks.last())
    }
}

/// The non-empty blocks joined with newlines.
pub open spec fn shell_blocks_text(blocks: Seq<Seq<char>>) -> Seq<char> {
    join(nonempty_blocks(blocks), "\n"@)
}

/// Joins the non-empty blocks with newlines.
pub fn join_shell_blocks(blocks: Vec<String>) -> (r: String)
    ensures
        r@ == shell_blocks_text(string_views(blocks@)),
{
    let ghost bs = string_views(blocks@);
    let mut kept: Vec<String> = Vec::new();
    let mut k: usize = 0;
    while k < blocks.len()
        invariant
            k <= blocks@.len(),
            bs == string_views(blocks@),
            string_views(kept@) == nonempty_blocks(bs.take(k as int)),
        decreases blocks@.len() - k,
    {
        assert(bs.take(k + 1).drop_last() =~= bs.take(k as int));
        if !blocks[k].as_str().is_empty() {
            let ghost prev = string_views(kept@);
            kept.push(blocks[k].clone());
            assert(string_views(kept@) =~= prev.push(bs[k as int]));
        }
        k = k + 1;
    }
    assert(bs.take(blocks@.len() as int) =~= bs);
    join_strings(&kept, "\n")
}

/// The lines saving variable `key` (whether it is set, and its value) under
/// the numbered names `{prefix}_SET_{idx}` and `{prefix}_{idx}`.
pub open spec fn capture_block(prefix: Seq<char>, idx: nat, key: Seq<char>) -> Seq<char> {
    prefix + "_SET_"@ + decimal(idx) + "=\"${"@ + key + "+x}\"\n"@ + prefix + seq!['_'] + decimal(idx) + "=\"${"@ + key
        + "-}\""@
}

/// The line putting variable `key` back as it was saved.
pub open spec fn restore_block(prefix: Seq<char>, idx: nat, key: Seq<char>) -> Seq<char> {
    "if [ -n \"${"@ + prefix + "_SET_"@ + decimal(idx) + "}\" ]; then export "@ + key + "=\"${"@ + prefix + seq!['_']
        + decimal(idx) + "}\"; else unset "@ + key + "; fi"@
}

/// The capture and restore scripts for the keys, numbered in order.
pub open spec fn override_exports_for_keys(prefix: Seq<char>, keys: Seq<Seq<char>>) -> (Seq<char>, Seq<char>) {
    (
        join(Seq::new(keys.len(), |i: int| capture_block(prefix, i as nat, keys[i])), "\n"@),
        join(Seq::new(keys.len(), |i: int| restore_block(prefix, i as nat, keys[i])), "\n"@),
    )
}

/// Builds the scripts that save the variables `keys` before the snapshot is
/// sourced and put them back after.
pub fn build_override_exports_for_keys(prefix: &str, keys: &[String]) -> (r: (String, String))
    ensures
        (r.0@, r.1@) == override_exports_for_keys(prefix@, string_views(keys@)),
{
    let ghost ks = string_views(keys@);
    let mut captures: Vec<String> = Vec::new();
    let mut restores: Vec<String> = Vec::new();
    let mut idx: usize = 0;
    while idx < keys.len()
        invariant
            idx <= keys@.len(),
            ks == string_views(keys@),
            string_views(captures@) == Seq::new(idx as nat, |i: int| capture_block(prefix@, i as nat, ks[i])),
            string_views(restores@) == Seq::new(idx as nat, |i: int| restore_block(prefix@, i as nat, ks[i])),
        decreases keys@.len() - idx,
    {
        let key = keys[idx].as_str();
        let mut c = String::from_str(prefix);
        c.append("_SET_");
        push_decimal(&mut c, idx as u64);
        c.append("=\"${");
        c.append(key);
        c.append("+x}\"\n");
        c.append(prefix);
        push_char(&mut c, '_');
        push_decimal(&mut c, idx as u64);
        c.append("=\"${");
        c.append(key);
        c.append("-}\"");
        assert(c@ =~= capture_block(prefix@, idx as nat, ks[idx as int]));
        let mut r = String::from_str("if [ -n \"${");
        r.append(prefix);
        r.append("_SET_");
        push_decimal(&mut r, idx as u64);
        r.append("}\" ]; then export ");
        r.append(key);
        r.append("=\"${");
        r.append(prefix);
        push_char(&mut r, '_');
        push_decimal(&mut r, idx as u64);
        r.append("}\"; else unset ");
        r.append(key);
        r.append("; fi");
        assert(r@ =~= restore_block(prefix@, idx as nat, ks[idx as int]));
        let ghost pc = string_views(captures@);
        let ghost pr = string_views(restores@);
        let ghost cv = c@;
        let ghost rv = r@;
        captures.push(c);
        restores.push(r);
        assert(string_views(captures@) =~= pc.push(cv));
        assert(string_views(restores@) =~= pr.push(rv));
        idx = idx + 1;
        assert(string_views(captures@) =~= Seq::new(idx as nat, |i: int| capture_block(prefix@, i as nat, ks[i])));
        assert(string_views(restores@) =~= Seq::new(idx as nat, |i: int| restore_block(prefix@, i as nat, ks[i])));
    }
    (join_strings(&captures, "\n"), join_strings(&restores, "\n"))
}

/// The keys that name shell variables, in order.
pub open spec fn valid_names(keys: Seq<Seq<char>>) -> Seq<Seq<char>>
    decreases keys.len(),
{
    if keys.len() == 0 {
        seq![]
    } else if valid_shell_name(keys.last()) {
        valid_names(keys.drop_last()).push(keys.last())
    } else {
        valid_names(keys.drop_last())
    }
}

fn keep_valid_names(keys: &[String]) -> (r: Vec<String>)
    ensures
        string_views(r@) == valid_names(string_views(keys@)),
{
    let ghost ks = string_views(keys@);
    let mut out: Vec<String> = Vec::new();
    let mut k: usize = 0;
    while k < keys.len()
        invariant
            k <= keys@.len(),
            ks == string_views(keys@),
            string_views(out@) == valid_names(ks.take(k as int)),
        decreases keys@.len() - k,
    {
        assert(ks.take(k + 1).drop_last() =~= ks.take(k as int));
        if is_valid_shell_variable_name(keys[k].as_str()) {
            let ghost prev = string_views(out@);
            out.push(keys[k].clone());
            assert(string_views(out@) =~= prev.push(ks[k as int]));
        }
        k = k + 1;
    }
    assert(ks.take(keys@.len() as int) =~= ks);
    out
}

/// The scripts that save and restore the explicitly overridden variables:
/// those of `keys` that name shell variables, sorted.
pub open spec fn override_exports(keys: Seq<Seq<char>>) -> (Seq<char>, Seq<char>) {
    override_exports_for_keys("__CODEX_SNAPSHOT_OVERRIDE"@, valid_names(keys).sort_by(str_order()))
}

/// Builds the save and restore scripts for the explicit overrides.
pub fn build_override_exports(keys: &[String]) -> (r: (String, String))
    ensures
        (r.0@, r.1@) == override_exports(string_views(keys@)),
{
    let valid = keep_valid_names(keys);
    let sorted = sort_strings(valid);
    build_override_exports_for_keys("__CODEX_SNAPSHOT_OVERRIDE", sorted.as_slice())
}

/// The scripts that save and restore the proxy variables (those of `keys`
/// that name shell variables, sorted, each once); the restore only runs when
/// the proxy was active before or after the snapshot (`active_key` set).
pub open spec fn proxy_env_exports(keys: Seq<Seq<char>>, active_key: Seq<char>) -> (Seq<char>, Seq<char>) {
    (
        override_exports_for_keys("__CODEX_SNAPSHOT_PROXY_OVERRIDE"@, dedup(valid_names(keys).sort_by(str_order()))).0
            + "\n__CODEX_SNAPSHOT_PROXY_ENV_SET=\"${"@ + active_key + "+x}\""@,
        "if [ -n \"$__CODEX_SNAPSHOT_PROXY_ENV_SET\" ] || [ -n \"${"@ + active_key + "+x}\" ]; then\n"@
            + override_exports_for_keys(
            "__CODEX_SNAPSHOT_PROXY_OVERRIDE"@,
            dedup(valid_names(keys).sort_by(str_order())),
        ).1 + "\nfi"@,
    )
}

/// Builds the save and restore scripts for the proxy variables.
pub fn build_proxy_env_exports(keys: &[String], active_key: &str) -> (r: (String, String))
    ensures
        (r.0@, r.1@) == proxy_env_exports(string_views(keys@), active_key@),
{
    let valid = keep_valid_names(keys);
    let sorted = sort_strings(valid);
    let unique = dedup_strings(sorted);
    let (captures, restores) = build_override_exports_for_keys("__CODEX_SNAPSHOT_PROXY_OVERRIDE", unique.as_slice());
    let mut c = captures;
    c.append("\n__CODEX_SNAPSHOT_PROXY_ENV_SET=\"${");
    c.append(active_key);
    c.append("+x}\"");
    let mut r = String::from_str("if [ -n \"$__CODEX_SNAPSHOT_PROXY_ENV_SET\" ] || [ -n \"${");
    r.append(active_key);
    r.append("+x}\" ]; then\n");
    r.append(restores.as_str());
    r.append("\nfi");
    (c, r)
}

/// The arguments after the script, each single-quoted after a space.
pub open spec fn quoted_trailing(args: Seq<Seq<char>>) -> Seq<char>
    decreases args.len(),
{
    if args.len() == 0 {
        seq![]
    } else {
        quoted_trailing(args.drop_last()) + " '"@ + escape_single_quotes(args.last()) + seq!['\'']
    }
}

/// The override keys: the explicit ones, and the thread-id key where the
/// environment sets it.
pub open spec fn override_keys(explicit: Seq<Seq<char>>, thread_id_key: Option<Seq<char>>) -> Seq<Seq<char>> {
    match thread_id_key {
        Some(k) => if explicit.contains(k) {
            explicit
        } else {
            explicit.push(k)
        },
        None => explicit,
    }
}

/// The script run by the session shell in place of `shell -lc script`:
/// save the overrides, source the snapshot (ignoring failure), restore the
/// overrides, then run the original shell on the original script.
pub open spec fn snapshot_script(
    command: Seq<Seq<char>>,
    snapshot_path: Seq<char>,
    explicit: Seq<Seq<char>>,
    thread_id_key: Option<Seq<char>>,
    proxy_keys: Seq<Seq<char>>,
    proxy_active_key: Seq<char>,
) -> Seq<char> {
    let over = override_exports(override_keys(explicit, thread_id_key));
    let proxy = proxy_env_exports(proxy_keys, proxy_active_key);
    let captures = shell_blocks_text(seq![over.0, proxy.0]);
    let exports = shell_blocks_text(seq![over.1, proxy.1]);
    let tail = "exec '"@ + escape_single_quotes(command[0]) + "' -c '"@ + escape_single_quotes(command[2]) + seq!['\'']
        + quoted_trailing(command.skip(3));
    let source = "if . '"@ + escape_single_quotes(snapshot_path) + "' >/dev/null 2>&1; then :; fi\n\n"@;
    if exports.len() == 0 {
        source + tail
    } else {
        captures + "\n\n"@ + source + exports + "\n\n"@ + tail
    }
}

/// The command as run through the snapshot: a `shell -lc script` command
/// (at least three words, `-lc` second) becomes `session_shell -c wrapper`;
/// any other command is left as it is.
pub open spec fn wrapped_command(
    command: Seq<Seq<char>>,
    session_shell: Seq<char>,
    snapshot_path: Seq<char>,
    explicit: Seq<Seq<char>>,
    thread_id_key: Option<Seq<char>>,
    proxy_keys: Seq<Seq<char>>,
    proxy_active_key: Seq<char>,
) -> Seq<Seq<char>> {
    if command.len() < 3 || command[1] != "-lc"@ {
        command
    } else {
        seq![
            session_shell,
            "-c"@,
            snapshot_script(command, snapshot_path, explicit, thread_id_key, proxy_keys, proxy_active_key),
        ]
    }
}

/// The override keys: the explicit ones and the thread-id key.
fn merged_override_keys(explicit: &[String], thread_id_key: Option<&str>) -> (keys: Vec<String>)
    ensures
        string_views(keys@) == override_keys(
            string_views(explicit@),
            match thread_id_key {
                Some(k) => Some(k@),
                None => None,
            },
        ),
{
    let mut keys = crate::lsp_install::clone_strings(explicit);
    let ghost ek = string_views(explicit@);
    match thread_id_key {
        Some(key) => {
            let mut present = false;
            let mut i: usize = 0;
            while i < explicit.len()
                invariant
                    i <= explicit@.len(),
                    ek == string_views(explicit@),
                    present == (exists|j: int| 0 <= j < i && ek[j] == key@),
                decreases explicit@.len() - i,
            {
                if str_eq(explicit[i].as_str(), key) {
                    assert(ek[i as int] == key@);
                    present = true;
                } else {
                    assert(ek[i as int] != key@);
                    assert(forall|j: int| 0 <= j < i + 1 && ek[j] == key@ ==> 0 <= j < i);
                }
                i = i + 1;
            }
            if !present {
                let ghost prev = string_views(keys@);
                keys.push(String::from_str(key));
                assert(string_views(keys@) =~= prev.push(key@));
                assert(!ek.contains(key@));
            } else {
                assert(ek.contains(key@));
            }
        },
        None => {},
    }
    keys
}

/// The arguments from position 3 on, each single-quoted after a space.
fn trailing_args(command: &[String]) -> (t: String)
    requires
        command@.len() >= 3,
    ensures
        t@ == quoted_trailing(string_views(command@).skip(3)),
{
    let ghost cmd = string_views(command@);
    let mut trailing = String::new();
    let mut k: usize = 3;
    assert(cmd.subrange(3, 3) =~= Seq::<Seq<char>>::empty());
    while k < command.len()
        invariant
            3 <= k <= command@.len(),
            cmd == string_views(command@),
            trailing@ == quoted_trailing(cmd.subrange(3, k as int)),
        decreases command@.len() - k,
    {
        assert(cmd.subrange(3, k + 1).drop_last() =~= cmd.subrange(3, k as int));
        trailing.append(" '");
        trailing.append(shell_single_quote(command[k].as_str()).as_str());
        push_char(&mut trailing, '\'');
        k = k + 1;
    }
    assert(cmd.subrange(3, command@.len() as int) =~= cmd.skip(3));
    trailing
}

/// Puts the wrapper script together from its parts.
fn assemble_script(captures: &str, exports: &str, snapshot: &str, shell: &str, script: &str, trailing: &str) -> (s: String)
    ensures
        s@ == if exports@.len() == 0 {
            "if . '"@ + snapshot@ + "' >/dev/null 2>&1; then :; fi\n\n"@ + ("exec '"@ + shell@ + "' -c '"@ + script@
                + seq!['\''] + trailing@)
        } else {
            captures@ + "\n\n"@ + ("if . '"@ + snapshot@ + "' >/dev/null 2>&1; then :; fi\n\n"@) + exports@ + "\n\n"@
                + ("exec '"@ + shell@ + "' -c '"@ + script@ + seq!['\''] + trailing@)
        },
{
    let mut out = String::new();
    let empty = exports.is_empty();
    if !empty {
        out.append(captures);
        out.append("\n\n");
    }
    out.append("if . '");
    out.append(snapshot);
    out.append("' >/dev/null 2>&1; then :; fi\n\n");
    if !empty {
        out.append(exports);
        out.append("\n\n");
    }
    out.append("exec '");
    out.append(shell);
    out.append("' -c '");
    out.append(script);
    push_char(&mut out, '\'');
    out.append(trailing);
    out
}

/// Runs a login-shell command through the session's shell snapshot at
/// `snapshot_path` (one that exists and was taken in the command's working
/// directory). `explicit_override_keys` are the variables whose explicit
/// overrides must win over the snapshot; `thread_id_key` is the thread-id
/// variable when the environment sets it; the proxy variables are restored
/// when the proxy is active.
pub fn maybe_wrap_shell_lc_with_snapshot(
    command: &[String],
    session_shell: &str,
    snapshot_path: &str,
    explicit_override_keys: &[String],
    thread_id_key: Option<&str>,
    proxy_keys: &[String],
    proxy_active_key: &str,
) -> (r: Vec<String>)
    ensures
        string_views(r@) == wrapped_command(
            string_views(command@),
            session_shell@,
            snapshot_path@,
            string_views(explicit_override_keys@),
            match thread_id_key {
                Some(k) => Some(k@),
                None => None,
            },
            string_views(proxy_keys@),
            proxy_active_key@,
        ),
{
    let ghost cmd = string_views(command@);
    if command.len() < 3 || !str_eq(command[1].as_str(), "-lc") {
        return crate::lsp_install::clone_strings(command);
    }
    let original_shell = shell_single_quote(command[0].as_str());
    let original_script = shell_single_quote(command[2].as_str());
    let snapshot = shell_single_quote(snapshot_path);
    let trailing = trailing_args(command);
    let keys = merged_override_keys(explicit_override_keys, thread_id_key);
    let (over_captures, over_exports) = build_override_exports(keys.as_slice());
    let (proxy_captures, proxy_exports) = build_proxy_env_exports(proxy_keys, proxy_active_key);
    let ghost oc = over_captures@;
    let ghost ox = over_exports@;
    let ghost pc = proxy_captures@;
    let ghost px = proxy_exports@;
    let captures_blocks = vec![over_captures, proxy_captures];
    let exports_blocks = vec![over_exports, proxy_exports];
    assert(string_views(captures_blocks@) =~= seq![oc, pc]);
    assert(string_views(exports_blocks@) =~= seq![ox, px]);
    let captures = join_shell_blocks(captures_blocks);
    let exports = join_shell_blocks(exports_blocks);
    let script = assemble_script(
        captures.as_str(),
        exports.as_str(),
        snapshot.as_str(),
        original_shell.as_str(),
        original_script.as_str(),
        trailing.as_str(),
    );
    let ghost tid = match thread_id_key {
        Some(k) => Some(k@),
        None => None,
    };
    assert(script@ == snapshot_script(cmd, snapshot_path@, string_views(explicit_override_keys@), tid, string_views(proxy_keys@), proxy_active_key@));
    let out = vec![String::from_str(session_shell), String::from_str("-c"), script];
    assert(string_views(out@) =~= seq![session_shell@, "-c"@, out@[2]@]);
    out
}

} // verus!
