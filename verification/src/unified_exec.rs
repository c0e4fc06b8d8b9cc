//! Decisions of the `exec_command` tool: which commands may run without
//! asking because they only touch the agent's own storage, how the agent's
//! `ata` invocations are pointed at the running binary, and how a command's
//! result is reported.
use vstd::prelude::*;

use crate::lsp_install::escape_single_quotes;
use crate::reading_view::{lowercase_ascii, lowercase_ascii_chars};
use crate::shell_snapshot::shell_single_quote;
use crate::text::{chars_of, join, join_strings, push_decimal, push_signed_decimal, signed_decimal, decimal, split_chars, split_on, starts_with, starts_with_chars, string_of, string_views, views};
use crate::document::eq_chars;

verus! {

/// The pieces of a path that name something: the non-empty ones other than
/// `.`.
pub open spec fn normal_pieces(pieces: Seq<Seq<char>>) -> Seq<Seq<char>>
    decreases pieces.len(),
{
    if pieces.len() == 0 {
        seq![]
    } else if pieces.last().len() == 0 || pieces.last() == seq!['.'] {
        normal_pieces(pieces.drop_last())
    } else {
        normal_pieces(pieces.drop_last()).push(pieces.last())
    }
}

/// The final component of a Unix path, as `Path::file_name` gives it: none
/// for a path that ends in `..` or has no named component.
pub open spec fn file_name(path: Seq<char>) -> Option<Seq<char>> {
    let normals = normal_pieces(split_on(path, '/'));
    if normals.len() == 0 || normals.last() == seq!['.', '.'] {
        None
    } else {
        Some(normals.last())
    }
}

/// The final component of a Unix path.
pub fn path_file_name(path: &str) -> (r: Option<String>)
    ensures
        match r {
            Some(n) => file_name(path@) == Some(n@),
            None => file_name(path@) is None,
        },
{
    let pieces = split_chars(chars_of(path).as_slice(), '/');
    let ghost ps = views(pieces@);
    let mut last: Option<usize> = None;
    let mut count: usize = 0;
    let mut k: usize = 0;
    while k < pieces.len()
        invariant
            k <= pieces@.len(),
            ps == views(pieces@),
            ps == split_on(path@, '/'),
            count == normal_pieces(ps.take(k as int)).len(),
            count <= k,
            count > 0 ==> last is Some && last->0 < k && normal_pieces(ps.take(k as int)).last() == ps[last->0 as int],
            count == 0 ==> last is None,
        decreases pieces@.len() - k,
    {
        assert(ps.take(k + 1).drop_last() =~= ps.take(k as int));
        assert(ps.take(k + 1).last() == ps[k as int]);
        let p = &pieces[k];
        if !(p.len() == 0 || (p.len() == 1 && p[0] == '.')) {
            assert(!(ps[k as int].len() == 0 || ps[k as int] == seq!['.'])) by {
                if ps[k as int] == seq!['.'] {
                    assert(p@.len() == 1 && p@[0] == '.');
                }
            }
            last = Some(k);
            count = count + 1;
        } else {
            assert(ps[k as int].len() == 0 || ps[k as int] =~= seq!['.']);
        }
        k = k + 1;
    }
    assert(ps.take(pieces@.len() as int) =~= ps);
    match last {
        None => None,
        Some(i) => {
            let p = &pieces[i];
            if p.len() == 2 && p[0] == '.' && p[1] == '.' {
                assert(ps[i as int] =~= seq!['.', '.']);
                None
            } else {
                assert(ps[i as int] != seq!['.', '.']) by {
                    if ps[i as int] == seq!['.', '.'] {
                        assert(p@.len() == 2 && p@[0] == '.' && p@[1] == '.');
                    }
                }
                Some(string_of(p.as_slice()))
            }
        },
    }
}

/// The program's name as compared: its file name, else the whole program.
pub open spec fn program_name(program: Seq<char>) -> Seq<char> {
    match file_name(program) {
        Some(n) => n,
        None => program,
    }
}

/// Whether `program` runs `ata` (or `ata.exe`), in any case.
pub open spec fn is_ata(program: Seq<char>) -> bool {
    lowercase_ascii(program_name(program)) == "ata"@ || lowercase_ascii(program_name(program)) == "ata.exe"@
}

/// Whether `program` runs `ata`.
pub fn is_ata_program(program: &str) -> (b: bool)
    ensures
        b == is_ata(program@),
{
    let name = match path_file_name(program) {
        Some(n) => chars_of(n.as_str()),
        None => chars_of(program),
    };
    let lower = lowercase_ascii_chars(&name);
    eq_chars(&lower, &chars_of("ata")) || eq_chars(&lower, &chars_of("ata.exe"))
}

/// The script with a shell function `ata` put in front that runs the
/// current executable.
pub open spec fn ata_wrapper_script(current_exe: Seq<char>, script: Seq<char>) -> Seq<char> {
    "ata() { '"@ + escape_single_quotes(current_exe) + "' \"$@\"; }\n\n"@ + script
}

/// Puts a shell function `ata` running `current_exe` in front of `script`.
pub fn ata_shell_wrapper_script(current_exe: &str, script: &str) -> (r: String)
    ensures
        r@ == ata_wrapper_script(current_exe@, script@),
{
    let mut r = String::from_str("ata() { '");
    r.append(shell_single_quote(current_exe).as_str());
    r.append("' \"$@\"; }\n\n");
    r.append(script);
    r
}

/// One command of a command line, with whether it is known to be safe.
#[derive(Debug)]
pub struct SubCommand {
    pub words: Vec<String>,
    pub known_safe: bool,
}

/// Whether a path component is `.` (it names the directory it is in).
pub open spec fn is_dot(c: Seq<char>) -> bool {
    c.len() == 1 && c[0] == '.'
}

/// Whether a path component is `..` (it names the parent directory).
pub open spec fn is_dot_dot(c: Seq<char>) -> bool {
    c.len() == 2 && c[0] == '.' && c[1] == '.'
}

/// The components of a path once `.`, empty components and `..` (which
/// steps back one component, and stays at the root at the root) are
/// resolved, read from the left.
pub open spec fn normalize_components(parts: Seq<Seq<char>>) -> Seq<Seq<char>>
    decreases parts.len(),
{
    if parts.len() == 0 {
        seq![]
    } else {
        let prev = normalize_components(parts.drop_last());
        let c = parts.last();
        if c.len() == 0 || is_dot(c) {
            prev
        } else if is_dot_dot(c) {
            if prev.len() > 0 {
                prev.drop_last()
            } else {
                prev
            }
        } else {
            prev.push(c)
        }
    }
}

/// The resolved components of a path.
pub open spec fn path_components(p: Seq<char>) -> Seq<Seq<char>> {
    normalize_components(split_on(p, '/'))
}

/// Whether the absolute path `p` lies inside the directory `home` (or is
/// it): once both are resolved, `home`'s components begin `p`'s.
pub open spec fn inside_home(p: Seq<char>, home: Seq<char>) -> bool {
    &&& p.len() > 0 && p[0] == '/'
    &&& path_components(home).len() <= path_components(p).len()
    &&& forall|i: int| 0 <= i < path_components(home).len() ==> #[trigger] path_components(p)[i] == path_components(home)[i]
}

fn resolved_components(path: &[char]) -> (r: Vec<Vec<char>>)
    ensures
        views(r@) == path_components(path@),
{
    let parts = split_chars(path, '/');
    let ghost ps = views(parts@);
    let mut out: Vec<Vec<char>> = Vec::new();
    let mut k: usize = 0;
    assert(ps.take(0) =~= Seq::<Seq<char>>::empty());
    assert(views(out@) =~= Seq::<Seq<char>>::empty());
    while k < parts.len()
        invariant
            k <= parts@.len(),
            ps == views(parts@),
            ps == split_on(path@, '/'),
            views(out@) == normalize_components(ps.take(k as int)),
        decreases parts@.len() - k,
    {
        assert(ps.take(k + 1).drop_last() =~= ps.take(k as int));
        assert(ps.take(k + 1).last() == parts@[k as int]@);
        let c = &parts[k];
        let ghost before = views(out@);
        if c.len() == 0 || (c.len() == 1 && c[0] == '.') {
        } else if c.len() == 2 && c[0] == '.' && c[1] == '.' {
            if out.len() > 0 {
                out.pop();
                assert(views(out@) =~= before.drop_last());
            }
        } else {
            let copy = crate::text::copy_slice(c.as_slice());
            out.push(copy);
            assert(views(out@) =~= before.push(c@));
        }
        k = k + 1;
    }
    assert(ps.take(parts@.len() as int) =~= ps);
    out
}

/// Whether the path `p` lies inside the directory `home`, resolved.
fn inside_home_exec(p: &[char], home: &[char]) -> (b: bool)
    ensures
        b == inside_home(p@, home@),
{
    if !(p.len() > 0 && p[0] == '/') {
        return false;
    }
    let pc = resolved_components(p);
    let hc = resolved_components(home);
    if hc.len() > pc.len() {
        return false;
    }
    let mut i: usize = 0;
    while i < hc.len()
        invariant
            i <= hc@.len() <= pc@.len(),
            views(pc@) == path_components(p@),
            views(hc@) == path_components(home@),
            forall|j: int| 0 <= j < i ==> #[trigger] views(pc@)[j] == views(hc@)[j],
        decreases hc@.len() - i,
    {
        assert(views(pc@)[i as int] == pc@[i as int]@ && views(hc@)[i as int] == hc@[i as int]@);
        if !eq_chars(pc[i].as_slice(), hc[i].as_slice()) {
            assert(path_components(p@)[i as int] != path_components(home@)[i as int]);
            return false;
        }
        i = i + 1;
    }
    true
}

/// The arguments of a command that are not options.
pub open spec fn non_option_args(args: Seq<Seq<char>>) -> Seq<Seq<char>>
    decreases args.len(),
{
    if args.len() == 0 {
        seq![]
    } else if starts_with(args.last(), seq!['-']) {
        non_option_args(args.drop_last())
    } else {
        non_option_args(args.drop_last()).push(args.last())
    }
}

/// Whether one command only touches the agent's home `home`: `rm` must
/// name at least one path and only paths inside `home` (resolved, so that
/// `..` cannot climb out); another command must be known safe, or name
/// absolute paths and only ones inside `home`. An
/// empty command is fine.
pub open spec fn command_stays_home(words: Seq<Seq<char>>, known_safe: bool, home: Seq<char>) -> bool {
    if words.len() == 0 {
        true
    } else if program_name(words[0]) == "rm"@ {
        non_option_args(words.skip(1)).len() > 0 && forall|i: int|
            0 <= i < non_option_args(words.skip(1)).len() ==> inside_home(#[trigger] non_option_args(words.skip(1))[i], home)
    } else {
        known_safe || ((exists|i: int| 1 <= i < words.len() && starts_with(#[trigger] words[i], seq!['/'])) && forall|i: int|
            1 <= i < words.len() && starts_with(#[trigger] words[i], seq!['/']) ==> inside_home(words[i], home))
    }
}

fn command_stays_home_exec(words: &[String], known_safe: bool, home: &Vec<char>) -> (b: bool)
    ensures
        b == command_stays_home(string_views(words@), known_safe, home@),
{
    let ghost ws = string_views(words@);
    if words.len() == 0 {
        return true;
    }
    let is_rm = match path_file_name(words[0].as_str()) {
        Some(n) => eq_chars(&chars_of(n.as_str()), &chars_of("rm")),
        None => eq_chars(&chars_of(words[0].as_str()), &chars_of("rm")),
    };
    if is_rm {
        let ghost args = ws.skip(1);
        let mut count: usize = 0;
        let mut all_home = true;
        let mut k: usize = 1;
        assert(ws.subrange(1, 1) =~= Seq::<Seq<char>>::empty());
        while k < words.len()
            invariant
                1 <= k <= words@.len(),
                ws == string_views(words@),
                count == non_option_args(ws.subrange(1, k as int)).len(),
                count < k,
                all_home == (forall|i: int|
                    0 <= i < non_option_args(ws.subrange(1, k as int)).len() ==> inside_home(
                        #[trigger] non_option_args(ws.subrange(1, k as int))[i],
                        home@,
                    )),
            decreases words@.len() - k,
        {
            let w = chars_of(words[k].as_str());
            let ghost before = non_option_args(ws.subrange(1, k as int));
            assert(ws.subrange(1, k + 1).drop_last() =~= ws.subrange(1, k as int));
            assert(ws.subrange(1, k + 1).last() == ws[k as int]);
            if !(w.len() > 0 && w[0] == '-') {
                proof {
                    assert(!starts_with(ws[k as int], seq!['-'])) by {
                        if starts_with(ws[k as int], seq!['-']) {
                            assert(ws[k as int].take(1)[0] == '-');
                        }
                    }
                }
                count = count + 1;
                let at_home = inside_home_exec(w.as_slice(), home.as_slice());
                proof {
                    let after = non_option_args(ws.subrange(1, k + 1));
                    assert(after == before.push(ws[k as int]));
                    if all_home && at_home {
                        assert forall|i: int| 0 <= i < after.len() implies inside_home(#[trigger] after[i], home@) by {
                            if i < before.len() {
                                assert(after[i] == before[i]);
                            }
                        }
                    }
                    if !at_home {
                        assert(!inside_home(after[before.len() as int], home@));
                    }
                    if !all_home {
                        let j = choose|j: int| 0 <= j < before.len() && !inside_home(#[trigger] before[j], home@);
                        assert(after[j] == before[j]);
                    }
                }
                all_home = all_home && at_home;
            } else {
                assert(starts_with(ws[k as int], seq!['-'])) by {
                    assert(ws[k as int].take(1) =~= seq!['-']);
                }
                assert(non_option_args(ws.subrange(1, k + 1)) == before);
            }
            k = k + 1;
        }
        assert(ws.subrange(1, words@.len() as int) =~= ws.skip(1));
        count > 0 && all_home
    } else {
        if known_safe {
            return true;
        }
        let mut any_abs = false;
        let mut all_home = true;
        let mut k: usize = 1;
        while k < words.len()
            invariant
                1 <= k <= words@.len(),
                ws == string_views(words@),
                any_abs == (exists|i: int| 1 <= i < k && starts_with(#[trigger] ws[i], seq!['/'])),
                all_home == (forall|i: int| 1 <= i < k && starts_with(#[trigger] ws[i], seq!['/']) ==> inside_home(ws[i], home@)),
            decreases words@.len() - k,
        {
            let w = chars_of(words[k].as_str());
            let abs = w.len() > 0 && w[0] == '/';
            proof {
                if abs {
                    assert(starts_with(ws[k as int], seq!['/'])) by {
                        assert(ws[k as int].take(1) =~= seq!['/']);
                    }
                } else {
                    assert(!starts_with(ws[k as int], seq!['/'])) by {
                        if starts_with(ws[k as int], seq!['/']) {
                            assert(ws[k as int].take(1)[0] == '/');
                        }
                    }
                }
            }
            if abs {
                any_abs = true;
                if !inside_home_exec(w.as_slice(), home.as_slice()) {
                    all_home = false;
                }
            }
            k = k + 1;
        }
        any_abs && all_home
    }
}

/// Whether every command of the command line only touches paths under the
/// agent's home `home` (so that it needs no approval).
pub open spec fn all_commands_stay_home(commands: Seq<SubCommand>, home: Seq<char>) -> bool {
    forall|i: int| 0 <= i < commands.len() ==> command_stays_home(string_views((#[trigger] commands[i]).words@), commands[i].known_safe, home)
}

/// `[exe] + args`, as values.
pub open spec fn with_program(exe: Seq<char>, args: Seq<Seq<char>>) -> Seq<Seq<char>> {
    seq![exe] + args
}

/// Whether some name runs `ata`.
pub open spec fn names_run_ata(names: Seq<Seq<char>>) -> bool {
    exists|i: int| 0 <= i < names.len() && is_ata(#[trigger] names[i])
}

/// What running the agent's `ata` commands comes to: a direct `ata` call
/// runs the current executable; so does a shell script that is one plain
/// `ata` call; a script that calls `ata` among other commands gets a shell
/// function `ata` running the current executable; anything else, or when
/// the current executable is unknown, is left as it is. The flag says
/// whether the command was rewritten.
pub open spec fn ata_resolution(
    command: Seq<Seq<char>>,
    exe: Option<Seq<char>>,
    plain_commands: Option<Seq<Seq<Seq<char>>>>,
    command_names: Option<Seq<Seq<char>>>,
    script: Option<Seq<char>>,
) -> (Seq<Seq<char>>, bool) {
    match exe {
        None => (command, false),
        Some(x) => if command.len() > 0 && is_ata(command[0]) {
            (with_program(x, command.drop_first()), true)
        } else if plain_commands matches Some(cs) && cs.len() == 1 && cs[0].len() > 0 && is_ata(cs[0][0]) {
            (with_program(x, plain_commands->Some_0[0].drop_first()), true)
        } else if command_names matches Some(ns) && names_run_ata(ns) && script is Some {
            (command.update(2, ata_wrapper_script(x, script->Some_0)), true)
        } else {
            (command, false)
        },
    }
}

/// Whether some name runs `ata`.
fn any_name_runs_ata(names: &Vec<String>) -> (r: bool)
    ensures
        r == names_run_ata(string_views(names@)),
{
    let ghost nv = string_views(names@);
    let mut k: usize = 0;
    while k < names.len()
        invariant
            k <= names@.len(),
            nv == string_views(names@),
            forall|i: int| 0 <= i < k ==> !is_ata(#[trigger] nv[i]),
        decreases names@.len() - k,
    {
        if is_ata_program(names[k].as_str()) {
            assert(is_ata(nv[k as int]));
            return true;
        }
        k = k + 1;
    }
    false
}

/// The current executable followed by the arguments.
fn program_with_args(exe: &str, words: &[String]) -> (r: Vec<String>)
    requires
        words@.len() > 0,
    ensures
        string_views(r@) == with_program(exe@, string_views(words@).drop_first()),
{
    let mut out: Vec<String> = Vec::new();
    out.push(String::from_str(exe));
    let mut k: usize = 1;
    assert(string_views(out@) =~= seq![exe@] + string_views(words@).subrange(1, 1));
    while k < words.len()
        invariant
            1 <= k <= words@.len(),
            string_views(out@) == seq![exe@] + string_views(words@).subrange(1, k as int),
        decreases words@.len() - k,
    {
        let ghost before = string_views(out@);
        let w = words[k].clone();
        assert(w@ == string_views(words@)[k as int]);
        out.push(w);
        assert(string_views(out@) =~= before.push(string_views(words@)[k as int]));
        k = k + 1;
        assert(string_views(out@) =~= seq![exe@] + string_views(words@).subrange(1, k as int));
    }
    assert(string_views(words@).subrange(1, words@.len() as int) =~= string_views(words@).drop_first());
    out
}

/// Rewrites the agent's `ata` commands to run the current executable
/// (`current_exe`, `None` when it is unknown). `plain_commands` are the
/// commands of a `-lc` shell script when it holds plain commands only,
/// `command_names` the names of the commands it runs, and `script` the
/// script of a shell invocation.
pub fn resolve_agent_ata_command(
    command: &[String],
    current_exe: Option<&str>,
    plain_commands: Option<&Vec<Vec<String>>>,
    command_names: Option<&Vec<String>>,
    script: Option<&str>,
) -> (r: (Vec<String>, bool))
    requires
        script is Some ==> command@.len() >= 3,
    ensures
        (string_views(r.0@), r.1) == ata_resolution(
            string_views(command@),
            match current_exe {
                Some(x) => Some(x@),
                None => None,
            },
            match plain_commands {
                Some(cs) => Some(cs@.map_values(|c: Vec<String>| string_views(c@))),
                None => None,
            },
            match command_names {
                Some(ns) => Some(string_views(ns@)),
                None => None,
            },
            match script {
                Some(s) => Some(s@),
                None => None,
            },
        ),
{
    let ghost cv = string_views(command@);
    let exe = match current_exe {
        Some(x) => x,
        None => return (clone_all(command), false),
    };
    if command.len() > 0 && is_ata_program(command[0].as_str()) {
        return (program_with_args(exe, command), true);
    }
    match plain_commands {
        Some(cs) => {
            if cs.len() == 1 && cs[0].len() > 0 && is_ata_program(cs[0][0].as_str()) {
                let single = cs[0].as_slice();
                assert(cs@.map_values(|c: Vec<String>| string_views(c@))[0] == string_views(cs@[0]@));
                return (program_with_args(exe, single), true);
            }
            assert(!(cs@.len() == 1 && cs@[0]@.len() > 0 && is_ata(cs@[0]@[0]@)));
        },
        None => {},
    }
    match (command_names, script) {
        (Some(ns), Some(sc)) => {
            if any_name_runs_ata(ns) {
                let mut out = clone_all(command);
                let wrapped = ata_shell_wrapper_script(exe, sc);
                let ghost wv = wrapped@;
                out.set(2, wrapped);
                assert(string_views(out@) =~= cv.update(2, wv));
                return (out, true);
            }
        },
        _ => {},
    }
    (clone_all(command), false)
}

/// A copy of the words.
fn clone_all(words: &[String]) -> (r: Vec<String>)
    ensures
        string_views(r@) == string_views(words@),
{
    let mut out: Vec<String> = Vec::new();
    let mut k: usize = 0;
    while k < words.len()
        invariant
            k <= words@.len(),
            string_views(out@) == string_views(words@).take(k as int),
        decreases words@.len() - k,
    {
        let ghost before = string_views(out@);
        let w = words[k].clone();
        assert(w@ == string_views(words@)[k as int]);
        out.push(w);
        assert(string_views(out@) =~= before.push(string_views(words@)[k as int]));
        k = k + 1;
        assert(string_views(out@) =~= string_views(words@).take(k as int));
    }
    assert(string_views(words@).take(words@.len() as int) =~= string_views(words@));
    out
}

/// An environment variable, as values.
pub open spec fn env_view(e: (String, String)) -> (Seq<char>, Seq<char>) {
    (e.0@, e.1@)
}

/// The environment of a command: unchanged, except that a command running
/// with escalated permissions while the network proxy is active (its
/// `active_key` set) loses the proxy variables (`proxy_keys`).
pub open spec fn sandbox_env(
    env: Seq<(Seq<char>, Seq<char>)>,
    escalated: bool,
    proxy_keys: Seq<Seq<char>>,
    active_key: Seq<char>,
) -> Seq<(Seq<char>, Seq<char>)> {
    if escalated && (exists|i: int| 0 <= i < env.len() && (#[trigger] env[i]).0 == active_key) {
        without_keys(env, proxy_keys)
    } else {
        env
    }
}

/// The variables whose names are not among `keys`, in order.
pub open spec fn without_keys(env: Seq<(Seq<char>, Seq<char>)>, keys: Seq<Seq<char>>) -> Seq<(Seq<char>, Seq<char>)>
    decreases env.len(),
{
    if env.len() == 0 {
        env
    } else if keys.contains(env.last().0) {
        without_keys(env.drop_last(), keys)
    } else {
        without_keys(env.drop_last(), keys).push(env.last())
    }
}

/// The environment of a command run with the given permissions.
pub fn exec_env_for_sandbox_permissions(
    env: &Vec<(String, String)>,
    escalated: bool,
    proxy_keys: &Vec<String>,
    active_key: &str,
) -> (r: Vec<(String, String)>)
    ensures
        r@.map_values(|e: (String, String)| env_view(e)) == sandbox_env(
            env@.map_values(|e: (String, String)| env_view(e)),
            escalated,
            string_views(proxy_keys@),
            active_key@,
        ),
{
    let ghost ev = env@.map_values(|e: (String, String)| env_view(e));
    let ghost pk = string_views(proxy_keys@);
    let mut active = false;
    let mut k: usize = 0;
    while k < env.len()
        invariant
            k <= env@.len(),
            ev == env@.map_values(|e: (String, String)| env_view(e)),
            active == exists|i: int| 0 <= i < k && (#[trigger] ev[i]).0 == active_key@,
        decreases env@.len() - k,
    {
        if str_eq_words(env[k].0.as_str(), active_key) {
            assert(ev[k as int].0 == active_key@);
            active = true;
        }
        k = k + 1;
    }
    let mut out: Vec<(String, String)> = Vec::new();
    if !(escalated && active) {
        let mut j: usize = 0;
        while j < env.len()
            invariant
                j <= env@.len(),
                ev == env@.map_values(|e: (String, String)| env_view(e)),
                out@.map_values(|e: (String, String)| env_view(e)) == ev.take(j as int),
            decreases env@.len() - j,
        {
            let ghost before = out@.map_values(|e: (String, String)| env_view(e));
            let item = (env[j].0.clone(), env[j].1.clone());
            assert(env_view(item) == ev[j as int]);
            out.push(item);
            assert(out@.map_values(|e: (String, String)| env_view(e)) =~= before.push(ev[j as int]));
            j = j + 1;
            assert(out@.map_values(|e: (String, String)| env_view(e)) =~= ev.take(j as int));
        }
        assert(ev.take(env@.len() as int) =~= ev);
        return out;
    }
    let mut j: usize = 0;
    assert(ev.take(0) =~= Seq::<(Seq<char>, Seq<char>)>::empty());
    assert(out@.map_values(|e: (String, String)| env_view(e)) =~= Seq::<(Seq<char>, Seq<char>)>::empty());
    while j < env.len()
        invariant
            j <= env@.len(),
            ev == env@.map_values(|e: (String, String)| env_view(e)),
            pk == string_views(proxy_keys@),
            out@.map_values(|e: (String, String)| env_view(e)) == without_keys(ev.take(j as int), pk),
        decreases env@.len() - j,
    {
        assert(ev.take(j + 1).drop_last() =~= ev.take(j as int));
        let ghost before = out@.map_values(|e: (String, String)| env_view(e));
        if !contains_word(proxy_keys, env[j].0.as_str()) {
            let item = (env[j].0.clone(), env[j].1.clone());
            assert(env_view(item) == ev[j as int]);
            out.push(item);
            assert(out@.map_values(|e: (String, String)| env_view(e)) =~= before.push(ev[j as int]));
        }
        assert(ev.take(j + 1).last() == ev[j as int]);
        j = j + 1;
    }
    assert(ev.take(env@.len() as int) =~= ev);
    out
}

/// Whether two words are equal.
fn str_eq_words(a: &str, b: &str) -> (r: bool)
    ensures
        r == (a@ == b@),
{
    crate::text::str_eq(a, b)
}

/// Whether `word` is among `words`.
fn contains_word(words: &Vec<String>, word: &str) -> (r: bool)
    ensures
        r == string_views(words@).contains(word@),
{
    let ghost wv = string_views(words@);
    let mut k: usize = 0;
    while k < words.len()
        invariant
            k <= words@.len(),
            wv == string_views(words@),
            forall|i: int| 0 <= i < k ==> wv[i] != word@,
        decreases words@.len() - k,
    {
        if crate::text::str_eq(words[k].as_str(), word) {
            assert(wv[k as int] == word@);
            return true;
        }
        k = k + 1;
    }
    false
}

/// The handler of the unified exec tools.
#[derive(Debug, Default)]
pub struct UnifiedExecHandler;

impl UnifiedExecHandler {
    /// Whether a command call needs the user's approval: unless its
    /// arguments were read (`known_safe` is `None` when they were not) and
    /// the command line is known safe or only touches the agent's home.
    pub fn is_mutating(&self, known_safe: Option<bool>, home: &str, commands: &[SubCommand]) -> (r: bool)
        ensures
            r == match known_safe {
                None => true,
                Some(true) => false,
                Some(false) => !all_commands_stay_home(commands@, home@),
            },
    {
        match known_safe {
            None => true,
            Some(true) => false,
            Some(false) => !all_commands_target_only_codex_home(home, commands),
        }
    }
}

/// Whether every command of the command line (split into its commands, each
/// marked known safe or not) only touches paths under the agent's home.
pub fn all_commands_target_only_codex_home(home: &str, commands: &[SubCommand]) -> (b: bool)
    ensures
        b == all_commands_stay_home(commands@, home@),
{
    let h = chars_of(home);
    let mut k: usize = 0;
    while k < commands.len()
        invariant
            k <= commands@.len(),
            h@ == home@,
            forall|i: int| 0 <= i < k ==> command_stays_home(string_views((#[trigger] commands@[i]).words@), commands@[i].known_safe, home@),
        decreases commands@.len() - k,
    {
        if !command_stays_home_exec(commands[k].words.as_slice(), commands[k].known_safe, &h) {
            return false;
        }
        k = k + 1;
    }
    true
}

/// The error when escalated permissions are asked for under another
/// approval policy (`policy` as it is debug-printed).
pub fn escalation_rejected_message(policy: &str) -> (r: String)
    ensures
        r@ == "approval policy is "@ + policy@
            + "; reject command \u{2014} you cannot ask for escalated permissions if the approval policy is "@ + policy@,
{
    let mut r = String::from_str("approval policy is ");
    r.append(policy);
    r.append("; reject command \u{2014} you cannot ask for escalated permissions if the approval policy is ");
    r.append(policy);
    r
}

/// What a command's run produced, as reported to the model.
#[derive(Debug)]
pub struct ExecReport {
    pub chunk_id: String,
    /// The wall time already written out, in seconds.
    pub wall_time_text: String,
    pub exit_code: Option<i32>,
    pub process_id: Option<String>,
    pub original_token_count: Option<u64>,
    pub output: String,
}

/// The report's sections: the chunk id (when there is one), the wall time,
/// the exit code or the running session, the original token count (when
/// known), then the output.
pub open spec fn report_sections(r: ExecReport) -> Seq<Seq<char>> {
    (if r.chunk_id@.len() > 0 { seq!["Chunk ID: "@ + r.chunk_id@] } else { seq![] })
        + seq!["Wall time: "@ + r.wall_time_text@ + " seconds"@]
        + (match r.exit_code { Some(c) => seq!["Process exited with code "@ + signed_decimal(c as int)], None => seq![] })
        + (match r.process_id { Some(p) => seq!["Process running with session ID "@ + p@], None => seq![] })
        + (match r.original_token_count { Some(n) => seq!["Original token count: "@ + decimal(n as nat)], None => seq![] })
        + seq!["Output:"@, r.output@]
}

fn push_section(sections: &mut Vec<String>, s: String)
    ensures
        string_views(final(sections)@) == string_views(old(sections)@).push(s@),
{
    let ghost prev = string_views(sections@);
    let ghost sv = s@;
    sections.push(s);
    assert(string_views(sections@) =~= prev.push(sv));
}

/// The report of a command's run, its sections one per line.
pub fn format_response(report: &ExecReport) -> (r: String)
    ensures
        r@ == join(report_sections(*report), "\n"@),
{
    let mut sections: Vec<String> = Vec::new();
    if !report.chunk_id.as_str().is_empty() {
        let mut s = String::from_str("Chunk ID: ");
        s.append(report.chunk_id.as_str());
        push_section(&mut sections, s);
    }
    let ghost a = string_views(sections@);
    let mut w = String::from_str("Wall time: ");
    w.append(report.wall_time_text.as_str());
    w.append(" seconds");
    push_section(&mut sections, w);
    let ghost b = string_views(sections@);
    match report.exit_code {
        Some(c) => {
            let mut s = String::from_str("Process exited with code ");
            push_signed_decimal(&mut s, c as i64);
            push_section(&mut sections, s);
        },
        None => {},
    }
    let ghost c = string_views(sections@);
    match &report.process_id {
        Some(p) => {
            let mut s = String::from_str("Process running with session ID ");
            s.append(p.as_str());
            push_section(&mut sections, s);
        },
        None => {},
    }
    let ghost d = string_views(sections@);
    match report.original_token_count {
        Some(n) => {
            let mut s = String::from_str("Original token count: ");
            push_decimal(&mut s, n);
            push_section(&mut sections, s);
        },
        None => {},
    }
    let ghost e = string_views(sections@);
    push_section(&mut sections, String::from_str("Output:"));
    push_section(&mut sections, report.output.clone());
    assert(string_views(sections@) =~= report_sections(*report));
    join_strings(&sections, "\n")
}

/// A sandboxed command's program and arguments: the first word and the
/// rest; a command without words is refused.
pub fn split_sandbox_command(command: &[String]) -> (r: Result<(String, Vec<String>), String>)
    ensures
        match r {
            Ok((program, args)) => command@.len() > 0 && program@ == command@[0]@ && string_views(args@)
                == string_views(command@.skip(1)),
            Err(e) => command@.len() == 0 && e@ == "command args are empty"@,
        },
{
    if command.len() == 0 {
        return Err(String::from_str("command args are empty"));
    }
    let mut args: Vec<String> = Vec::new();
    let mut k: usize = 1;
    assert(string_views(command@.subrange(1, 1)) =~= string_views(args@));
    while k < command.len()
        invariant
            1 <= k <= command@.len(),
            string_views(args@) == string_views(command@.subrange(1, k as int)),
        decreases command@.len() - k,
    {
        let a = command[k].clone();
        assert(a@ == command@[k as int]@);
        let ghost prev = args@;
        args.push(a);
        assert(args@ == prev.push(a));
        assert(string_views(args@) =~= string_views(prev).push(a@));
        assert(command@.subrange(1, k + 1) =~= command@.subrange(1, k as int).push(command@[k as int]));
        assert(string_views(command@.subrange(1, k + 1)) =~= string_views(command@.subrange(1, k as int)).push(
            command@[k as int]@,
        ));
        k = k + 1;
    }
    assert(command@.subrange(1, command@.len() as int) =~= command@.skip(1));
    let program = command[0].clone();
    Ok((program, args))
}

/// A file-system entry of a command's additional permissions, as far as the
/// workspace knowledge-base root is concerned: the plain path it names
/// (`None` for a glob pattern or a special path) and whether it grants
/// writing.
#[derive(Debug, Clone)]
pub struct PermissionEntry {
    pub path: Option<String>,
    pub write: bool,
}

/// Whether an entry already grants writing to `root`.
pub open spec fn grants_write_to(e: PermissionEntry, root: Seq<char>) -> bool {
    e.write && (match e.path {
        Some(p) => p@ == root,
        None => false,
    })
}

/// Whether the workspace knowledge-base root `root` has to be added as a
/// write entry: it is only added when no entry already grants writing to
/// that very path.
pub fn kb_root_needs_entry(entries: &[PermissionEntry], root: &str) -> (r: bool)
    ensures
        r == !(exists|i: int| 0 <= i < entries@.len() && #[trigger] grants_write_to(entries@[i], root@)),
{
    let want = chars_of(root);
    let mut k: usize = 0;
    while k < entries.len()
        invariant
            k <= entries@.len(),
            want@ == root@,
            forall|i: int| 0 <= i < k ==> !#[trigger] grants_write_to(entries@[i], root@),
        decreases entries@.len() - k,
    {
        if entries[k].write {
            if let Some(p) = &entries[k].path {
                if eq_chars(&chars_of(p.as_str()), &want) {
                    assert(grants_write_to(entries@[k as int], root@));
                    return false;
                }
            }
        }
        k = k + 1;
    }
    true
}

/// The functions of the unified-exec tool.
#[derive(Debug, Clone, Copy, PartialEq, Eq, Structural)]
pub enum UnifiedExecCall {
    ExecCommand,
    WriteStdin,
}

/// Which unified-exec function a call names; any other name is refused.
pub fn unified_exec_call(name: &str) -> (r: Result<UnifiedExecCall, String>)
    ensures
        name@ == "exec_command"@ ==> r == Ok::<UnifiedExecCall, String>(UnifiedExecCall::ExecCommand),
        name@ == "write_stdin"@ ==> r == Ok::<UnifiedExecCall, String>(UnifiedExecCall::WriteStdin),
        name@ != "exec_command"@ && name@ != "write_stdin"@ ==> (r matches Err(e) && e@
            == "unsupported unified exec function "@ + name@),
{
    proof {
        reveal_strlit("exec_command");
        reveal_strlit("write_stdin");
        assert("exec_command"@.len() != "write_stdin"@.len());
    }
    if crate::text::str_eq(name, "exec_command") {
        Ok(UnifiedExecCall::ExecCommand)
    } else if crate::text::str_eq(name, "write_stdin") {
        Ok(UnifiedExecCall::WriteStdin)
    } else {
        let mut e = String::from_str("unsupported unified exec function ");
        e.append(name);
        Err(e)
    }
}

/// Checks a command's request for escalated permissions: it is refused
/// unless the approval policy is on-request (`policy` is the policy as it
/// is debug-printed).
pub fn check_escalation(requires_escalated: bool, approval_on_request: bool, policy: &str) -> (r: Result<(), String>)
    ensures
        r is Err <==> (requires_escalated && !approval_on_request),
        r matches Err(e) ==> e@ == "approval policy is "@ + policy@
            + "; reject command \u{2014} you cannot ask for escalated permissions if the approval policy is "@
            + policy@,
{
    if requires_escalated && !approval_on_request {
        return Err(escalation_rejected_message(policy));
    }
    Ok(())
}

/// The working directory a command asks for, an empty one counting as none.
pub fn requested_workdir(workdir: Option<&str>) -> (r: Option<String>)
    ensures
        match workdir {
            Some(w) => if w@.len() > 0 {
                (r matches Some(d) && d@ == w@)
            } else {
                r is None
            },
            None => r is None,
        },
{
    match workdir {
        Some(w) => if w.unicode_len() > 0 {
            Some(String::from_str(w))
        } else {
            None
        },
        None => None,
    }
}

} // verus!
