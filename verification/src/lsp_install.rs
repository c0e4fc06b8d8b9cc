//! Installing language servers on demand: where the managed toolchains live
//! under the Codex home, how an install command is rewritten to install
//! there, and which prefix of it may be approved once for all.
use vstd::prelude::*;

use crate::text::{chars_of, push_char, str_eq, string_views, trim, trim_chars, string_of};

verus! {

/// `dir` joined with the relative component `name`, as `Path::join` does on
/// Unix: a separator is added unless `dir` is empty or already ends in one.
pub open spec fn join_path(dir: Seq<char>, name: Seq<char>) -> Seq<char> {
    if dir.len() == 0 {
        name
    } else if dir.last() == '/' {
        dir + name
    } else {
        dir + seq!['/'] + name
    }
}

/// `dir` joined with `name` (a relative component).
pub fn join_path_str(dir: &str, name: &str) -> (r: String)
    ensures
        r@ == join_path(dir@, name@),
{
    let d = chars_of(dir);
    let mut r = String::from_str(dir);
    if d.len() > 0 && d[d.len() - 1] != '/' {
        push_char(&mut r, '/');
    }
    r.append(name);
    r
}

/// The kind of system the paths and shell commands are written for.
#[derive(Clone, Copy, Debug, PartialEq, Eq, Structural)]
pub enum Platform {
    Unix,
    Windows,
}

/// Whether `dir` is a bare drive such as `C:`.
pub open spec fn is_bare_drive(dir: Seq<char>) -> bool {
    dir.len() == 2 && dir[1] == ':' && (('a' <= dir[0] && dir[0] <= 'z') || ('A' <= dir[0] && dir[0]
        <= 'Z'))
}

/// `dir` joined with the relative component `name` as `Path::join` does on
/// the platform. On Unix: see `join_path`. On Windows: `\` is added unless
/// `dir` is empty, ends in `\` or `/`, or is a bare drive. (A path with a
/// verbatim `\\?\` prefix, which `Path::join` also normalises, is joined
/// the same way.)
pub open spec fn join_path_on(platform: Platform, dir: Seq<char>, name: Seq<char>) -> Seq<char> {
    match platform {
        Platform::Unix => join_path(dir, name),
        Platform::Windows => if dir.len() == 0 || dir.last() == '\\' || dir.last() == '/' || is_bare_drive(
            dir,
        ) {
            dir + name
        } else {
            dir + seq!['\\'] + name
        },
    }
}

/// `dir` joined with `name` (a relative component) on the platform.
pub fn join_path_on_str(platform: Platform, dir: &str, name: &str) -> (r: String)
    ensures
        r@ == join_path_on(platform, dir@, name@),
{
    match platform {
        Platform::Unix => join_path_str(dir, name),
        Platform::Windows => {
            let d = chars_of(dir);
            let mut r = String::from_str(dir);
            let n = d.len();
            let bare_drive = n == 2 && d[1] == ':' && (('a' <= d[0] && d[0] <= 'z') || ('A' <= d[0]
                && d[0] <= 'Z'));
            if n > 0 && d[n - 1] != '\\' && d[n - 1] != '/' && !bare_drive {
                push_char(&mut r, '\\');
            }
            r.append(name);
            r
        },
    }
}

/// The directories of the managed language-server toolchains.
#[derive(Debug)]
pub struct LspToolchainPaths {
    pub bin_dir: String,
    pub npm_prefix: String,
    pub npm_cache: String,
    pub pip_prefix: String,
    pub gem_home: String,
}

/// The managed toolchain directories under `codex_home`: `lsp/bin`,
/// `lsp/npm`, `lsp/cache/npm`, `lsp/pip` and `lsp/gem`.
pub open spec fn toolchain_paths(platform: Platform, codex_home: Seq<char>) -> (
    Seq<char>,
    Seq<char>,
    Seq<char>,
    Seq<char>,
    Seq<char>,
) {
    let root = join_path_on(platform, codex_home, "lsp"@);
    (
        join_path_on(platform, root, "bin"@),
        join_path_on(platform, root, "npm"@),
        join_path_on(platform, join_path_on(platform, root, "cache"@), "npm"@),
        join_path_on(platform, root, "pip"@),
        join_path_on(platform, root, "gem"@),
    )
}

impl LspToolchainPaths {
    pub open spec fn view_tuple(&self) -> (Seq<char>, Seq<char>, Seq<char>, Seq<char>, Seq<char>) {
        (self.bin_dir@, self.npm_prefix@, self.npm_cache@, self.pip_prefix@, self.gem_home@)
    }
}

/// The managed toolchain directories under `codex_home`.
pub fn lsp_toolchain_paths(platform: Platform, codex_home: &str) -> (p: LspToolchainPaths)
    ensures
        p.view_tuple() == toolchain_paths(platform, codex_home@),
{
    let root = join_path_on_str(platform, codex_home, "lsp");
    let cache = join_path_on_str(platform, root.as_str(), "cache");
    LspToolchainPaths {
        bin_dir: join_path_on_str(platform, root.as_str(), "bin"),
        npm_prefix: join_path_on_str(platform, root.as_str(), "npm"),
        npm_cache: join_path_on_str(platform, cache.as_str(), "npm"),
        pip_prefix: join_path_on_str(platform, root.as_str(), "pip"),
        gem_home: join_path_on_str(platform, root.as_str(), "gem"),
    }
}

/// The characters after which a shell word needs quoting.
pub open spec fn shell_special(c: char) -> bool {
    c == ' ' || c == '\t' || c == '\n' || c == '\'' || c == '"' || c == '\\' || c == '|' || c == '&'
        || c == ';' || c == '<' || c == '>' || c == '(' || c == ')' || c == '$' || c == '`' || c
        == '!' || c == '*' || c == '?' || c == '[' || c == ']' || c == '{' || c == '}' || c == '#'
}

/// `s` with each `'` replaced by `'"'"'`.
pub open spec fn escape_single_quotes(s: Seq<char>) -> Seq<char>
    decreases s.len(),
{
    if s.len() == 0 {
        seq![]
    } else if s.last() == '\'' {
        escape_single_quotes(s.drop_last()) + "'\"'\"'"@
    } else {
        escape_single_quotes(s.drop_last()).push(s.last())
    }
}

/// `arg` as one POSIX shell word: `''` when empty, unchanged when it holds
/// no special character, else single-quoted.
pub open spec fn shell_quoted(arg: Seq<char>) -> Seq<char> {
    if arg.len() == 0 {
        "''"@
    } else if !(exists|i: int| 0 <= i < arg.len() && shell_special(#[trigger] arg[i])) {
        arg
    } else {
        seq!['\''] + escape_single_quotes(arg) + seq!['\'']
    }
}

fn is_shell_special(c: char) -> (b: bool)
    ensures
        b == shell_special(c),
{
    c == ' ' || c == '\t' || c == '\n' || c == '\'' || c == '"' || c == '\\' || c == '|' || c == '&'
        || c == ';' || c == '<' || c == '>' || c == '(' || c == ')' || c == '$' || c == '`' || c
        == '!' || c == '*' || c == '?' || c == '[' || c == ']' || c == '{' || c == '}' || c == '#'
}

/// Quotes `arg` for a POSIX shell.
pub fn shell_quote(arg: &str) -> (r: String)
    ensures
        r@ == shell_quoted(arg@),
{
    proof {
        reveal_strlit("''");
        reveal_strlit("'\"'\"'");
    }
    let v = chars_of(arg);
    if v.len() == 0 {
        return String::from_str("''");
    }
    let mut special = false;
    let mut i: usize = 0;
    while i < v.len()
        invariant
            v@ == arg@,
            i <= v@.len(),
            special == (exists|j: int| 0 <= j < i && shell_special(#[trigger] v@[j])),
        decreases v@.len() - i,
    {
        if is_shell_special(v[i]) {
            special = true;
        }
        i = i + 1;
    }
    if !special {
        return String::from_str(arg);
    }
    let mut r = String::new();
    push_char(&mut r, '\'');
    let mut k: usize = 0;
    while k < v.len()
        invariant
            v@ == arg@,
            k <= v@.len(),
            r@ == seq!['\''] + escape_single_quotes(v@.take(k as int)),
        decreases v@.len() - k,
    {
        assert(v@.take(k + 1).drop_last() =~= v@.take(k as int));
        if v[k] == '\'' {
            r.append("'\"'\"'");
        } else {
            push_char(&mut r, v[k]);
        }
        k = k + 1;
        assert(r@ =~= seq!['\''] + escape_single_quotes(v@.take(k as int)));
    }
    assert(v@.take(v@.len() as int) =~= v@);
    push_char(&mut r, '\'');
    r
}

/// The words of `items`, each quoted and preceded by a space.
pub open spec fn quoted_words(items: Seq<Seq<char>>) -> Seq<char>
    decreases items.len(),
{
    if items.len() == 0 {
        seq![]
    } else {
        quoted_words(items.drop_last()) + seq![' '] + shell_quoted(items.last())
    }
}

/// The words of `items`, each preceded by a space, unquoted.
pub open spec fn plain_words(items: Seq<Seq<char>>) -> Seq<char>
    decreases items.len(),
{
    if items.len() == 0 {
        seq![]
    } else {
        plain_words(items.drop_last()) + seq![' '] + items.last()
    }
}

/// Whether the command starts with these words.
pub open spec fn starts_with_words(cmd: Seq<Seq<char>>, words: Seq<Seq<char>>) -> bool {
    words.len() <= cmd.len() && cmd.take(words.len() as int) == words
}

/// The install command, rewritten to install into the managed toolchain
/// directories under `codex_home`. `use_pip3` tells whether `pip` is missing
/// from the search path and `pip3` is there.
pub open spec fn rewritten_install_command(
    platform: Platform,
    codex_home: Seq<char>,
    cmd: Seq<Seq<char>>,
    use_pip3: bool,
) -> Seq<Seq<char>> {
    let (bin_dir, npm_prefix, npm_cache, pip_prefix, gem_home) = toolchain_paths(platform, codex_home);
    let windows = platform == Platform::Windows;
    if starts_with_words(cmd, seq!["npm"@, "install"@, "-g"@]) {
        cmd + seq!["--prefix"@, npm_prefix, "--cache"@, npm_cache]
    } else if starts_with_words(cmd, seq!["dotnet"@, "tool"@, "install"@]) {
        cmd + seq!["--tool-path"@, bin_dir]
    } else if windows && starts_with_words(cmd, seq!["gem"@, "install"@]) {
        seq![
            "cmd"@,
            "/C"@,
            "set GEM_HOME="@ + gem_home + "&& "@ + cmd[0] + seq![' '] + cmd[1] + plain_words(cmd.skip(2))
                + " --bindir "@ + bin_dir,
        ]
    } else if starts_with_words(cmd, seq!["gem"@, "install"@]) {
        seq![
            "sh"@,
            "-lc"@,
            "GEM_HOME="@ + shell_quoted(gem_home) + seq![' '] + cmd[0] + seq![' '] + cmd[1]
                + quoted_words(cmd.skip(2)) + " --bindir "@ + shell_quoted(bin_dir),
        ]
    } else if windows && starts_with_words(cmd, seq!["go"@, "install"@]) {
        seq!["cmd"@, "/C"@, "set GOBIN="@ + bin_dir + "&& "@ + cmd[0] + seq![' '] + cmd[1] + plain_words(cmd.skip(2))]
    } else if starts_with_words(cmd, seq!["go"@, "install"@]) {
        seq![
            "sh"@,
            "-lc"@,
            "GOBIN="@ + shell_quoted(bin_dir) + seq![' '] + cmd[0] + seq![' '] + cmd[1] + quoted_words(
                cmd.skip(2),
            ),
        ]
    } else if starts_with_words(cmd, seq!["pip"@, "install"@]) {
        seq![if use_pip3 { "pip3"@ } else { cmd[0] }, cmd[1]] + cmd.skip(2) + seq!["--prefix"@, pip_prefix]
    } else {
        cmd
    }
}

/// Whether `command` starts with the words `a`, `b` (and `c` where given).
fn starts_with_strs(command: &[String], a: &str, b: &str, c: Option<&str>) -> (r: bool)
    ensures
        r == match c {
            Some(c) => starts_with_words(string_views(command@), seq![a@, b@, c@]),
            None => starts_with_words(string_views(command@), seq![a@, b@]),
        },
{
    let ghost cmd = string_views(command@);
    let n: usize = match c {
        Some(_) => 3,
        None => 2,
    };
    if command.len() < n {
        return false;
    }
    let r = str_eq(command[0].as_str(), a) && str_eq(command[1].as_str(), b) && match c {
        Some(c) => str_eq(command[2].as_str(), c),
        None => true,
    };
    proof {
        match c {
            Some(c) => {
                if r {
                    assert(cmd.take(3) =~= seq![a@, b@, c@]);
                } else {
                    if cmd.take(3) == seq![a@, b@, c@] {
                        assert(cmd[0] == cmd.take(3)[0]);
                        assert(cmd[1] == cmd.take(3)[1]);
                        assert(cmd[2] == cmd.take(3)[2]);
                    }
                }
            },
            None => {
                if r {
                    assert(cmd.take(2) =~= seq![a@, b@]);
                } else {
                    if cmd.take(2) == seq![a@, b@] {
                        assert(cmd[0] == cmd.take(2)[0]);
                        assert(cmd[1] == cmd.take(2)[1]);
                    }
                }
            },
        }
    }
    r
}

/// Copies of the strings of `v`.
pub fn clone_strings(v: &[String]) -> (r: Vec<String>)
    ensures
        string_views(r@) == string_views(v@),
{
    let mut r: Vec<String> = Vec::new();
    let mut k: usize = 0;
    while k < v.len()
        invariant
            k <= v@.len(),
            string_views(r@) == string_views(v@.take(k as int)),
        decreases v@.len() - k,
    {
        let ghost prev = r@;
        let c = v[k].clone();
        r.push(c);
        assert(string_views(r@) =~= string_views(prev).push(v@[k as int]@));
        assert(v@.take(k + 1) =~= v@.take(k as int).push(v@[k as int]));
        assert(string_views(v@.take(k + 1)) =~= string_views(v@.take(k as int)).push(v@[k as int]@));
        k = k + 1;
    }
    assert(v@.take(v@.len() as int) =~= v@);
    r
}

/// Appends to `s` each word of `items` from position `from` on, quoted and
/// preceded by a space.
fn push_quoted_words(s: &mut String, items: &[String], from: usize)
    requires
        from <= items@.len(),
    ensures
        final(s)@ == old(s)@ + quoted_words(string_views(items@).skip(from as int)),
{
    let ghost words = string_views(items@);
    let mut k: usize = from;
    while k < items.len()
        invariant
            from <= k <= items@.len(),
            words == string_views(items@),
            s@ == old(s)@ + quoted_words(words.subrange(from as int, k as int)),
        decreases items@.len() - k,
    {
        assert(words.subrange(from as int, k + 1).drop_last() =~= words.subrange(from as int, k as int));
        push_char(s, ' ');
        s.append(shell_quote(items[k].as_str()).as_str());
        k = k + 1;
    }
    assert(words.subrange(from as int, items@.len() as int) =~= words.skip(from as int));
}

/// Appends to `s` each word of `items` from position `from` on, preceded by a
/// space.
fn push_plain_words(s: &mut String, items: &[String], from: usize)
    requires
        from <= items@.len(),
    ensures
        final(s)@ == old(s)@ + plain_words(string_views(items@).skip(from as int)),
{
    let ghost words = string_views(items@);
    let mut k: usize = from;
    while k < items.len()
        invariant
            from <= k <= items@.len(),
            words == string_views(items@),
            s@ == old(s)@ + plain_words(words.subrange(from as int, k as int)),
        decreases items@.len() - k,
    {
        assert(words.subrange(from as int, k + 1).drop_last() =~= words.subrange(from as int, k as int));
        push_char(s, ' ');
        s.append(items[k].as_str());
        k = k + 1;
    }
    assert(words.subrange(from as int, items@.len() as int) =~= words.skip(from as int));
}

/// A look-up on the search path: the name looked up and whether an
/// executable of that name was found.
#[derive(Clone, Debug)]
pub struct PathProbe {
    pub name: String,
    pub found: bool,
}

/// Looks `name` up on the search path with the `which` crate's `which`. The
/// probe carries the name looked up; whether it was found depends on the
/// environment and the file system, so nothing is stated of it.
#[verifier::external_body]
fn executable_on_path(name: &str) -> (r: PathProbe)
    ensures
        r.name@ == name@,
{
    PathProbe { name: name.to_string(), found: which::which(name).is_ok() }
}

/// Whether `pip3` stands in for `pip`: for a `pip install` command when
/// `pip` is not on the search path and `pip3` is.
pub open spec fn use_pip3_spec(pip_install: bool, pip_found: bool, pip3_found: bool) -> bool {
    pip_install && !pip_found && pip3_found
}

/// Whether `pip3` stands in for `pip`, given whether the command is a
/// `pip install` and whether `pip` and `pip3` are on the search path.
pub fn use_pip3_for(pip_install: bool, pip_found: bool, pip3_found: bool) -> (b: bool)
    ensures
        b == use_pip3_spec(pip_install, pip_found, pip3_found),
{
    pip_install && !pip_found && pip3_found
}

/// Whether a command is a `pip install`.
pub open spec fn is_pip_install(command: Seq<Seq<char>>) -> bool {
    starts_with_words(command, seq!["pip"@, "install"@])
}

/// The names of the probes.
pub open spec fn probe_names(probes: Seq<PathProbe>) -> Seq<Seq<char>> {
    probes.map_values(|p: PathProbe| p.name@)
}

/// Whether probe `i` was made and found its executable.
pub open spec fn probe_found(probes: Seq<PathProbe>, i: int) -> bool {
    0 <= i < probes.len() && probes[i].found
}

/// The names looked up for a command: for a `pip install`, `pip`, and then
/// `pip3` where `pip` was not found; nothing for other commands.
pub open spec fn probed_names(command: Seq<Seq<char>>, pip_found: bool) -> Seq<Seq<char>> {
    if !is_pip_install(command) {
        seq![]
    } else if pip_found {
        seq!["pip"@]
    } else {
        seq!["pip"@, "pip3"@]
    }
}

/// An install command rewritten for the managed toolchains, with the
/// search-path look-ups that decided it.
#[derive(Debug)]
pub struct InstallRewrite {
    pub command: Vec<String>,
    pub probes: Vec<PathProbe>,
}

/// The install command rewritten to install into the managed toolchain
/// directories; for `pip install`, `pip` is looked up on the search path, and
/// `pip3` where `pip` is missing; `pip3` is used where it is found and `pip`
/// is not. The look-ups come back with the rewrite.
pub fn rewrite_lsp_install_command(platform: Platform, codex_home: &str, command: &[String]) -> (r:
    InstallRewrite)
    ensures
        probe_names(r.probes@) == probed_names(string_views(command@), probe_found(r.probes@, 0)),
        string_views(r.command@) == rewritten_install_command(
            platform,
            codex_home@,
            string_views(command@),
            use_pip3_spec(
                is_pip_install(string_views(command@)),
                probe_found(r.probes@, 0),
                probe_found(r.probes@, 1),
            ),
        ),
{
    let pip_install = starts_with_strs(command, "pip", "install", None);
    let mut probes: Vec<PathProbe> = Vec::new();
    let mut pip_found = false;
    let mut pip3_found = false;
    if pip_install {
        let pip = executable_on_path("pip");
        pip_found = pip.found;
        probes.push(pip);
        if !pip_found {
            let pip3 = executable_on_path("pip3");
            pip3_found = pip3.found;
            probes.push(pip3);
        }
    }
    proof {
        reveal_strlit("pip");
        reveal_strlit("pip3");
        assert(probe_names(probes@) =~= probed_names(string_views(command@), probe_found(probes@, 0)));
    }
    let use_pip3 = use_pip3_for(pip_install, pip_found, pip3_found);
    let out = rewrite_lsp_install_command_with(platform, codex_home, command, use_pip3);
    InstallRewrite { command: out, probes }
}

/// The install command rewritten to install into the managed toolchain
/// directories, given whether `pip3` stands in for a missing `pip`.
pub fn rewrite_lsp_install_command_with(
    platform: Platform,
    codex_home: &str,
    command: &[String],
    use_pip3: bool,
) -> (out: Vec<String>)
    ensures
        string_views(out@) == rewritten_install_command(
            platform,
            codex_home@,
            string_views(command@),
            use_pip3,
        ),
{
    let paths = lsp_toolchain_paths(platform, codex_home);
    let windows = match platform {
        Platform::Windows => true,
        Platform::Unix => false,
    };
    let ghost cmd = string_views(command@);
    if starts_with_strs(command, "npm", "install", Some("-g")) {
        let mut out = clone_strings(command);
        let ghost p = paths.view_tuple();
        out.push(String::from_str("--prefix"));
        assert(string_views(out@) =~= cmd.push("--prefix"@));
        out.push(paths.npm_prefix);
        assert(string_views(out@) =~= cmd.push("--prefix"@).push(p.1));
        out.push(String::from_str("--cache"));
        assert(string_views(out@) =~= cmd.push("--prefix"@).push(p.1).push("--cache"@));
        out.push(paths.npm_cache);
        assert(string_views(out@) =~= cmd.push("--prefix"@).push(p.1).push("--cache"@).push(p.2));
        assert(p == toolchain_paths(platform, codex_home@));
        assert(starts_with_words(cmd, seq!["npm"@, "install"@, "-g"@]));
        assert(cmd.push("--prefix"@).push(p.1).push("--cache"@).push(p.2) =~= cmd + seq!["--prefix"@, p.1, "--cache"@, p.2]);
        assert(rewritten_install_command(platform, codex_home@, cmd, use_pip3) == cmd + seq!["--prefix"@, p.1, "--cache"@, p.2]);
        assert(string_views(out@) =~= rewritten_install_command(platform, codex_home@, cmd, use_pip3));
        out
    } else if starts_with_strs(command, "dotnet", "tool", Some("install")) {
        let mut out = clone_strings(command);
        let ghost p = paths.view_tuple();
        out.push(String::from_str("--tool-path"));
        assert(string_views(out@) =~= cmd.push("--tool-path"@));
        out.push(paths.bin_dir);
        assert(string_views(out@) =~= cmd.push("--tool-path"@).push(p.0));
        assert(string_views(out@) =~= rewritten_install_command(platform, codex_home@, cmd, use_pip3));
        out
    } else if windows && starts_with_strs(command, "gem", "install", None) {
        let mut line = String::from_str("set GEM_HOME=");
        line.append(paths.gem_home.as_str());
        line.append("&& ");
        line.append(command[0].as_str());
        push_char(&mut line, ' ');
        line.append(command[1].as_str());
        push_plain_words(&mut line, command, 2);
        line.append(" --bindir ");
        line.append(paths.bin_dir.as_str());
        let ghost p = paths.view_tuple();
        assert(line@ =~= "set GEM_HOME="@ + p.4 + "&& "@ + cmd[0] + seq![' '] + cmd[1] + plain_words(
            cmd.skip(2),
        ) + " --bindir "@ + p.0);
        let out = vec![String::from_str("cmd"), String::from_str("/C"), line];
        assert(string_views(out@) =~= seq!["cmd"@, "/C"@, out@[2]@]);
        assert(string_views(out@) =~= rewritten_install_command(platform, codex_home@, cmd, use_pip3));
        out
    } else if starts_with_strs(command, "gem", "install", None) {
        let mut line = String::from_str("GEM_HOME=");
        line.append(shell_quote(paths.gem_home.as_str()).as_str());
        push_char(&mut line, ' ');
        line.append(command[0].as_str());
        push_char(&mut line, ' ');
        line.append(command[1].as_str());
        push_quoted_words(&mut line, command, 2);
        line.append(" --bindir ");
        line.append(shell_quote(paths.bin_dir.as_str()).as_str());
        let ghost p = paths.view_tuple();
        assert(line@ =~= "GEM_HOME="@ + shell_quoted(p.4) + seq![' '] + cmd[0] + seq![' '] + cmd[1]
            + quoted_words(cmd.skip(2)) + " --bindir "@ + shell_quoted(p.0));
        let out = vec![String::from_str("sh"), String::from_str("-lc"), line];
        assert(string_views(out@) =~= seq!["sh"@, "-lc"@, out@[2]@]);
        assert(string_views(out@) =~= rewritten_install_command(platform, codex_home@, cmd, use_pip3));
        out
    } else if windows && starts_with_strs(command, "go", "install", None) {
        let mut line = String::from_str("set GOBIN=");
        line.append(paths.bin_dir.as_str());
        line.append("&& ");
        line.append(command[0].as_str());
        push_char(&mut line, ' ');
        line.append(command[1].as_str());
        push_plain_words(&mut line, command, 2);
        let ghost p = paths.view_tuple();
        assert(line@ =~= "set GOBIN="@ + p.0 + "&& "@ + cmd[0] + seq![' '] + cmd[1] + plain_words(cmd.skip(2)));
        let out = vec![String::from_str("cmd"), String::from_str("/C"), line];
        assert(string_views(out@) =~= seq!["cmd"@, "/C"@, out@[2]@]);
        assert(string_views(out@) =~= rewritten_install_command(platform, codex_home@, cmd, use_pip3));
        out
    } else if starts_with_strs(command, "go", "install", None) {
        let mut line = String::from_str("GOBIN=");
        line.append(shell_quote(paths.bin_dir.as_str()).as_str());
        push_char(&mut line, ' ');
        line.append(command[0].as_str());
        push_char(&mut line, ' ');
        line.append(command[1].as_str());
        push_quoted_words(&mut line, command, 2);
        let ghost p = paths.view_tuple();
        assert(line@ =~= "GOBIN="@ + shell_quoted(p.0) + seq![' '] + cmd[0] + seq![' '] + cmd[1]
            + quoted_words(cmd.skip(2)));
        let out = vec![String::from_str("sh"), String::from_str("-lc"), line];
        assert(string_views(out@) =~= seq!["sh"@, "-lc"@, out@[2]@]);
        assert(string_views(out@) =~= rewritten_install_command(platform, codex_home@, cmd, use_pip3));
        out
    } else if starts_with_strs(command, "pip", "install", None) {
        let binary = if use_pip3 {
            String::from_str("pip3")
        } else {
            command[0].clone()
        };
        let mut out: Vec<String> = vec![binary, command[1].clone()];
        assert(string_views(out@) =~= seq![if use_pip3 { "pip3"@ } else { cmd[0] }, cmd[1]] + cmd.subrange(2, 2));
        let mut k: usize = 2;
        while k < command.len()
            invariant
                2 <= k <= command@.len(),
                cmd == string_views(command@),
                string_views(out@) == seq![if use_pip3 { "pip3"@ } else { cmd[0] }, cmd[1]] + cmd.subrange(2, k as int),
            decreases command@.len() - k,
        {
            let ghost prev = out@;
            out.push(command[k].clone());
            assert(string_views(out@) =~= string_views(prev).push(cmd[k as int]));
            k = k + 1;
            assert(string_views(out@) =~= seq![if use_pip3 { "pip3"@ } else { cmd[0] }, cmd[1]] + cmd.subrange(2, k as int));
        }
        out.push(String::from_str("--prefix"));
        out.push(paths.pip_prefix);
        assert(cmd.subrange(2, command@.len() as int) =~= cmd.skip(2));
        assert(string_views(out@) =~= rewritten_install_command(platform, codex_home@, cmd, use_pip3));
        out
    } else {
        clone_strings(command)
    }
}

/// The prefix of an install command that may be approved once for all:
/// `npm install -g` and `dotnet tool install` keep three words, other
/// commands their first two (or their only word); an empty command has none.
pub open spec fn install_prefix(cmd: Seq<Seq<char>>) -> Option<Seq<Seq<char>>> {
    if starts_with_words(cmd, seq!["npm"@, "install"@, "-g"@]) || starts_with_words(
        cmd,
        seq!["dotnet"@, "tool"@, "install"@],
    ) {
        Some(cmd.take(3))
    } else if cmd.len() >= 2 {
        Some(cmd.take(2))
    } else if cmd.len() == 1 {
        Some(cmd)
    } else {
        None
    }
}

/// The prefix of an install command that may be approved once for all.
pub fn install_prefix_rule(command: &[String]) -> (rule: Option<Vec<String>>)
    ensures
        match rule {
            Some(r) => install_prefix(string_views(command@)) == Some(string_views(r@)),
            None => install_prefix(string_views(command@)) is None,
        },
{
    let ghost cmd = string_views(command@);
    if starts_with_strs(command, "npm", "install", Some("-g")) || starts_with_strs(
        command,
        "dotnet",
        "tool",
        Some("install"),
    ) {
        let r = vec![command[0].clone(), command[1].clone(), command[2].clone()];
        assert(string_views(r@) =~= cmd.take(3));
        Some(r)
    } else if command.len() >= 2 {
        let r = vec![command[0].clone(), command[1].clone()];
        assert(string_views(r@) =~= cmd.take(2));
        Some(r)
    } else if command.len() == 1 {
        let r = vec![command[0].clone()];
        assert(string_views(r@) =~= cmd);
        Some(r)
    } else {
        None
    }
}

/// A file extension as configured, normalized: trimmed, and with a leading
/// `.` added where it has none; `None` when nothing is left after trimming.
pub open spec fn normalized_extension(ext: Seq<char>) -> Option<Seq<char>> {
    let t = trim(ext);
    if t.len() == 0 {
        None
    } else if t[0] == '.' {
        Some(t)
    } else {
        Some(seq!['.'] + t)
    }
}

/// The normalized forms of the configured extensions, in order, leaving
/// out those that are blank.
pub open spec fn normalized_extensions(exts: Seq<Seq<char>>) -> Seq<Seq<char>>
    decreases exts.len(),
{
    if exts.len() == 0 {
        seq![]
    } else {
        let prev = normalized_extensions(exts.drop_last());
        match normalized_extension(exts.last()) {
            Some(e) => prev.push(e),
            None => prev,
        }
    }
}

/// Normalizes the configured file extensions of a language server.
pub fn normalize_lsp_extensions(extensions: Vec<String>) -> (out: Vec<String>)
    ensures
        string_views(out@) == normalized_extensions(string_views(extensions@)),
{
    let ghost exts = string_views(extensions@);
    let mut out: Vec<String> = Vec::new();
    let mut k: usize = 0;
    while k < extensions.len()
        invariant
            k <= extensions@.len(),
            exts == string_views(extensions@),
            string_views(out@) == normalized_extensions(exts.take(k as int)),
        decreases extensions@.len() - k,
    {
        assert(exts.take(k + 1).drop_last() =~= exts.take(k as int));
        let t = trim_chars(chars_of(extensions[k].as_str()).as_slice());
        let ghost prev = out@;
        if t.len() > 0 {
            let e = if t[0] == '.' {
                string_of(t.as_slice())
            } else {
                let mut e = String::from_str(".");
                e.append(string_of(t.as_slice()).as_str());
                proof {
                    reveal_strlit(".");
                }
                assert(e@ =~= seq!['.'] + t@);
                e
            };
            assert(Some(e@) == normalized_extension(exts[k as int]));
            out.push(e);
            assert(string_views(out@) =~= string_views(prev).push(normalized_extension(exts[k as int])->Some_0));
        }
        k = k + 1;
    }
    assert(exts.take(extensions@.len() as int) =~= exts);
    out
}

/// The reason shown when asking to run an install command: the server's
/// prompt and the command, its words joined by spaces.
pub open spec fn install_justification_text(prompt: Seq<char>, command: Seq<Seq<char>>) -> Seq<char> {
    prompt + " Command: `"@ + crate::text::join(command, " "@) + seq!['`']
}

/// The reason shown when asking to run an install command.
pub fn install_justification(prompt: &str, command: &Vec<String>) -> (r: String)
    ensures
        r@ == install_justification_text(prompt@, string_views(command@)),
{
    let mut r = String::from_str(prompt);
    r.append(" Command: `");
    let joined = crate::text::join_strings(command, " ");
    r.append(joined.as_str());
    let ghost head = r@;
    push_char(&mut r, '`');
    assert(r@ =~= head + seq!['`']);
    r
}

/// What to do after an install command answered.
#[derive(Debug, Clone, Copy, PartialEq, Eq, Structural)]
pub enum InstallProgress {
    /// Poll the running command again.
    KeepPolling,
    /// Stop; whether the install succeeded.
    Done(bool),
}

/// Whether to keep polling an install command: while it has not exited,
/// still runs and the deadline has not passed; once stopped, the install
/// succeeded exactly when the command exited with status 0.
pub fn install_progress(exit_code: Option<i32>, running: bool, deadline_passed: bool) -> (r: InstallProgress)
    ensures
        exit_code is None && running && !deadline_passed ==> r == InstallProgress::KeepPolling,
        !(exit_code is None && running && !deadline_passed) ==> r == InstallProgress::Done(exit_code == Some(0i32)),
{
    if exit_code.is_none() && running && !deadline_passed {
        return InstallProgress::KeepPolling;
    }
    InstallProgress::Done(
        match exit_code {
            Some(c) => c == 0,
            None => false,
        },
    )
}

} // verus!
