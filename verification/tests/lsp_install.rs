use std::path::PathBuf;

use codex_core::lsp_install::{
    install_justification, install_prefix_rule, install_progress, lsp_toolchain_paths, normalize_lsp_extensions,
    rewrite_lsp_install_command, rewrite_lsp_install_command_with, use_pip3_for, shell_quote, InstallProgress, Platform,
};

fn codex_home() -> PathBuf {
    PathBuf::from("/tmp/codex-home-test")
}

fn words(items: &[&str]) -> Vec<String> {
    items.iter().map(|s| s.to_string()).collect()
}

fn has_pair(rewritten: &[String], flag: &str, value: &str) -> bool {
    rewritten.windows(2).any(|w| w[0] == flag && w[1] == value)
}

#[test]
fn rewrites_npm_global_to_managed_prefix() {
    let home = codex_home();
    let expected_prefix = home.join("lsp").join("npm");
    let expected_cache = home.join("lsp").join("cache").join("npm");
    let cmd = words(&["npm", "install", "-g", "pyright"]);
    let rewritten = rewrite_lsp_install_command(Platform::Unix, home.to_str().unwrap(), &cmd).command;
    assert!(has_pair(&rewritten, "--prefix", expected_prefix.to_string_lossy().as_ref()));
    assert!(has_pair(&rewritten, "--cache", expected_cache.to_string_lossy().as_ref()));
}

#[test]
fn rewrites_dotnet_tool_install_to_tool_path() {
    let home = codex_home();
    let expected_bin = home.join("lsp").join("bin");
    let cmd = words(&["dotnet", "tool", "install", "csharp-ls"]);
    let rewritten = rewrite_lsp_install_command(Platform::Unix, home.to_str().unwrap(), &cmd).command;
    assert!(has_pair(&rewritten, "--tool-path", expected_bin.to_string_lossy().as_ref()));
}

#[test]
fn rewrites_gem_install_to_bindir() {
    let home = codex_home();
    let expected_bin = home.join("lsp").join("bin");
    let expected_gem_home = home.join("lsp").join("gem");
    let cmd = words(&["gem", "install", "rubocop"]);
    let rewritten = rewrite_lsp_install_command(Platform::Unix, home.to_str().unwrap(), &cmd).command;
    assert_eq!(rewritten[0], "sh");
    assert_eq!(rewritten[1], "-lc");
    assert!(rewritten[2].contains("GEM_HOME="));
    assert!(rewritten[2].contains(expected_gem_home.to_string_lossy().as_ref()));
    assert!(rewritten[2].contains(" --bindir "));
    assert!(rewritten[2].contains(expected_bin.to_string_lossy().as_ref()));
    assert_eq!(
        rewritten[2],
        "GEM_HOME=/tmp/codex-home-test/lsp/gem gem install rubocop --bindir /tmp/codex-home-test/lsp/bin"
    );
}

#[test]
fn lsp_toolchain_paths_include_gem_home() {
    let home = codex_home();
    let paths = lsp_toolchain_paths(Platform::Unix, home.to_str().unwrap());
    assert_eq!(PathBuf::from(paths.gem_home), home.join("lsp").join("gem"));
}

#[test]
fn toolchain_paths_join_like_std_paths() {
    for home in ["/tmp/home", "/tmp/home/", "relative", ""] {
        let paths = lsp_toolchain_paths(Platform::Unix, home);
        let root = PathBuf::from(home).join("lsp");
        assert_eq!(PathBuf::from(&paths.bin_dir), root.join("bin"));
        assert_eq!(paths.bin_dir, root.join("bin").to_string_lossy());
        assert_eq!(paths.npm_prefix, root.join("npm").to_string_lossy());
        assert_eq!(paths.npm_cache, root.join("cache").join("npm").to_string_lossy());
        assert_eq!(paths.pip_prefix, root.join("pip").to_string_lossy());
        assert_eq!(paths.gem_home, root.join("gem").to_string_lossy());
    }
}

#[test]
fn rewrites_pip_install_to_managed_prefix() {
    let home = codex_home();
    let expected_prefix = home.join("lsp").join("pip");
    let cmd = words(&["pip", "install", "python-lsp-server"]);
    let rewritten = rewrite_lsp_install_command(Platform::Unix, home.to_str().unwrap(), &cmd).command;
    assert!(has_pair(&rewritten, "--prefix", expected_prefix.to_string_lossy().as_ref()));
    assert!(rewritten[0] == "pip" || rewritten[0] == "pip3");
}

#[test]
fn pip3_replaces_pip_when_chosen() {
    let cmd = words(&["pip", "install", "a", "b"]);
    assert_eq!(
        rewrite_lsp_install_command_with(Platform::Unix, "/h", &cmd, true),
        words(&["pip3", "install", "a", "b", "--prefix", "/h/lsp/pip"])
    );
    assert_eq!(
        rewrite_lsp_install_command_with(Platform::Unix, "/h", &cmd, false),
        words(&["pip", "install", "a", "b", "--prefix", "/h/lsp/pip"])
    );
}

#[test]
fn go_install_sets_gobin_and_quotes_arguments() {
    let cmd = words(&["go", "install", "golang.org/x/tools/gopls@latest", "it's"]);
    let rewritten = rewrite_lsp_install_command_with(Platform::Unix, "/my home", &cmd, false);
    assert_eq!(
        rewritten,
        words(&[
            "sh",
            "-lc",
            "GOBIN='/my home/lsp/bin' go install golang.org/x/tools/gopls@latest 'it'\"'\"'s'"
        ])
    );
}

#[test]
fn other_commands_are_unchanged() {
    let cmd = words(&["cargo", "install", "x"]);
    assert_eq!(rewrite_lsp_install_command_with(Platform::Unix, "/h", &cmd, true), cmd);
    let short = words(&["npm", "install"]);
    assert_eq!(rewrite_lsp_install_command_with(Platform::Unix, "/h", &short, true), short);
}

#[test]
fn install_prefix_rule_prefers_stable_install_prefixes() {
    let npm = words(&["npm", "install", "-g", "pyright"]);
    let rule = install_prefix_rule(&npm).expect("rule");
    assert_eq!(rule, vec!["npm", "install", "-g"]);

    let dotnet = words(&["dotnet", "tool", "install", "csharp-ls"]);
    let rule = install_prefix_rule(&dotnet).expect("rule");
    assert_eq!(rule, vec!["dotnet", "tool", "install"]);
}

#[test]
fn install_prefix_rule_short_commands() {
    assert_eq!(install_prefix_rule(&words(&["gem", "install", "x"])), Some(words(&["gem", "install"])));
    assert_eq!(install_prefix_rule(&words(&["solo"])), Some(words(&["solo"])));
    assert_eq!(install_prefix_rule(&[]), None);
}

#[test]
fn shell_quote_cases() {
    assert_eq!(shell_quote(""), "''");
    assert_eq!(shell_quote("plain-word_1.0"), "plain-word_1.0");
    assert_eq!(shell_quote("two words"), "'two words'");
    assert_eq!(shell_quote("it's"), "'it'\"'\"'s'");
    assert_eq!(shell_quote("$HOME"), "'$HOME'");
}

#[test]
fn normalize_extensions() {
    let normalized = normalize_lsp_extensions(words(&[" rs ", ".py", "   ", "", "\tts"]));
    assert_eq!(normalized, words(&[".rs", ".py", ".ts"]));
}

#[test]
fn install_justification_shows_the_command() {
    let command = vec!["npm".to_string(), "install".to_string(), "-g".to_string(), "pyright".to_string()];
    assert_eq!(
        install_justification("Install pyright?", &command),
        "Install pyright? Command: `npm install -g pyright`"
    );
}

#[test]
fn install_polling_stops_on_exit_or_deadline() {
    assert_eq!(install_progress(None, true, false), InstallProgress::KeepPolling);
    assert_eq!(install_progress(Some(0), true, false), InstallProgress::Done(true));
    assert_eq!(install_progress(Some(1), false, false), InstallProgress::Done(false));
    assert_eq!(install_progress(None, false, false), InstallProgress::Done(false));
    assert_eq!(install_progress(None, true, true), InstallProgress::Done(false));
}

#[test]
fn pip3_stands_in_only_for_a_missing_pip() {
    assert!(use_pip3_for(true, false, true));
    assert!(!use_pip3_for(true, true, true));
    assert!(!use_pip3_for(true, false, false));
    assert!(!use_pip3_for(false, false, true));
}

#[test]
fn windows_gem_and_go_installs_run_under_cmd() {
    let gem = words(&["gem", "install", "rubocop"]);
    assert_eq!(
        rewrite_lsp_install_command_with(Platform::Windows, "C:\\Users\\me\\.codex", &gem, false),
        words(&[
            "cmd",
            "/C",
            "set GEM_HOME=C:\\Users\\me\\.codex\\lsp\\gem&& gem install rubocop --bindir C:\\Users\\me\\.codex\\lsp\\bin"
        ])
    );
    let go = words(&["go", "install", "golang.org/x/tools/gopls@latest"]);
    assert_eq!(
        rewrite_lsp_install_command_with(Platform::Windows, "D:\\h", &go, false),
        words(&["cmd", "/C", "set GOBIN=D:\\h\\lsp\\bin&& go install golang.org/x/tools/gopls@latest"])
    );
}

#[test]
fn windows_toolchain_paths_use_backslashes() {
    let paths = lsp_toolchain_paths(Platform::Windows, "C:\\h\\");
    assert_eq!(paths.npm_cache, "C:\\h\\lsp\\cache\\npm");
    let drive = lsp_toolchain_paths(Platform::Windows, "C:");
    assert_eq!(drive.bin_dir, "C:lsp\\bin");
    let npm = words(&["npm", "install", "-g", "pyright"]);
    let rewritten = rewrite_lsp_install_command_with(Platform::Windows, "E:/x", &npm, false);
    assert!(has_pair(&rewritten, "--prefix", "E:/x\\lsp\\npm"));
}

#[test]
fn pip_installs_look_up_pip_then_pip3() {
    let cmd = words(&["pip", "install", "x"]);
    let r = rewrite_lsp_install_command(Platform::Unix, "/h", &cmd);
    assert_eq!(r.probes[0].name, "pip");
    if r.probes[0].found {
        assert_eq!(r.probes.len(), 1);
        assert_eq!(r.command[0], "pip");
    } else {
        assert_eq!(r.probes.len(), 2);
        assert_eq!(r.probes[1].name, "pip3");
        assert_eq!(r.command[0], if r.probes[1].found { "pip3" } else { "pip" });
    }
    let other = rewrite_lsp_install_command(Platform::Unix, "/h", &words(&["npm", "install", "-g", "x"]));
    assert!(other.probes.is_empty());
}
