use shell::command::{batch_line, parse_command, Command};
use shell::dispatch::{dispatch_cmd, run, Action, Invocation, Pending, Shell};
use shell::session::{Config, ShellError};
use shell::text::{is_whitespace, replace, split, starts_with, trim, trim_quotes};

fn strings(v: &[&str]) -> Vec<String> {
    v.iter().map(|s| s.to_string()).collect()
}

fn config(toolchains: &[&str]) -> Config {
    Config::new(
        "{project}@{toolchain} ({version})".to_string(),
        "/home/u/.cargo/bin/rustup".to_string(),
        "foo".to_string(),
        "1.2".to_string(),
        "stable".to_string(),
        strings(toolchains),
        "/work".to_string(),
    )
    .unwrap()
}

fn shell(toolchains: &[&str]) -> Shell {
    Shell::new(config(toolchains))
}

fn expect_run(a: Action) -> (Invocation, bool) {
    match a {
        Action::Run(inv, announce) => (inv, announce),
        _ => panic!("expected a run"),
    }
}

fn run_args(toolchain: &str, cmd: &[&str]) -> Vec<String> {
    let mut v = strings(&["run", toolchain, "cargo"]);
    v.extend(strings(cmd));
    v
}

#[test]
fn render_prompt_fills_placeholders() {
    let mut c = config(&["stable"]);
    c.current_toolchain = "nightly".to_string();
    assert_eq!(c.get_prompt(), "foo@nightly (1.2)");
}

#[test]
fn render_prompt_keeps_unknown_placeholders() {
    let mut c = config(&["stable"]);
    c.prompt = "{other} {project}{project} >".to_string();
    assert_eq!(c.get_prompt(), "{other} foofoo >");
}

#[test]
fn plain_line_runs_cargo_under_active_toolchain() {
    let mut sh = shell(&["stable", "nightly"]);
    let (inv, announce) = expect_run(dispatch_cmd(&mut sh, "  build --release  "));
    assert!(!announce);
    assert_eq!(inv.program, "/home/u/.cargo/bin/rustup");
    assert_eq!(inv.cwd, "/work");
    assert_eq!(inv.args, run_args("stable", &["build", "--release"]));
    assert!(matches!(sh.run_finished(true), Action::Done));
    assert!(matches!(sh.pending, Pending::Idle));
}

#[test]
fn plain_line_split_keeps_empty_pieces() {
    let mut sh = shell(&["stable"]);
    let (inv, _) = expect_run(dispatch_cmd(&mut sh, "test  -q"));
    assert_eq!(inv.args, run_args("stable", &["test", "", "-q"]));
}

#[test]
fn permanent_switch_persists() {
    let mut sh = shell(&["stable", "nightly"]);
    assert!(matches!(dispatch_cmd(&mut sh, "++ beta"), Action::Done));
    assert_eq!(sh.config.current_toolchain, "beta");
    let (inv, _) = expect_run(dispatch_cmd(&mut sh, "build"));
    assert_eq!(inv.args, run_args("beta", &["build"]));
    assert!(matches!(sh.run_finished(false), Action::Failed(ShellError::Exec)));
    assert_eq!(sh.config.current_toolchain, "beta");
    let (inv, _) = expect_run(dispatch_cmd(&mut sh, "check"));
    assert_eq!(inv.args, run_args("beta", &["check"]));
    assert!(matches!(sh.run_finished(true), Action::Done));
    assert_eq!(sh.config.current_toolchain, "beta");
}

#[test]
fn temporary_switch_restores() {
    let mut sh = shell(&["stable", "nightly"]);
    let (inv, _) = expect_run(dispatch_cmd(&mut sh, "++ beta cargo build"));
    assert_eq!(inv.args, run_args("beta", &["cargo", "build"]));
    assert_eq!(sh.config.current_toolchain, "beta");
    assert!(matches!(sh.run_finished(true), Action::Done));
    assert_eq!(sh.config.current_toolchain, "stable");
}

#[test]
fn temporary_switch_restores_after_failure() {
    let mut sh = shell(&["stable"]);
    assert!(matches!(dispatch_cmd(&mut sh, "++nightly"), Action::Done));
    let (inv, _) = expect_run(dispatch_cmd(&mut sh, "++ beta test"));
    assert_eq!(inv.args, run_args("beta", &["test"]));
    assert!(matches!(sh.run_finished(false), Action::Failed(ShellError::Exec)));
    assert_eq!(sh.config.current_toolchain, "nightly");
}

#[test]
fn bare_double_plus_changes_nothing() {
    let mut sh = shell(&["stable"]);
    assert!(matches!(dispatch_cmd(&mut sh, "++"), Action::Done));
    assert_eq!(sh.config.current_toolchain, "stable");
}

#[test]
fn fan_out_runs_each_toolchain_in_order() {
    let mut sh = shell(&["stable", "nightly"]);
    assert!(matches!(dispatch_cmd(&mut sh, "++ beta"), Action::Done));
    let (inv, announce) = expect_run(dispatch_cmd(&mut sh, "+ test"));
    assert!(announce);
    assert_eq!(inv.args, run_args("stable", &["test"]));
    let (inv, announce) = expect_run(sh.run_finished(true));
    assert!(announce);
    assert_eq!(inv.args, run_args("nightly", &["test"]));
    assert!(matches!(sh.run_finished(false), Action::Failed(ShellError::Exec)));
    assert_eq!(sh.config.current_toolchain, "beta");
    assert!(matches!(sh.pending, Pending::Idle));
}

#[test]
fn fan_out_aborts_on_first_failure() {
    let mut sh = shell(&["stable", "nightly"]);
    let (inv, _) = expect_run(dispatch_cmd(&mut sh, "+ test"));
    assert_eq!(inv.args, run_args("stable", &["test"]));
    assert!(matches!(sh.run_finished(false), Action::Failed(ShellError::Exec)));
    assert_eq!(sh.config.current_toolchain, "stable");
    assert!(matches!(sh.pending, Pending::Idle));
}

#[test]
fn fan_out_all_succeed() {
    let mut sh = shell(&["a", "b", "c"]);
    let (inv, _) = expect_run(dispatch_cmd(&mut sh, "+build"));
    assert_eq!(inv.args, run_args("a", &["build"]));
    let (inv, _) = expect_run(sh.run_finished(true));
    assert_eq!(inv.args, run_args("b", &["build"]));
    let (inv, _) = expect_run(sh.run_finished(true));
    assert_eq!(inv.args, run_args("c", &["build"]));
    assert!(matches!(sh.run_finished(true), Action::Done));
    assert_eq!(sh.config.current_toolchain, "stable");
}

#[test]
fn fan_out_with_no_toolchains_does_nothing() {
    let mut sh = shell(&[]);
    assert!(matches!(dispatch_cmd(&mut sh, "+ test"), Action::Done));
    assert_eq!(sh.config.current_toolchain, "stable");
}

#[test]
fn failure_then_next_line_is_processed() {
    let mut sh = shell(&["stable"]);
    let _ = expect_run(dispatch_cmd(&mut sh, "build"));
    assert!(matches!(sh.run_finished(false), Action::Failed(ShellError::Exec)));
    assert!(matches!(sh.pending, Pending::Idle));
    let (inv, _) = expect_run(dispatch_cmd(&mut sh, "test"));
    assert_eq!(inv.args, run_args("stable", &["test"]));
}

#[test]
fn batch_lines_skipped_and_parsed() {
    assert!(batch_line("").is_none());
    assert!(batch_line("# comment").is_none());
    assert!(batch_line("   ").is_none());
    assert!(batch_line("   #indented comment").is_none());
    assert_eq!(batch_line("build --release"), Some(strings(&["build", "--release"])));
    assert_eq!(batch_line("  test -q \t"), Some(strings(&["test", "-q"])));
}

#[test]
fn exit_quit_help() {
    let mut sh = shell(&["stable"]);
    assert!(matches!(dispatch_cmd(&mut sh, "exit"), Action::Exit));
    assert!(matches!(dispatch_cmd(&mut sh, " quit "), Action::Exit));
    assert!(matches!(dispatch_cmd(&mut sh, "help"), Action::ShowHelp));
    assert!(matches!(parse_command("exits"), Command::PlainRun(_)));
}

#[test]
fn set_prompt_strips_quotes() {
    let mut sh = shell(&["stable"]);
    assert!(matches!(dispatch_cmd(&mut sh, "p \"{toolchain}> \""), Action::Done));
    assert_eq!(sh.config.prompt, "{toolchain}> ");
    assert_eq!(sh.config.get_prompt(), "stable> ");
    assert!(matches!(dispatch_cmd(&mut sh, "p '$ '"), Action::Done));
    assert_eq!(sh.config.prompt, "$ ");
}

#[test]
fn watch_runs_when_available() {
    let mut sh = shell(&["stable"]);
    assert!(matches!(dispatch_cmd(&mut sh, "~ test --lib"), Action::ProbeWatch));
    let (inv, _) = expect_run(sh.watch_probed(true));
    assert_eq!(inv.args, run_args("stable", &["watch", "test", "--lib"]));
    assert!(matches!(sh.run_finished(true), Action::Done));
}

#[test]
fn watch_warns_when_missing() {
    let mut sh = shell(&["stable"]);
    assert!(matches!(dispatch_cmd(&mut sh, "~test"), Action::ProbeWatch));
    assert!(matches!(sh.watch_probed(false), Action::WarnNoWatch));
    assert!(matches!(sh.pending, Pending::Idle));
}

#[test]
fn read_batch_path_is_trimmed() {
    let mut sh = shell(&["stable"]);
    match dispatch_cmd(&mut sh, "<  cmds.txt ") {
        Action::ReadBatch(p) => assert_eq!(p, "cmds.txt"),
        _ => panic!("expected a batch read"),
    }
}

#[test]
fn prefix_priority() {
    assert!(matches!(parse_command("p"), Command::PlainRun(_)));
    match parse_command("++ beta") {
        Command::TemporaryToolchainRun(t, a) => {
            assert_eq!(t, "beta");
            assert!(a.is_empty());
        }
        _ => panic!("expected a toolchain switch"),
    }
    match parse_command("+ +x") {
        Command::FanOutRun(a) => assert_eq!(a, strings(&["+x"])),
        _ => panic!("expected a fan-out"),
    }
}

#[test]
fn configured_values_and_fallbacks() {
    assert_eq!(Config::prompt(None), ">> ");
    assert_eq!(Config::prompt(Some("$ ".to_string())), "$ ");
    assert_eq!(Config::default_toolchain(None), "stable");
    assert_eq!(Config::default_toolchain(Some("nightly".to_string())), "nightly");
    assert_eq!(Config::get_toolchains(None), strings(&["stable", "beta", "nightly"]));
    assert_eq!(Config::get_toolchains(Some(strings(&["x"]))), strings(&["x"]));
}

#[test]
fn config_rejects_empty_toolchains() {
    let bad = Config::new(
        String::new(),
        String::new(),
        String::new(),
        String::new(),
        String::new(),
        Vec::new(),
        String::new(),
    );
    assert!(matches!(bad, Err(ShellError::Config)));
    let bad = Config::new(
        String::new(),
        String::new(),
        String::new(),
        String::new(),
        "stable".to_string(),
        strings(&["beta", ""]),
        String::new(),
    );
    assert!(matches!(bad, Err(ShellError::Config)));
    let c = config(&["beta"]);
    assert_eq!(c.current_toolchain, "stable");
}

#[test]
fn run_builds_rustup_invocation() {
    let c = config(&["stable"]);
    let inv = run(&c, &strings(&["doc", "--open"]));
    assert_eq!(inv.args, run_args("stable", &["doc", "--open"]));
    assert_eq!(inv.program, "/home/u/.cargo/bin/rustup");
}

#[test]
fn text_helpers() {
    assert_eq!(trim("\t a b \u{3000}\n"), "a b");
    assert_eq!(trim(""), "");
    assert_eq!(trim_quotes("\"'x'\""), "x");
    assert!(is_whitespace('\u{a0}'));
    assert!(!is_whitespace('x'));
    assert!(starts_with("++ beta", "++"));
    assert!(!starts_with("+", "++"));
    assert_eq!(split("", ' '), strings(&[""]));
    assert_eq!(split("a:b::c", ':'), strings(&["a", "b", "", "c"]));
    assert_eq!(replace("aaa", "aa", "b"), "ba");
    assert_eq!(replace("x{v}y{v}", "{v}", "1.0"), "x1.0y1.0");
}
