use codex_accounts::cli::{entry_point, Command, Entry, Shell};
use codex_accounts::error::AccountsError;
use codex_accounts::{require_no_more_args, run};

fn args(a: &[&str]) -> Vec<String> {
    a.iter().map(|s| s.to_string()).collect()
}

fn err_text(a: &[&str]) -> String {
    match run(&args(a)) {
        Err(e) => e.message(),
        Ok(_) => panic!("parsed"),
    }
}

#[test]
fn equals_forms_parse() {
    let home_str = "/tmp/some home";
    let inv = run(&args(&[&format!("--codex-home={home_str}"), "save", "personal"]))
        .ok()
        .unwrap();
    assert_eq!(inv.codex_home.as_deref(), Some(home_str));
    match inv.command {
        Command::Save { name, source, force } => {
            assert_eq!(name, "personal");
            assert!(source.is_none());
            assert!(!force);
        }
        _ => panic!("not save"),
    }
    let spaced = run(&args(&["--codex-home", home_str, "save", "personal"])).ok().unwrap();
    assert_eq!(spaced.codex_home.as_deref(), Some(home_str));
}

#[test]
fn save_options_parse() {
    let inv = run(&args(&["save", "work", "--from=~/a.json", "--force"])).ok().unwrap();
    match inv.command {
        Command::Save { name, source, force } => {
            assert_eq!(name, "work");
            assert_eq!(source.as_deref(), Some("~/a.json"));
            assert!(force);
        }
        _ => panic!("not save"),
    }
    let inv = run(&args(&["save", "work", "--from", "b.json"])).ok().unwrap();
    match inv.command {
        Command::Save { source, force, .. } => {
            assert_eq!(source.as_deref(), Some("b.json"));
            assert!(!force);
        }
        _ => panic!("not save"),
    }
}

#[test]
fn parse_errors() {
    assert_eq!(err_text(&["--codex-home"]), "--codex-home requires a path");
    assert_eq!(err_text(&["--codex-home=", "list"]), "--codex-home requires a path");
    assert_eq!(err_text(&["--codex-home", "/x"]), "Missing command");
    assert_eq!(err_text(&["save"]), "Save requires a profile name");
    assert_eq!(err_text(&["save", "a", "--from"]), "--from requires a path");
    assert_eq!(err_text(&["save", "a", "--from="]), "--from requires a path");
    assert_eq!(err_text(&["save", "a", "--bogus"]), "Unknown save option: --bogus");
    assert_eq!(err_text(&["use"]), "Use requires a profile name");
    assert_eq!(err_text(&["use", "a", "b"]), "Unexpected argument: b");
    assert_eq!(err_text(&["remove"]), "Remove requires a profile name");
    assert_eq!(err_text(&["list", "x"]), "Unexpected argument: x");
    assert_eq!(err_text(&["path", "x"]), "Unexpected argument: x");
    assert_eq!(err_text(&["frobnicate"]), "Unknown command: frobnicate");
    assert_eq!(err_text(&["completion"]), "Completion requires a shell name");
    assert_eq!(err_text(&["completion", "tcsh"]), "Unsupported shell: tcsh");
}

#[test]
fn commands_and_aliases() {
    for word in ["remove", "delete", "rm"] {
        match run(&args(&[word, "w"])).ok().unwrap().command {
            Command::Remove { name } => assert_eq!(name, "w"),
            _ => panic!("not remove"),
        }
    }
    for word in ["new", "restart", "clear", "logout-local"] {
        assert!(matches!(run(&args(&[word])).ok().unwrap().command, Command::New));
    }
    assert!(matches!(
        run(&args(&["list", "--plain"])).ok().unwrap().command,
        Command::List { plain: true }
    ));
    assert!(matches!(
        run(&args(&["list"])).ok().unwrap().command,
        Command::List { plain: false }
    ));
    assert!(matches!(run(&args(&["path"])).ok().unwrap().command, Command::Path));
    assert!(matches!(run(&args(&["help"])).ok().unwrap().command, Command::Help));
    assert!(matches!(
        run(&args(&["completion", "fish"])).ok().unwrap().command,
        Command::Completion { shell: Shell::Fish }
    ));
    let inv = run(&args(&["--no-color", "--plain", "use", "p"])).ok().unwrap();
    assert!(inv.no_color && inv.plain);
    match inv.command {
        Command::Use { name } => assert_eq!(name, "p"),
        _ => panic!("not use"),
    }
}

#[test]
fn no_more_args() {
    let a = args(&["x", "y"]);
    assert!(require_no_more_args(&a, 2).is_ok());
    match require_no_more_args(&a, 1) {
        Err(AccountsError::UnexpectedArgument(s)) => assert_eq!(s, "y"),
        _ => panic!("expected an error"),
    }
}

#[test]
fn entry_decisions() {
    assert!(entry_point(&args(&[])) == Entry::ShowUsage { exit_code: 2 });
    assert!(entry_point(&args(&["list", "-h"])) == Entry::ShowUsage { exit_code: 0 });
    assert!(entry_point(&args(&["--help"])) == Entry::ShowUsage { exit_code: 0 });
    assert!(entry_point(&args(&["list"])) == Entry::Run);
}

#[test]
fn codex_home_is_taken_once() {
    assert_eq!(err_text(&["--codex-home", "/a", "--codex-home", "/b", "list"]), "Unknown command: --codex-home");
    assert_eq!(err_text(&["--codex-home=/a", "--codex-home=/b", "list"]), "Unknown command: --codex-home=/b");
    let inv = run(&args(&["--plain", "--codex-home", "/a", "--no-color", "list"])).ok().unwrap();
    assert_eq!(inv.codex_home.as_deref(), Some("/a"));
    assert!(inv.plain && inv.no_color);
}
