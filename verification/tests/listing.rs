use codex_accounts::commands::{
    check_clear, check_removal, clear_message, remove_profile, save, show_paths, use_profile,
};
use codex_accounts::copy::EntryKind;
use codex_accounts::error::AccountsError;
use codex_accounts::listing::{listing_lines, select_profiles, ProfileEntry};
use codex_accounts::paths::{HomeEnv, StoragePath};
use codex_accounts::text::{completion_script, usage_text};
use codex_accounts::cli::Shell;

fn entry(name: &str, is_dir: bool, has_auth_file: bool) -> ProfileEntry {
    ProfileEntry { name: name.to_string(), is_dir, has_auth_file }
}

#[test]
fn profiles_are_filtered_and_sorted() {
    let entries = vec![
        entry("work", true, true),
        entry("Personal", true, true),
        entry("alpha", true, false),
        entry("file", false, true),
        entry(".hidden", true, true),
        entry("beta", true, true),
        entry("a.b", true, true),
    ];
    assert_eq!(select_profiles(&entries), vec!["Personal", "a.b", "beta", "work"]);
    assert!(select_profiles(&vec![]).is_empty());
}

#[test]
fn listing_marks_the_active_profile() {
    let names = vec!["personal".to_string(), "work".to_string()];
    let profiles = vec![Some(b"{\"a\":1}".to_vec()), Some(b"{\"a\":2}".to_vec())];
    let lines = listing_lines(&names, &profiles, &Some(b"{\"a\":2}".to_vec()), false);
    assert_eq!(lines, vec!["  personal", "* work"]);
    let none_active = listing_lines(&names, &profiles, &None, false);
    assert_eq!(none_active, vec!["  personal", "  work"]);
    let unreadable = listing_lines(&names, &vec![None, None], &Some(Vec::new()), false);
    assert_eq!(unreadable, vec!["  personal", "  work"]);
    assert_eq!(listing_lines(&vec![], &vec![], &None, false), vec!["No saved profiles."]);
    assert!(listing_lines(&vec![], &vec![], &None, true).is_empty());
}

fn home() -> StoragePath {
    StoragePath::plain("/h".to_string())
}

fn no_env() -> HomeEnv {
    HomeEnv { codex_home: None, home: Some("/u".to_string()), user_profile: None }
}

#[test]
fn save_and_use_plans() {
    let plan = save(&home(), "work", None, false, &no_env()).ok().unwrap();
    assert_eq!(plan.source.parts, vec!["auth.json"]);
    assert_eq!(plan.destination.parts, vec!["account-profiles", "work", "auth.json"]);
    assert!(!plan.overwrite);
    assert_eq!(plan.success_message, "Saved profile 'work'.");
    let from = save(&home(), "work", Some("~/b.json"), true, &no_env()).ok().unwrap();
    assert_eq!(from.source.base, "/u");
    assert_eq!(from.source.parts, vec!["b.json"]);
    assert!(from.overwrite);
    assert!(matches!(
        save(&home(), "a/b", None, false, &no_env()),
        Err(AccountsError::InvalidProfileName)
    ));
    let act = use_profile(&home(), "work").ok().unwrap();
    assert_eq!(act.source.parts, vec!["account-profiles", "work", "auth.json"]);
    assert_eq!(act.destination.parts, vec!["auth.json"]);
    assert!(act.overwrite);
    assert_eq!(act.success_message, "Activated profile 'work'. Start a new Codex process to use it.");
}

#[test]
fn removal_decisions() {
    let plan = remove_profile(&home(), "work").ok().unwrap();
    assert_eq!(plan.target.parts, vec!["account-profiles", "work", "auth.json"]);
    assert_eq!(plan.success_message, "Removed profile 'work'.");
    let name = "work".to_string();
    let path = "/h/account-profiles/work/auth.json".to_string();
    assert!(check_removal(&name, &path, Ok(EntryKind::File)).is_ok());
    let text = |r: Result<(), AccountsError>| r.err().map(|e| e.message()).unwrap();
    assert_eq!(text(check_removal(&name, &path, Err("gone".to_string()))), "Profile not found: work");
    assert_eq!(
        text(check_removal(&name, &path, Ok(EntryKind::Symlink))),
        "Refusing to remove symlink: /h/account-profiles/work/auth.json"
    );
    assert_eq!(
        text(check_removal(&name, &path, Ok(EntryKind::Directory))),
        "Refusing to remove non-file profile: /h/account-profiles/work/auth.json"
    );
}

#[test]
fn clearing_the_active_login() {
    let p = "/h/auth.json".to_string();
    assert_eq!(check_clear(&p, Ok(None)).ok(), Some(false));
    assert_eq!(check_clear(&p, Ok(Some(EntryKind::File))).ok(), Some(true));
    assert_eq!(check_clear(&p, Ok(Some(EntryKind::Symlink))).ok(), Some(true));
    assert!(matches!(
        check_clear(&p, Ok(Some(EntryKind::Directory))),
        Err(AccountsError::ActiveNotFile { .. })
    ));
    assert_eq!(clear_message(false), "No active login to clear.");
}

#[test]
fn paths_report() {
    let lines = show_paths(&home());
    assert_eq!(lines.len(), 3);
    assert_eq!(lines[0].0, "CODEX_HOME: ");
    assert!(lines[0].1.parts.is_empty());
    assert_eq!(lines[1].1.parts, vec!["auth.json"]);
    assert_eq!(lines[2].0, "Profiles:    ");
    assert_eq!(lines[2].1.parts, vec!["account-profiles"]);
}

#[test]
fn help_and_completion_texts() {
    assert!(usage_text().starts_with("Usage: codex-accounts [OPTIONS] <COMMAND>"));
    assert!(completion_script(Shell::Bash).contains("complete -F _codex_accounts codex-accounts"));
    assert!(completion_script(Shell::Zsh).starts_with("#compdef codex-accounts"));
    assert!(completion_script(Shell::Fish).contains("__fish_use_subcommand"));
    assert!(completion_script(Shell::PowerShell).contains("Register-ArgumentCompleter"));
}

#[test]
fn error_messages() {
    let e = AccountsError::SavedButUnrestricted { path: "p".to_string(), cause: "c".to_string() };
    assert_eq!(e.message(), "Profile was saved, but permissions could not be restricted on p: c");
    let e = AccountsError::AuthNotFound { path: "p".to_string(), cause: "c".to_string() };
    assert_eq!(e.message(), "Authentication file not found: p (c)");
    let e = AccountsError::CannotRead { path: "r".to_string(), cause: "c".to_string() };
    assert_eq!(e.message(), "Cannot read r: c");
}
