use codex_accounts::paths::{HomeEnv, StoragePath};
use codex_accounts::{active_auth, codex_home, expand_user, profile_auth, profile_root};

fn env(codex: Option<&str>, home: Option<&str>, profile: Option<&str>) -> HomeEnv {
    HomeEnv {
        codex_home: codex.map(|s| s.to_string()),
        home: home.map(|s| s.to_string()),
        user_profile: profile.map(|s| s.to_string()),
    }
}

fn parts(p: &StoragePath) -> Vec<&str> {
    p.parts.iter().map(|s| s.as_str()).collect()
}

#[test]
fn tilde_expands_to_home() {
    let expanded = expand_user("~", &env(None, Some("/home/u"), None));
    assert!(!expanded.base.is_empty());
    assert_eq!(expanded.base, "/home/u");
    assert!(expanded.parts.is_empty());
    let unexpanded = expand_user("~", &env(None, None, None));
    assert_eq!(unexpanded.base, "~");
}

#[test]
fn tilde_prefix_forms() {
    let e = env(None, None, Some("C:\\Users\\u"));
    let p = expand_user("~\\a\\b.json", &e);
    assert_eq!(p.base, "C:\\Users\\u");
    assert_eq!(parts(&p), vec!["a/b.json"]);
    let q = expand_user("~/x", &env(None, Some("/h"), Some("/p")));
    assert_eq!(q.base, "/h");
    assert_eq!(parts(&q), vec!["x"]);
    let r = expand_user("~user/x", &env(None, Some("/h"), None));
    assert_eq!(r.base, "~user/x");
    assert!(r.parts.is_empty());
    let s = expand_user("~/x", &env(None, None, None));
    assert_eq!(s.base, "~/x");
}

#[test]
fn codex_home_resolution_order() {
    let all = env(Some("~/codex"), Some("/h"), Some("/p"));
    let o = codex_home(Some("/override"), &all);
    assert_eq!(o.base, "/override");
    let c = codex_home(None, &all);
    assert_eq!(c.base, "/h");
    assert_eq!(parts(&c), vec!["codex"]);
    let h = codex_home(None, &env(None, Some("/h"), Some("/p")));
    assert_eq!(h.base, "/h");
    assert_eq!(parts(&h), vec![".codex"]);
    let u = codex_home(None, &env(None, None, Some("/p")));
    assert_eq!(u.base, "/p");
    assert_eq!(parts(&u), vec![".codex"]);
    let n = codex_home(None, &env(None, None, None));
    assert_eq!(n.base, ".codex");
    assert!(n.parts.is_empty());
}

#[test]
fn storage_layout() {
    let home = StoragePath::plain("/h".to_string());
    assert_eq!(parts(&profile_root(&home)), vec!["account-profiles"]);
    assert_eq!(parts(&active_auth(&home)), vec!["auth.json"]);
    let p = profile_auth(&home, "work").ok().unwrap();
    assert_eq!(p.base, "/h");
    assert_eq!(parts(&p), vec!["account-profiles", "work", "auth.json"]);
    assert!(profile_auth(&home, "../escape").is_err());
}
