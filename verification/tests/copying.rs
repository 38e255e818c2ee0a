use codex_accounts::auth::check_auth_contents;
use codex_accounts::copy::{
    temporary_name, CopyAction, CopyContext, CopyEvent, CopyMachine, CopyTarget, EntryKind, TempOutcome,
};
use codex_accounts::commands::{copy_context, save, use_profile, CopyPlan, PathDisplays};
use codex_accounts::error::AccountsError;
use codex_accounts::paths::{HomeEnv, StoragePath};

/// An in-memory stand-in for the files a copy touches.
struct FakeFs {
    source_kind: Option<EntryKind>,
    source: Vec<u8>,
    destination: Option<Vec<u8>>,
    destination_is_symlink: bool,
    temporary: Option<Vec<u8>>,
    clashes: u32,
    fail_write: bool,
    fail_rename: bool,
    log: Vec<String>,
}

impl FakeFs {
    fn new(source: &[u8]) -> Self {
        FakeFs {
            source_kind: Some(EntryKind::File),
            source: source.to_vec(),
            destination: None,
            destination_is_symlink: false,
            temporary: None,
            clashes: 0,
            fail_write: false,
            fail_rename: false,
            log: Vec::new(),
        }
    }
}

fn context(overwrite: bool, root_is_profile_dir: bool) -> CopyContext {
    CopyContext {
        overwrite,
        has_parent: true,
        root_is_profile_dir,
        source_display: "src".to_string(),
        destination_display: "dst".to_string(),
        parent_display: "parent".to_string(),
        root_display: "root".to_string(),
        exists_label: "personal".to_string(),
    }
}

fn drive(fs: &mut FakeFs, ctx: CopyContext) -> Result<(), AccountsError> {
    let (mut machine, mut action) = CopyMachine::new(ctx);
    loop {
        let event = match action {
            CopyAction::Finish(r) => return r,
            CopyAction::InspectSource => CopyEvent::Inspected(match fs.source_kind {
                Some(k) => Ok(k),
                None => Err("missing".to_string()),
            }),
            CopyAction::ReadSource => CopyEvent::Read(Ok(fs.source.clone())),
            CopyAction::CreateDir(t) => {
                fs.log.push(format!("mkdir {:?}", t == CopyTarget::ProfileRoot));
                CopyEvent::Completed(Ok(()))
            }
            CopyAction::Restrict(t, mode) => {
                fs.log.push(format!("chmod {} {:o}", target_name(t), mode));
                CopyEvent::Completed(Ok(()))
            }
            CopyAction::CheckDestinationExists => CopyEvent::Answered(fs.destination.is_some()),
            CopyAction::CheckDestinationSymlink => CopyEvent::Answered(fs.destination_is_symlink),
            CopyAction::CreateTemporary => {
                if fs.clashes > 0 {
                    fs.clashes -= 1;
                    CopyEvent::TemporaryCreated(TempOutcome::AlreadyExists("exists".to_string()))
                } else {
                    fs.temporary = Some(Vec::new());
                    CopyEvent::TemporaryCreated(TempOutcome::Created)
                }
            }
            CopyAction::WriteTemporary => {
                if fs.fail_write {
                    CopyEvent::Completed(Err("disk full".to_string()))
                } else {
                    fs.temporary = Some(machine.data().to_vec());
                    CopyEvent::Completed(Ok(()))
                }
            }
            CopyAction::RemoveTemporary => {
                fs.log.push("remove temp".to_string());
                fs.temporary = None;
                CopyEvent::Completed(Ok(()))
            }
            CopyAction::RenameTemporary => {
                if fs.fail_rename {
                    CopyEvent::Completed(Err("busy".to_string()))
                } else {
                    fs.destination = fs.temporary.take();
                    CopyEvent::Completed(Ok(()))
                }
            }
        };
        assert!(machine.accepts(&event));
        action = machine.step(event);
    }
}

fn target_name(t: CopyTarget) -> &'static str {
    match t {
        CopyTarget::ProfileRoot => "root",
        CopyTarget::Parent => "parent",
        CopyTarget::Temporary => "temp",
        CopyTarget::Destination => "dst",
    }
}

fn message(r: Result<(), AccountsError>) -> String {
    match r {
        Err(e) => e.message(),
        Ok(()) => "ok".to_string(),
    }
}

fn planned_context(plan: &CopyPlan) -> CopyContext {
    copy_context(
        plan,
        PathDisplays {
            source: "src".to_string(),
            destination: "dst".to_string(),
            parent: "parent".to_string(),
            root: "root".to_string(),
        },
    )
}

fn tmp_home() -> StoragePath {
    StoragePath::plain("/tmp/h".to_string())
}

fn tmp_env() -> HomeEnv {
    HomeEnv { codex_home: None, home: Some("/home/u".to_string()), user_profile: None }
}

#[test]
fn saves_and_activates_a_profile() {
    // save: the active login is copied into the profile.
    let save_plan = save(&tmp_home(), "personal", None, false, &tmp_env()).ok().unwrap();
    let mut saving = FakeFs::new(br#"{"account":"personal"}"#);
    assert_eq!(message(drive(&mut saving, planned_context(&save_plan))), "ok");
    assert_eq!(saving.destination.as_deref(), Some(&br#"{"account":"personal"}"#[..]));
    // use: the profile is copied over another active login.
    let use_plan = use_profile(&tmp_home(), "personal").ok().unwrap();
    let mut activate = FakeFs::new(saving.destination.as_deref().unwrap());
    activate.destination = Some(br#"{"account":"work"}"#.to_vec());
    assert_eq!(message(drive(&mut activate, planned_context(&use_plan))), "ok");
    assert_eq!(activate.destination.as_deref(), Some(&br#"{"account":"personal"}"#[..]));
    // `use` must not touch the grandparent of the active file.
    assert!(!activate.log.iter().any(|l| l.contains("root") || l.contains("true")));
    assert!(saving.log.iter().any(|l| l == "chmod root 700"));
}

#[test]
fn planned_contexts() {
    let save_plan = save(&tmp_home(), "personal", None, false, &tmp_env()).ok().unwrap();
    let ctx = planned_context(&save_plan);
    assert!(ctx.has_parent && ctx.root_is_profile_dir && !ctx.overwrite);
    assert_eq!(ctx.exists_label, "personal");
    let forced = save(&tmp_home(), "personal", None, true, &tmp_env()).ok().unwrap();
    assert!(planned_context(&forced).overwrite);
    let use_plan = use_profile(&tmp_home(), "personal").ok().unwrap();
    let ctx = planned_context(&use_plan);
    assert!(ctx.has_parent && !ctx.root_is_profile_dir && ctx.overwrite);
    assert_eq!(ctx.exists_label, "dst");
    // An existing profile is refused by name.
    let mut fs = FakeFs::new(b"{}");
    fs.destination = Some(b"{\"old\":1}".to_vec());
    assert_eq!(
        message(drive(&mut fs, planned_context(&save_plan))),
        "Profile already exists: personal (use --force)"
    );
    assert_eq!(fs.destination.as_deref(), Some(&b"{\"old\":1}"[..]));
}

#[test]
fn permissions_are_restricted_in_order() {
    let mut fs = FakeFs::new(b"{}");
    assert_eq!(message(drive(&mut fs, context(false, true))), "ok");
    assert_eq!(
        fs.log,
        vec![
            "mkdir true",
            "chmod root 700",
            "mkdir false",
            "chmod parent 700",
            "chmod temp 600",
            "chmod dst 600",
            "chmod parent 700",
        ]
    );
}

#[test]
fn existing_profile_needs_force() {
    let mut fs = FakeFs::new(b"{}");
    fs.destination = Some(b"{\"old\":1}".to_vec());
    assert_eq!(
        message(drive(&mut fs, context(false, true))),
        "Profile already exists: personal (use --force)"
    );
    assert_eq!(fs.destination.as_deref(), Some(&b"{\"old\":1}"[..]));
    assert_eq!(message(drive(&mut fs, context(true, true))), "ok");
    assert_eq!(fs.destination.as_deref(), Some(&b"{}"[..]));
}

#[test]
fn symlink_destination_is_refused() {
    let mut fs = FakeFs::new(b"{}");
    fs.destination_is_symlink = true;
    assert_eq!(message(drive(&mut fs, context(true, true))), "Refusing to replace symlink: dst");
}

#[test]
fn source_problems() {
    let mut missing = FakeFs::new(b"{}");
    missing.source_kind = None;
    assert_eq!(
        message(drive(&mut missing, context(false, true))),
        "Authentication file not found: src (missing)"
    );
    let mut dir = FakeFs::new(b"{}");
    dir.source_kind = Some(EntryKind::Directory);
    assert_eq!(
        message(drive(&mut dir, context(false, true))),
        "Authentication path is not a regular file: src"
    );
    let mut empty = FakeFs::new(b"");
    assert_eq!(message(drive(&mut empty, context(false, true))), "Authentication file is empty: src");
    let mut array = FakeFs::new(b"[1, 2]");
    assert_eq!(
        message(drive(&mut array, context(false, true))),
        "Authentication file must contain a JSON object: src"
    );
    let mut broken = FakeFs::new(b"{\"a\":");
    let text = message(drive(&mut broken, context(false, true)));
    assert!(text.starts_with("Authentication file is not valid JSON: src ("), "{text}");
    assert!(text.ends_with("at line 1 column 5)"), "{text}");
    assert!(broken.destination.is_none());
}

#[test]
fn no_parent_directory() {
    let mut fs = FakeFs::new(b"{}");
    let mut ctx = context(false, false);
    ctx.has_parent = false;
    assert_eq!(message(drive(&mut fs, ctx)), "Destination has no parent directory");
}

#[test]
fn temporary_name_clashes_are_retried_ten_times() {
    let mut ten = FakeFs::new(b"{}");
    ten.clashes = 10;
    assert_eq!(message(drive(&mut ten, context(false, true))), "ok");
    let mut eleven = FakeFs::new(b"{}");
    eleven.clashes = 11;
    assert_eq!(
        message(drive(&mut eleven, context(false, true))),
        "Cannot create temporary auth file: exists"
    );
}

#[test]
fn failed_write_or_rename_removes_the_temporary_file() {
    let mut w = FakeFs::new(b"{}");
    w.fail_write = true;
    assert_eq!(
        message(drive(&mut w, context(false, true))),
        "Cannot write temporary auth file: disk full"
    );
    assert!(w.log.iter().any(|l| l == "remove temp"));
    assert!(w.destination.is_none());
    let mut r = FakeFs::new(b"{}");
    r.fail_rename = true;
    assert_eq!(message(drive(&mut r, context(false, true))), "Cannot activate dst: busy");
    assert!(r.log.iter().any(|l| l == "remove temp"));
    assert!(r.temporary.is_none());
}

#[test]
fn auth_contents_checks() {
    let p = "file".to_string();
    assert!(check_auth_contents(&p, b"{\"k\": [1, 2]}").is_ok());
    assert!(check_auth_contents(&p, b"  {}  ").is_ok());
    assert!(matches!(check_auth_contents(&p, b""), Err(AccountsError::AuthEmpty { .. })));
    assert!(matches!(check_auth_contents(&p, b"null"), Err(AccountsError::AuthNotObject { .. })));
    assert!(matches!(check_auth_contents(&p, b"\"s\""), Err(AccountsError::AuthNotObject { .. })));
    assert!(matches!(
        check_auth_contents(&p, b"{} {}"),
        Err(AccountsError::AuthInvalidJson { .. })
    ));
    assert!(matches!(
        check_auth_contents(&p, b"not json"),
        Err(AccountsError::AuthInvalidJson { .. })
    ));
}

#[test]
fn temporary_file_names() {
    assert_eq!(temporary_name("auth.json", 4321, 1_700_000_000_123_456_789), ".auth.json.4321.1700000000123456789");
    assert_eq!(temporary_name("auth.json", 0, 0), ".auth.json.0.0");
    assert_eq!(temporary_name("x", u32::MAX, u128::MAX), format!(".x.{}.{}", u32::MAX, u128::MAX));
}
