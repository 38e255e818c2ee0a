use vstd::prelude::*;
use vstd::string::*;

use crate::copy::{CopyContext, EntryKind};
use crate::error::AccountsError;
use crate::name::is_valid_name;
use crate::paths::{
    active_auth,
    active_auth_spec,
    expand_user,
    expand_user_spec,
    profile_auth,
    profile_auth_spec,
    profile_root,
    profile_root_spec,
    HomeEnv,
    PathModel,
    StoragePath,
};
use crate::strings::concat3;

verus! {

/// What a copy writes to.
pub enum DestinationKind {
    /// The credential file of the named profile.
    Profile { name: String },
    /// The active credential file.
    Active,
}

/// A credential copy to perform, and what to print once it succeeded.
pub struct CopyPlan {
    pub source: StoragePath,
    pub destination: StoragePath,
    pub kind: DestinationKind,
    /// Replace an existing destination.
    pub overwrite: bool,
    pub success_message: String,
}

/// "Saved profile 'NAME'."
pub open spec fn saved_text(name: Seq<char>) -> Seq<char> {
    "Saved profile '"@ + name + "'."@
}

/// "Activated profile 'NAME'. Start a new Codex process to use it."
pub open spec fn activated_text(name: Seq<char>) -> Seq<char> {
    "Activated profile '"@ + name + "'. Start a new Codex process to use it."@
}

/// "Removed profile 'NAME'."
pub open spec fn removed_text(name: Seq<char>) -> Seq<char> {
    "Removed profile '"@ + name + "'."@
}

/// `save NAME [--from PATH] [--force]`: copies the credential file at
/// `source` (with `~` expanded), or else the active one, into the profile
/// `name`; an existing profile is replaced only with `force`.
pub fn save(home: &StoragePath, name: &str, source: Option<&str>, force: bool, env: &HomeEnv) -> (r:
    Result<CopyPlan, AccountsError>)
    ensures
        r is Ok <==> is_valid_name(name@),
        r matches Err(e) ==> e == AccountsError::InvalidProfileName,
        r matches Ok(plan) ==> {
            &&& plan.source@ == match source {
                Some(s) => expand_user_spec(s@, env@),
                None => active_auth_spec(home@),
            }
            &&& plan.destination@ == profile_auth_spec(home@, name@)
            &&& plan.kind matches DestinationKind::Profile { name: n } && n@ == name@
            &&& plan.overwrite == force
            &&& plan.success_message@ == saved_text(name@)
        },
{
    let source = match source {
        Some(s) => expand_user(s, env),
        None => active_auth(home),
    };
    let destination = profile_auth(home, name)?;
    Ok(
        CopyPlan {
            source,
            destination,
            kind: DestinationKind::Profile { name: String::from_str(name) },
            overwrite: force,
            success_message: concat3("Saved profile '", name, "'."),
        },
    )
}

/// `use NAME`: copies the profile's credential file over the active one.
pub fn use_profile(home: &StoragePath, name: &str) -> (r: Result<CopyPlan, AccountsError>)
    ensures
        r is Ok <==> is_valid_name(name@),
        r matches Err(e) ==> e == AccountsError::InvalidProfileName,
        r matches Ok(plan) ==> {
            &&& plan.source@ == profile_auth_spec(home@, name@)
            &&& plan.destination@ == active_auth_spec(home@)
            &&& plan.kind is Active
            &&& plan.overwrite
            &&& plan.success_message@ == activated_text(name@)
        },
{
    let source = profile_auth(home, name)?;
    Ok(
        CopyPlan {
            source,
            destination: active_auth(home),
            kind: DestinationKind::Active,
            overwrite: true,
            success_message: concat3(
                "Activated profile '",
                name,
                "'. Start a new Codex process to use it.",
            ),
        },
    )
}

/// How the paths of a copy are shown in messages.
pub struct PathDisplays {
    pub source: String,
    pub destination: String,
    /// The directory that holds the destination.
    pub parent: String,
    /// The directory above that one.
    pub root: String,
}

/// What a copy knows about its paths before it starts. Every planned
/// destination ends in `auth.json`, so it has a parent directory. The
/// profile root (the destination's grandparent, named `account-profiles`)
/// is made private only when the destination is a profile's file: for the
/// active file the grandparent is the home directory's parent, which is
/// left alone. An existing profile is named by the profile name; the
/// active file is always replaced, and its label is the destination as
/// shown.
pub fn copy_context(plan: &CopyPlan, shown: PathDisplays) -> (r: CopyContext)
    ensures
        r.overwrite == plan.overwrite,
        r.has_parent == (plan.destination@.parts.len() > 0),
        r.root_is_profile_dir == (plan.kind is Profile),
        match plan.kind {
            DestinationKind::Profile { name } => r.exists_label == name,
            DestinationKind::Active => r.exists_label == shown.destination,
        },
        r.source_display == shown.source,
        r.destination_display == shown.destination,
        r.parent_display == shown.parent,
        r.root_display == shown.root,
{
    let (root_is_profile_dir, exists_label) = match &plan.kind {
        DestinationKind::Profile { name } => (true, name.clone()),
        DestinationKind::Active => (false, shown.destination.clone()),
    };
    CopyContext {
        overwrite: plan.overwrite,
        has_parent: plan.destination.parts.len() > 0,
        root_is_profile_dir,
        source_display: shown.source,
        destination_display: shown.destination,
        parent_display: shown.parent,
        root_display: shown.root,
        exists_label,
    }
}

/// The copy that `save` plans writes into a profile's own directory, right
/// below the profile root, so its grandparent is the profile root and its
/// parent is named after the profile; the copy that `use` plans writes the
/// active file, whose parent is the home directory.
pub proof fn lemma_planned_destinations(home: PathModel, name: Seq<char>)
    ensures
        profile_auth_spec(home, name).parts.len() >= 3,
        profile_auth_spec(home, name).parts[profile_auth_spec(home, name).parts.len() - 3]
            == "account-profiles"@,
        profile_auth_spec(home, name).parts[profile_auth_spec(home, name).parts.len() - 2] == name,
        active_auth_spec(home).parts.len() == home.parts.len() + 1,
        active_auth_spec(home).parts.drop_last() == home.parts,
{
    assert(active_auth_spec(home).parts.drop_last() =~= home.parts);
}

/// A profile file to delete, and what to print once it is gone.
pub struct RemovePlan {
    pub target: StoragePath,
    pub success_message: String,
}

/// `remove NAME`: the credential file of the profile to delete.
pub fn remove_profile(home: &StoragePath, name: &str) -> (r: Result<RemovePlan, AccountsError>)
    ensures
        r is Ok <==> is_valid_name(name@),
        r matches Err(e) ==> e == AccountsError::InvalidProfileName,
        r matches Ok(plan) ==> plan.target@ == profile_auth_spec(home@, name@)
            && plan.success_message@ == removed_text(name@),
{
    let target = profile_auth(home, name)?;
    Ok(RemovePlan { target, success_message: concat3("Removed profile '", name, "'.") })
}

/// Whether the profile file may be deleted, given what `symlink_metadata`
/// said of it: a missing profile is reported as not found, and only a
/// regular file is deleted (never a symlink).
pub fn check_removal(name: &String, target_display: &String, stat: Result<EntryKind, String>) -> (r:
    Result<(), AccountsError>)
    ensures
        match stat {
            Err(_) => r == Err::<(), AccountsError>(AccountsError::ProfileNotFound { name: *name }),
            Ok(EntryKind::Symlink) => r == Err::<(), AccountsError>(
                AccountsError::RefuseRemoveSymlink { path: *target_display },
            ),
            Ok(EntryKind::File) => r is Ok,
            Ok(_) => r == Err::<(), AccountsError>(
                AccountsError::RefuseRemoveNonFile { path: *target_display },
            ),
        },
{
    match stat {
        Err(_) => Err(AccountsError::ProfileNotFound { name: name.clone() }),
        Ok(EntryKind::Symlink) => Err(
            AccountsError::RefuseRemoveSymlink { path: target_display.clone() },
        ),
        Ok(EntryKind::File) => Ok(()),
        Ok(_) => Err(AccountsError::RefuseRemoveNonFile { path: target_display.clone() }),
    }
}

/// `new`: the active credential file, which is the only file it removes.
pub fn clear_target(home: &StoragePath) -> (r: StoragePath)
    ensures
        r@ == active_auth_spec(home@),
{
    active_auth(home)
}

/// Whether `new` removes the active credential file, given what
/// `symlink_metadata` said of it (`Ok(None)` where it does not exist): a
/// missing file leaves nothing to do; a file or a symlink is removed (the
/// link, not its target); anything else is refused.
pub fn check_clear(path_display: &String, stat: Result<Option<EntryKind>, String>) -> (r: Result<
    bool,
    AccountsError,
>)
    ensures
        match stat {
            Err(cause) => r == Err::<bool, AccountsError>(
                AccountsError::CannotRead { path: *path_display, cause },
            ),
            Ok(None) => r == Ok::<bool, AccountsError>(false),
            Ok(Some(EntryKind::File)) | Ok(Some(EntryKind::Symlink)) => r == Ok::<
                bool,
                AccountsError,
            >(true),
            Ok(Some(_)) => r == Err::<bool, AccountsError>(
                AccountsError::ActiveNotFile { path: *path_display },
            ),
        },
{
    match stat {
        Err(cause) => Err(AccountsError::CannotRead { path: path_display.clone(), cause }),
        Ok(None) => Ok(false),
        Ok(Some(EntryKind::File)) => Ok(true),
        Ok(Some(EntryKind::Symlink)) => Ok(true),
        Ok(Some(_)) => Err(AccountsError::ActiveNotFile { path: path_display.clone() }),
    }
}

/// What `new` prints.
pub open spec fn clear_text(removed: bool) -> Seq<char> {
    if removed {
        "Cleared the active login. Saved profiles were not changed."@
    } else {
        "No active login to clear."@
    }
}

/// What `new` prints, as `clear_text` says.
pub fn clear_message(removed: bool) -> (r: String)
    ensures
        r@ == clear_text(removed),
{
    if removed {
        String::from_str("Cleared the active login. Saved profiles were not changed.")
    } else {
        String::from_str("No active login to clear.")
    }
}

/// `path`: the labelled locations it shows, in order: the Codex data
/// directory, the active credential file and the profile root.
pub fn show_paths(home: &StoragePath) -> (r: Vec<(String, StoragePath)>)
    ensures
        r@.len() == 3,
        r@[0].0@ == "CODEX_HOME: "@ && r@[0].1@ == home@,
        r@[1].0@ == "Active auth: "@ && r@[1].1@ == active_auth_spec(home@),
        r@[2].0@ == "Profiles:    "@ && r@[2].1@ == profile_root_spec(home@),
{
    let mut out: Vec<(String, StoragePath)> = Vec::new();
    out.push((String::from_str("CODEX_HOME: "), home.duplicate()));
    out.push((String::from_str("Active auth: "), active_auth(home)));
    out.push((String::from_str("Profiles:    "), profile_root(home)));
    out
}

} // verus!
