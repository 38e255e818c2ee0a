use vstd::prelude::*;
use vstd::string::*;

use crate::error::AccountsError;
use crate::name::{is_valid_name, validate_name};
use crate::strings::{backslashes_to_slashes, has_prefix, replace_backslashes, starts_with};

verus! {

/// A location on disk: a base path, as the user or the environment gave it,
/// followed by path components that are joined onto it in order.
pub struct StoragePath {
    pub base: String,
    pub parts: Vec<String>,
}

/// The mathematical value of a `StoragePath`.
pub struct PathModel {
    pub base: Seq<char>,
    pub parts: Seq<Seq<char>>,
}

impl PathModel {
    /// This location with one more component joined onto it.
    pub open spec fn child(self, part: Seq<char>) -> PathModel {
        PathModel { base: self.base, parts: self.parts.push(part) }
    }

    /// A location that is just a base path.
    pub open spec fn plain(base: Seq<char>) -> PathModel {
        PathModel { base, parts: Seq::empty() }
    }
}

impl View for StoragePath {
    type V = PathModel;

    open spec fn view(&self) -> PathModel {
        PathModel { base: self.base@, parts: self.parts@.map_values(|p: String| p@) }
    }
}

/// The environment variables that decide where Codex keeps its data.
pub struct HomeEnv {
    /// `CODEX_HOME`
    pub codex_home: Option<String>,
    /// `HOME`
    pub home: Option<String>,
    /// `USERPROFILE`
    pub user_profile: Option<String>,
}

/// The mathematical value of a `HomeEnv`.
pub struct EnvModel {
    pub codex_home: Option<Seq<char>>,
    pub home: Option<Seq<char>>,
    pub user_profile: Option<Seq<char>>,
}

pub open spec fn opt_string_view(o: Option<String>) -> Option<Seq<char>> {
    match o {
        Some(s) => Some(s@),
        None => None,
    }
}

impl View for HomeEnv {
    type V = EnvModel;

    open spec fn view(&self) -> EnvModel {
        EnvModel {
            codex_home: opt_string_view(self.codex_home),
            home: opt_string_view(self.home),
            user_profile: opt_string_view(self.user_profile),
        }
    }
}

/// The user's home directory: `HOME`, else `USERPROFILE`.
pub open spec fn user_home(env: EnvModel) -> Option<Seq<char>> {
    if env.home is Some {
        env.home
    } else {
        env.user_profile
    }
}

/// `~/` or `~\` at the start of a path.
pub open spec fn has_tilde_prefix(p: Seq<char>) -> bool {
    p.len() >= 2 && p[0] == '~' && (p[1] == '/' || p[1] == '\\')
}

/// Where a path written with a leading `~` points: `~` alone is the home
/// directory, `~/rest` and `~\rest` are `rest` (with backslashes read as
/// slashes) below it; without a home directory, or without a leading `~`,
/// the path stands as written.
pub open spec fn expand_user_spec(p: Seq<char>, env: EnvModel) -> PathModel {
    if p == seq!['~'] {
        match user_home(env) {
            Some(h) => PathModel::plain(h),
            None => PathModel::plain(p),
        }
    } else if has_tilde_prefix(p) && user_home(env) is Some {
        PathModel::plain(user_home(env).unwrap()).child(backslashes_to_slashes(p.skip(2)))
    } else {
        PathModel::plain(p)
    }
}

/// The Codex data directory: the override, else `CODEX_HOME` (both with `~`
/// expanded), else `.codex` in `HOME`, else in `USERPROFILE`, else `.codex`.
pub open spec fn codex_home_spec(override_path: Option<Seq<char>>, env: EnvModel) -> PathModel {
    match override_path {
        Some(p) => expand_user_spec(p, env),
        None => match env.codex_home {
            Some(p) => expand_user_spec(p, env),
            None => match env.home {
                Some(h) => PathModel::plain(h).child(".codex"@),
                None => match env.user_profile {
                    Some(u) => PathModel::plain(u).child(".codex"@),
                    None => PathModel::plain(".codex"@),
                },
            },
        },
    }
}

/// The directory that holds one directory per saved profile.
pub open spec fn profile_root_spec(home: PathModel) -> PathModel {
    home.child("account-profiles"@)
}

/// The credential file that Codex uses.
pub open spec fn active_auth_spec(home: PathModel) -> PathModel {
    home.child("auth.json"@)
}

/// The credential file of a saved profile.
pub open spec fn profile_auth_spec(home: PathModel, name: Seq<char>) -> PathModel {
    profile_root_spec(home).child(name).child("auth.json"@)
}

fn copy_parts(parts: &Vec<String>) -> (r: Vec<String>)
    ensures
        r@.map_values(|p: String| p@) == parts@.map_values(|p: String| p@),
{
    let mut out: Vec<String> = Vec::new();
    let mut i: usize = 0;
    while i < parts.len()
        invariant
            i <= parts@.len(),
            out@.len() == i,
            forall|j: int| 0 <= j < i ==> out@[j]@ == parts@[j]@,
        decreases parts@.len() - i,
    {
        out.push(parts[i].clone());
        i = i + 1;
    }
    assert(out@.map_values(|p: String| p@) =~= parts@.map_values(|p: String| p@));
    out
}

impl StoragePath {
    /// A location that is just a base path.
    pub fn plain(base: String) -> (r: StoragePath)
        ensures
            r@ == PathModel::plain(base@),
    {
        let r = StoragePath { base, parts: Vec::new() };
        assert(r@.parts =~= Seq::<Seq<char>>::empty());
        r
    }

    /// A copy of this location.
    pub fn duplicate(&self) -> (r: StoragePath)
        ensures
            r@ == self@,
    {
        StoragePath { base: self.base.clone(), parts: copy_parts(&self.parts) }
    }

    /// This location with `part` joined onto it.
    pub fn child(&self, part: &str) -> (r: StoragePath)
        ensures
            r@ == self@.child(part@),
    {
        let mut parts = copy_parts(&self.parts);
        parts.push(String::from_str(part));
        let r = StoragePath { base: self.base.clone(), parts };
        assert(r@.parts =~= self@.parts.push(part@));
        r
    }
}

/// Expands a leading `~` as `expand_user_spec` says.
pub fn expand_user(path: &str, env: &HomeEnv) -> (r: StoragePath)
    ensures
        r@ == expand_user_spec(path@, env@),
{
    let home: Option<&String> = match &env.home {
        Some(h) => Some(h),
        None => match &env.user_profile {
            Some(u) => Some(u),
            None => None,
        },
    };
    if path.unicode_len() == 1 && path.get_char(0) == '~' {
        assert(path@ =~= seq!['~']);
        match home {
            Some(h) => StoragePath::plain(h.clone()),
            None => StoragePath::plain(String::from_str(path)),
        }
    } else {
        let tilde = starts_with(path, "~/") || starts_with(path, "~\\");
        proof {
            reveal_strlit("~/");
            reveal_strlit("~\\");
            assert("~/"@ =~= seq!['~', '/']);
            assert("~\\"@ =~= seq!['~', '\\']);
            if has_prefix(path@, "~/"@) {
                assert(path@[0] == path@.take(2)[0]);
                assert(path@[1] == path@.take(2)[1]);
            }
            if has_prefix(path@, "~\\"@) {
                assert(path@[0] == path@.take(2)[0]);
                assert(path@[1] == path@.take(2)[1]);
            }
            if has_tilde_prefix(path@) {
                if path@[1] == '/' {
                    assert(path@.take(2) =~= "~/"@);
                } else {
                    assert(path@.take(2) =~= "~\\"@);
                }
            }
            assert(tilde == has_tilde_prefix(path@));
        }
        match home {
            Some(h) if tilde => {
                let rest = path.substring_char(2, path.unicode_len());
                let suffix = replace_backslashes(rest);
                StoragePath::plain(h.clone()).child(suffix.as_str())
            },
            _ => StoragePath::plain(String::from_str(path)),
        }
    }
}

/// Resolves the Codex data directory as `codex_home_spec` says.
pub fn codex_home(override_path: Option<&str>, env: &HomeEnv) -> (r: StoragePath)
    ensures
        r@ == codex_home_spec(
            match override_path {
                Some(p) => Some(p@),
                None => None,
            },
            env@,
        ),
{
    match override_path {
        Some(p) => expand_user(p, env),
        None => match &env.codex_home {
            Some(p) => expand_user(p.as_str(), env),
            None => match &env.home {
                Some(h) => StoragePath::plain(h.clone()).child(".codex"),
                None => match &env.user_profile {
                    Some(u) => StoragePath::plain(u.clone()).child(".codex"),
                    None => StoragePath::plain(String::from_str(".codex")),
                },
            },
        },
    }
}

/// `<home>/account-profiles`
pub fn profile_root(home: &StoragePath) -> (r: StoragePath)
    ensures
        r@ == profile_root_spec(home@),
{
    home.child("account-profiles")
}

/// `<home>/auth.json`
pub fn active_auth(home: &StoragePath) -> (r: StoragePath)
    ensures
        r@ == active_auth_spec(home@),
{
    home.child("auth.json")
}

/// `<home>/account-profiles/<name>/auth.json`, for a valid profile name.
pub fn profile_auth(home: &StoragePath, name: &str) -> (r: Result<StoragePath, AccountsError>)
    ensures
        r is Ok <==> is_valid_name(name@),
        r matches Ok(p) ==> p@ == profile_auth_spec(home@, name@),
        r matches Err(e) ==> e == AccountsError::InvalidProfileName,
{
    validate_name(name)?;
    Ok(profile_root(home).child(name).child("auth.json"))
}

/// Every saved profile's credential file lies in a directory of its own,
/// named after the profile, directly below the profile root.
pub proof fn lemma_profile_auth_below_root(home: PathModel, name: Seq<char>)
    ensures
        profile_auth_spec(home, name).base == profile_root_spec(home).base,
        profile_auth_spec(home, name).parts == profile_root_spec(home).parts + seq![
            name,
            "auth.json"@,
        ],
{
    assert(profile_auth_spec(home, name).parts =~= profile_root_spec(home).parts + seq![
        name,
        "auth.json"@,
    ]);
}

/// Two different profile names never share a credential file.
pub proof fn lemma_profile_auth_distinct(home: PathModel, a: Seq<char>, b: Seq<char>)
    requires
        a != b,
    ensures
        profile_auth_spec(home, a) != profile_auth_spec(home, b),
{
    let k: int = home.parts.len() as int + 1;
    assert(profile_auth_spec(home, a).parts[k] == a);
    assert(profile_auth_spec(home, b).parts[k] == b);
}

/// No saved profile's credential file is the active credential file, so
/// writing or removing a profile never touches the active login and
/// clearing the active login never touches a profile.
pub proof fn lemma_profile_auth_is_not_active(home: PathModel, name: Seq<char>)
    ensures
        profile_auth_spec(home, name) != active_auth_spec(home),
{
    assert(profile_auth_spec(home, name).parts.len() == home.parts.len() + 3);
    assert(active_auth_spec(home).parts.len() == home.parts.len() + 1);
}

/// The `--codex-home` override gets the same `~` expansion as `CODEX_HOME`:
/// an override resolves to the directory that `CODEX_HOME` set to the same
/// text resolves to, and `CODEX_HOME` itself plays no part once an override
/// is given.
pub proof fn lemma_override_expands_like_codex_home(p: Seq<char>, env: EnvModel)
    ensures
        codex_home_spec(Some(p), env) == codex_home_spec(
            None,
            EnvModel { codex_home: Some(p), ..env },
        ),
        forall|other: Option<Seq<char>>|
            #[trigger] codex_home_spec(Some(p), EnvModel { codex_home: other, ..env })
                == codex_home_spec(Some(p), env),
{
}

/// A directory given as `~/rest` or `~\rest` (on the command line or in
/// `CODEX_HOME`) lies below the home directory `h`: it is `h` with `rest`
/// (backslashes read as slashes) joined on; `~` alone is `h` itself.
pub proof fn lemma_tilde_resolves_below_home(
    rest: Seq<char>,
    separator: char,
    env: EnvModel,
    h: Seq<char>,
)
    requires
        separator == '/' || separator == '\\',
        user_home(env) == Some(h),
    ensures
        codex_home_spec(Some(seq!['~', separator] + rest), env) == (PathModel {
            base: h,
            parts: seq![backslashes_to_slashes(rest)],
        }),
        codex_home_spec(None, EnvModel { codex_home: Some(seq!['~', separator] + rest), ..env })
            == (PathModel { base: h, parts: seq![backslashes_to_slashes(rest)] }),
        codex_home_spec(Some(seq!['~']), env) == PathModel::plain(h),
{
    let p = seq!['~', separator] + rest;
    assert(p[0] == '~' && p[1] == separator);
    assert(p != seq!['~']) by {
        assert(p.len() != 1);
    }
    assert(p.skip(2) =~= rest);
    assert(PathModel::plain(h).child(backslashes_to_slashes(rest)).parts =~= seq![
        backslashes_to_slashes(rest),
    ]);
}

/// A directory given without a leading `~` stands as written.
pub proof fn lemma_plain_override_stands(p: Seq<char>, env: EnvModel)
    requires
        p.len() == 0 || p[0] != '~',
    ensures
        codex_home_spec(Some(p), env) == PathModel::plain(p),
{
}

} // verus!
