use vstd::prelude::*;
use vstd::string::*;

use crate::strings::{concat3, concat4};

verus! {

/// Every way in which a command of this tool can fail. Fields hold the
/// displayed paths, names and arguments that the message quotes, and the
/// text of the underlying failure where there is one (`cause`).
pub enum AccountsError {
    InvalidProfileName,
    CodexHomeRequiresPath,
    MissingCommand,
    SaveRequiresName,
    FromRequiresPath,
    UnknownSaveOption(String),
    UseRequiresName,
    RemoveRequiresName,
    CompletionRequiresShell,
    UnsupportedShell(String),
    UnexpectedArgument(String),
    UnknownCommand(String),
    AuthNotFound { path: String, cause: String },
    AuthNotRegularFile { path: String },
    CannotRead { path: String, cause: String },
    AuthEmpty { path: String },
    AuthInvalidJson { path: String, cause: String },
    AuthNotObject { path: String },
    NoParentDirectory,
    CannotCreateDir { path: String, cause: String },
    CannotRestrictDir { path: String, cause: String },
    ProfileExists { label: String },
    RefuseReplaceSymlink { path: String },
    CannotCreateTemp { cause: String },
    CannotRestrictTemp { cause: String },
    CannotWriteTemp { cause: String },
    CannotActivate { path: String, cause: String },
    SavedButUnrestricted { path: String, cause: String },
    CannotInspectProfiles { cause: String },
    ProfileNotFound { name: String },
    RefuseRemoveSymlink { path: String },
    RefuseRemoveNonFile { path: String },
    CannotRemove { path: String, cause: String },
    ActiveNotFile { path: String },
}

/// The text that is shown to the user for an error.
pub open spec fn error_text(e: AccountsError) -> Seq<char> {
    match e {
        AccountsError::InvalidProfileName =>
            "Invalid profile name. Use 1-64 letters, numbers, '.', '_' or '-'."@,
        AccountsError::CodexHomeRequiresPath => "--codex-home requires a path"@,
        AccountsError::MissingCommand => "Missing command"@,
        AccountsError::SaveRequiresName => "Save requires a profile name"@,
        AccountsError::FromRequiresPath => "--from requires a path"@,
        AccountsError::UnknownSaveOption(o) => "Unknown save option: "@ + o@,
        AccountsError::UseRequiresName => "Use requires a profile name"@,
        AccountsError::RemoveRequiresName => "Remove requires a profile name"@,
        AccountsError::CompletionRequiresShell => "Completion requires a shell name"@,
        AccountsError::UnsupportedShell(s) => "Unsupported shell: "@ + s@,
        AccountsError::UnexpectedArgument(a) => "Unexpected argument: "@ + a@,
        AccountsError::UnknownCommand(c) => "Unknown command: "@ + c@,
        AccountsError::AuthNotFound { path, cause } =>
            "Authentication file not found: "@ + path@ + " ("@ + cause@ + ")"@,
        AccountsError::AuthNotRegularFile { path } =>
            "Authentication path is not a regular file: "@ + path@,
        AccountsError::CannotRead { path, cause } => "Cannot read "@ + path@ + ": "@ + cause@,
        AccountsError::AuthEmpty { path } => "Authentication file is empty: "@ + path@,
        AccountsError::AuthInvalidJson { path, cause } =>
            "Authentication file is not valid JSON: "@ + path@ + " ("@ + cause@ + ")"@,
        AccountsError::AuthNotObject { path } =>
            "Authentication file must contain a JSON object: "@ + path@,
        AccountsError::NoParentDirectory => "Destination has no parent directory"@,
        AccountsError::CannotCreateDir { path, cause } =>
            "Cannot create "@ + path@ + ": "@ + cause@,
        AccountsError::CannotRestrictDir { path, cause } =>
            "Cannot restrict permissions on "@ + path@ + ": "@ + cause@,
        AccountsError::ProfileExists { label } =>
            "Profile already exists: "@ + label@ + " (use --force)"@,
        AccountsError::RefuseReplaceSymlink { path } => "Refusing to replace symlink: "@ + path@,
        AccountsError::CannotCreateTemp { cause } =>
            "Cannot create temporary auth file: "@ + cause@,
        AccountsError::CannotRestrictTemp { cause } =>
            "Cannot restrict temporary auth file: "@ + cause@,
        AccountsError::CannotWriteTemp { cause } => "Cannot write temporary auth file: "@ + cause@,
        AccountsError::CannotActivate { path, cause } =>
            "Cannot activate "@ + path@ + ": "@ + cause@,
        AccountsError::SavedButUnrestricted { path, cause } =>
            "Profile was saved, but permissions could not be restricted on "@ + path@ + ": "@
                + cause@,
        AccountsError::CannotInspectProfiles { cause } => "Cannot inspect profiles: "@ + cause@,
        AccountsError::ProfileNotFound { name } => "Profile not found: "@ + name@,
        AccountsError::RefuseRemoveSymlink { path } => "Refusing to remove symlink: "@ + path@,
        AccountsError::RefuseRemoveNonFile { path } =>
            "Refusing to remove non-file profile: "@ + path@,
        AccountsError::CannotRemove { path, cause } =>
            "Cannot remove "@ + path@ + ": "@ + cause@,
        AccountsError::ActiveNotFile { path } =>
            "Refusing to remove non-file active login: "@ + path@,
    }
}

fn text2(a: &str, b: &str) -> (r: String)
    ensures
        r@ == a@ + b@,
{
    let mut s = String::from_str(a);
    s.append(b);
    s
}

fn text5(a: &str, b: &str, c: &str, d: &str, e: &str) -> (r: String)
    ensures
        r@ == a@ + b@ + c@ + d@ + e@,
{
    let mut s = concat4(a, b, c, d);
    s.append(e);
    s
}

impl AccountsError {
    /// The text shown to the user for this error.
    pub fn message(&self) -> (r: String)
        ensures
            r@ == error_text(*self),
    {
        match self {
            AccountsError::InvalidProfileName => String::from_str(
                "Invalid profile name. Use 1-64 letters, numbers, '.', '_' or '-'.",
            ),
            AccountsError::CodexHomeRequiresPath => String::from_str("--codex-home requires a path"),
            AccountsError::MissingCommand => String::from_str("Missing command"),
            AccountsError::SaveRequiresName => String::from_str("Save requires a profile name"),
            AccountsError::FromRequiresPath => String::from_str("--from requires a path"),
            AccountsError::UnknownSaveOption(o) => text2("Unknown save option: ", o.as_str()),
            AccountsError::UseRequiresName => String::from_str("Use requires a profile name"),
            AccountsError::RemoveRequiresName => String::from_str("Remove requires a profile name"),
            AccountsError::CompletionRequiresShell => String::from_str(
                "Completion requires a shell name",
            ),
            AccountsError::UnsupportedShell(s) => text2("Unsupported shell: ", s.as_str()),
            AccountsError::UnexpectedArgument(a) => text2("Unexpected argument: ", a.as_str()),
            AccountsError::UnknownCommand(c) => text2("Unknown command: ", c.as_str()),
            AccountsError::AuthNotFound { path, cause } => text5(
                "Authentication file not found: ",
                path.as_str(),
                " (",
                cause.as_str(),
                ")",
            ),
            AccountsError::AuthNotRegularFile { path } => text2(
                "Authentication path is not a regular file: ",
                path.as_str(),
            ),
            AccountsError::CannotRead { path, cause } => concat4(
                "Cannot read ",
                path.as_str(),
                ": ",
                cause.as_str(),
            ),
            AccountsError::AuthEmpty { path } => text2(
                "Authentication file is empty: ",
                path.as_str(),
            ),
            AccountsError::AuthInvalidJson { path, cause } => text5(
                "Authentication file is not valid JSON: ",
                path.as_str(),
                " (",
                cause.as_str(),
                ")",
            ),
            AccountsError::AuthNotObject { path } => text2(
                "Authentication file must contain a JSON object: ",
                path.as_str(),
            ),
            AccountsError::NoParentDirectory => String::from_str(
                "Destination has no parent directory",
            ),
            AccountsError::CannotCreateDir { path, cause } => concat4(
                "Cannot create ",
                path.as_str(),
                ": ",
                cause.as_str(),
            ),
            AccountsError::CannotRestrictDir { path, cause } => concat4(
                "Cannot restrict permissions on ",
                path.as_str(),
                ": ",
                cause.as_str(),
            ),
            AccountsError::ProfileExists { label } => concat3(
                "Profile already exists: ",
                label.as_str(),
                " (use --force)",
            ),
            AccountsError::RefuseReplaceSymlink { path } => text2(
                "Refusing to replace symlink: ",
                path.as_str(),
            ),
            AccountsError::CannotCreateTemp { cause } => text2(
                "Cannot create temporary auth file: ",
                cause.as_str(),
            ),
            AccountsError::CannotRestrictTemp { cause } => text2(
                "Cannot restrict temporary auth file: ",
                cause.as_str(),
            ),
            AccountsError::CannotWriteTemp { cause } => text2(
                "Cannot write temporary auth file: ",
                cause.as_str(),
            ),
            AccountsError::CannotActivate { path, cause } => concat4(
                "Cannot activate ",
                path.as_str(),
                ": ",
                cause.as_str(),
            ),
            AccountsError::SavedButUnrestricted { path, cause } => concat4(
                "Profile was saved, but permissions could not be restricted on ",
                path.as_str(),
                ": ",
                cause.as_str(),
            ),
            AccountsError::CannotInspectProfiles { cause } => text2(
                "Cannot inspect profiles: ",
                cause.as_str(),
            ),
            AccountsError::ProfileNotFound { name } => text2("Profile not found: ", name.as_str()),
            AccountsError::RefuseRemoveSymlink { path } => text2(
                "Refusing to remove symlink: ",
                path.as_str(),
            ),
            AccountsError::RefuseRemoveNonFile { path } => text2(
                "Refusing to remove non-file profile: ",
                path.as_str(),
            ),
            AccountsError::CannotRemove { path, cause } => concat4(
                "Cannot remove ",
                path.as_str(),
                ": ",
                cause.as_str(),
            ),
            AccountsError::ActiveNotFile { path } => text2(
                "Refusing to remove non-file active login: ",
                path.as_str(),
            ),
        }
    }
}

} // verus!
