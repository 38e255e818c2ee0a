use vstd::prelude::*;
use vstd::string::*;

use crate::error::AccountsError;
use crate::strings::{has_prefix, str_eq, strip_prefix};

verus! {

/// A shell for which a completion script can be printed.
#[derive(PartialEq, Eq, Structural, Clone, Copy)]
pub enum Shell {
    Bash,
    Zsh,
    Fish,
    PowerShell,
}

/// A command line, as the library understands it.
pub enum Command {
    /// Copy a credential file (the active one, or `source`) into a profile.
    Save { name: String, source: Option<String>, force: bool },
    /// Make a saved profile the active login.
    Use { name: String },
    /// List the saved profiles.
    List { plain: bool },
    /// Delete a saved profile.
    Remove { name: String },
    /// Remove the active credential file.
    New,
    /// Show where things are stored.
    Path,
    /// Print a completion script.
    Completion { shell: Shell },
    /// Show the usage text.
    Help,
}

/// The mathematical value of a `Command`.
pub enum CommandModel {
    Save { name: Seq<char>, source: Option<Seq<char>>, force: bool },
    Use { name: Seq<char> },
    List { plain: bool },
    Remove { name: Seq<char> },
    New,
    Path,
    Completion { shell: Shell },
    Help,
}

pub open spec fn opt_chars(o: Option<String>) -> Option<Seq<char>> {
    match o {
        Some(s) => Some(s@),
        None => None,
    }
}

impl View for Command {
    type V = CommandModel;

    open spec fn view(&self) -> CommandModel {
        match self {
            Command::Save { name, source, force } => CommandModel::Save {
                name: name@,
                source: opt_chars(*source),
                force: *force,
            },
            Command::Use { name } => CommandModel::Use { name: name@ },
            Command::List { plain } => CommandModel::List { plain: *plain },
            Command::Remove { name } => CommandModel::Remove { name: name@ },
            Command::New => CommandModel::New,
            Command::Path => CommandModel::Path,
            Command::Completion { shell } => CommandModel::Completion { shell: *shell },
            Command::Help => CommandModel::Help,
        }
    }
}

/// A parsed command line: the options before the command, and the command.
pub struct Invocation {
    /// `--codex-home PATH` or `--codex-home=PATH`
    pub codex_home: Option<String>,
    /// `--no-color`
    pub no_color: bool,
    /// `--plain`
    pub plain: bool,
    pub command: Command,
}

/// The options given before the command.
pub struct GlobalsModel {
    pub codex_home: Option<Seq<char>>,
    pub no_color: bool,
    pub plain: bool,
}

/// The mathematical value of an `Invocation`.
pub struct InvocationModel {
    pub globals: GlobalsModel,
    pub command: CommandModel,
}

impl View for Invocation {
    type V = InvocationModel;

    open spec fn view(&self) -> InvocationModel {
        InvocationModel {
            globals: GlobalsModel {
                codex_home: opt_chars(self.codex_home),
                no_color: self.no_color,
                plain: self.plain,
            },
            command: self.command@,
        }
    }
}

/// Reads the options that stand before the command, from position `i` on;
/// gives the position of the command and the options read. `--codex-home`
/// is taken once; a second one is not an option, so it is read as the
/// command.
pub open spec fn parse_globals(args: Seq<String>, i: int, g: GlobalsModel) -> Result<
    (int, GlobalsModel),
    AccountsError,
>
    decreases args.len() - i,
{
    if 0 <= i < args.len() {
        let a = args[i]@;
        if a == "--codex-home"@ && g.codex_home is None {
            if i + 1 < args.len() {
                parse_globals(
                    args,
                    i + 2,
                    GlobalsModel { codex_home: Some(args[i + 1]@), ..g },
                )
            } else {
                Err(AccountsError::CodexHomeRequiresPath)
            }
        } else if has_prefix(a, "--codex-home="@) && g.codex_home is None {
            let v = a.skip("--codex-home="@.len() as int);
            if v.len() == 0 {
                Err(AccountsError::CodexHomeRequiresPath)
            } else {
                parse_globals(args, i + 1, GlobalsModel { codex_home: Some(v), ..g })
            }
        } else if a == "--no-color"@ {
            parse_globals(args, i + 1, GlobalsModel { no_color: true, ..g })
        } else if a == "--plain"@ {
            parse_globals(args, i + 1, GlobalsModel { plain: true, ..g })
        } else {
            Ok((i, g))
        }
    } else {
        Ok((i, g))
    }
}

/// Reads the options of `save` from position `i` on: `--force`,
/// `--from PATH` and `--from=PATH`.
pub open spec fn parse_save_options(
    args: Seq<String>,
    i: int,
    source: Option<Seq<char>>,
    force: bool,
) -> Result<(Option<Seq<char>>, bool), AccountsError>
    decreases args.len() - i,
{
    if 0 <= i < args.len() {
        let o = args[i]@;
        if o == "--force"@ {
            parse_save_options(args, i + 1, source, true)
        } else if o == "--from"@ {
            if i + 1 < args.len() {
                parse_save_options(args, i + 2, Some(args[i + 1]@), force)
            } else {
                Err(AccountsError::FromRequiresPath)
            }
        } else if has_prefix(o, "--from="@) {
            let v = o.skip("--from="@.len() as int);
            if v.len() == 0 {
                Err(AccountsError::FromRequiresPath)
            } else {
                parse_save_options(args, i + 1, Some(v), force)
            }
        } else {
            Err(AccountsError::UnknownSaveOption(args[i]))
        }
    } else {
        Ok((source, force))
    }
}

/// Nothing may stand at position `i` or after it.
pub open spec fn no_more_args(args: Seq<String>, i: int) -> Result<(), AccountsError> {
    if 0 <= i < args.len() {
        Err(AccountsError::UnexpectedArgument(args[i]))
    } else {
        Ok(())
    }
}

/// The shell that a name stands for.
pub open spec fn shell_named(s: Seq<char>) -> Option<Shell> {
    if s == "bash"@ {
        Some(Shell::Bash)
    } else if s == "zsh"@ {
        Some(Shell::Zsh)
    } else if s == "fish"@ {
        Some(Shell::Fish)
    } else if s == "powershell"@ {
        Some(Shell::PowerShell)
    } else {
        None
    }
}

/// `c` names the command that removes a saved profile.
pub open spec fn is_remove_word(c: Seq<char>) -> bool {
    c == "remove"@ || c == "delete"@ || c == "rm"@
}

/// `c` names the command that clears the active login.
pub open spec fn is_new_word(c: Seq<char>) -> bool {
    c == "new"@ || c == "restart"@ || c == "clear"@ || c == "logout-local"@
}

/// Reads the command at position `i` and its arguments.
pub open spec fn parse_command(args: Seq<String>, i: int) -> Result<CommandModel, AccountsError> {
    if !(0 <= i < args.len()) {
        Err(AccountsError::MissingCommand)
    } else {
        let c = args[i]@;
        let k = i + 1;
        if c == "save"@ {
            if k < args.len() {
                match parse_save_options(args, k + 1, None, false) {
                    Ok((source, force)) => Ok(
                        CommandModel::Save { name: args[k]@, source, force },
                    ),
                    Err(e) => Err(e),
                }
            } else {
                Err(AccountsError::SaveRequiresName)
            }
        } else if c == "use"@ {
            if k < args.len() {
                match no_more_args(args, k + 1) {
                    Ok(_) => Ok(CommandModel::Use { name: args[k]@ }),
                    Err(e) => Err(e),
                }
            } else {
                Err(AccountsError::UseRequiresName)
            }
        } else if c == "list"@ {
            let plain = k < args.len() && args[k]@ == "--plain"@;
            match no_more_args(args, if plain { k + 1 } else { k }) {
                Ok(_) => Ok(CommandModel::List { plain }),
                Err(e) => Err(e),
            }
        } else if is_remove_word(c) {
            if k < args.len() {
                match no_more_args(args, k + 1) {
                    Ok(_) => Ok(CommandModel::Remove { name: args[k]@ }),
                    Err(e) => Err(e),
                }
            } else {
                Err(AccountsError::RemoveRequiresName)
            }
        } else if is_new_word(c) {
            match no_more_args(args, k) {
                Ok(_) => Ok(CommandModel::New),
                Err(e) => Err(e),
            }
        } else if c == "path"@ {
            match no_more_args(args, k) {
                Ok(_) => Ok(CommandModel::Path),
                Err(e) => Err(e),
            }
        } else if c == "completion"@ {
            if k < args.len() {
                match shell_named(args[k]@) {
                    Some(shell) => match no_more_args(args, k + 1) {
                        Ok(_) => Ok(CommandModel::Completion { shell }),
                        Err(e) => Err(e),
                    },
                    None => Err(AccountsError::UnsupportedShell(args[k])),
                }
            } else {
                Err(AccountsError::CompletionRequiresShell)
            }
        } else if c == "help"@ {
            match no_more_args(args, k) {
                Ok(_) => Ok(CommandModel::Help),
                Err(e) => Err(e),
            }
        } else {
            Err(AccountsError::UnknownCommand(args[i]))
        }
    }
}

/// No option given.
pub open spec fn no_globals() -> GlobalsModel {
    GlobalsModel { codex_home: None, no_color: false, plain: false }
}

/// What a whole command line means.
pub open spec fn parse_spec(args: Seq<String>) -> Result<InvocationModel, AccountsError> {
    match parse_globals(args, 0, no_globals()) {
        Err(e) => Err(e),
        Ok((i, g)) => match parse_command(args, i) {
            Err(e) => Err(e),
            Ok(c) => Ok(InvocationModel { globals: g, command: c }),
        },
    }
}

/// The mathematical value of a parse result.
pub open spec fn parsed_view(r: Result<Invocation, AccountsError>) -> Result<
    InvocationModel,
    AccountsError,
> {
    match r {
        Ok(inv) => Ok(inv@),
        Err(e) => Err(e),
    }
}

/// Fails with the first argument at position `index` or after it, if any.
pub fn require_no_more_args(args: &[String], index: usize) -> (r: Result<(), AccountsError>)
    ensures
        r == no_more_args(args@, index as int),
{
    if index < args.len() {
        Err(AccountsError::UnexpectedArgument(args[index].clone()))
    } else {
        Ok(())
    }
}

fn read_globals(args: &[String]) -> (r: Result<(usize, Option<String>, bool, bool), AccountsError>)
    ensures
        match (r, parse_globals(args@, 0, no_globals())) {
            (Ok((i, home, no_color, plain)), Ok((j, g))) => i == j && i <= args@.len()
                && opt_chars(home) == g.codex_home && no_color == g.no_color && plain == g.plain,
            (Err(e), Err(e2)) => e == e2,
            _ => false,
        },
{
    let mut i: usize = 0;
    let mut home: Option<String> = None;
    let mut no_color = false;
    let mut plain = false;
    while i < args.len()
        invariant
            i <= args@.len(),
            parse_globals(args@, 0, no_globals()) == parse_globals(
                args@,
                i as int,
                GlobalsModel { codex_home: opt_chars(home), no_color, plain },
            ),
        decreases args@.len() - i,
    {
        let a = args[i].as_str();
        let ghost g = GlobalsModel { codex_home: opt_chars(home), no_color, plain };
        let open = home.is_none();
        if open && str_eq(a, "--codex-home") {
            if i + 1 < args.len() {
                home = Some(args[i + 1].clone());
                i = i + 2;
            } else {
                return Err(AccountsError::CodexHomeRequiresPath);
            }
        } else {
            let stripped = if open {
                strip_prefix(a, "--codex-home=")
            } else {
                None
            };
            match stripped {
                Some(v) => {
                    if v.unicode_len() == 0 {
                        return Err(AccountsError::CodexHomeRequiresPath);
                    }
                    home = Some(v);
                    i = i + 1;
                },
                None => {
                    proof {
                        if open {
                            assert(!has_prefix(a@, "--codex-home="@));
                        }
                    }
                    if str_eq(a, "--no-color") {
                        no_color = true;
                        i = i + 1;
                    } else if str_eq(a, "--plain") {
                        plain = true;
                        i = i + 1;
                    } else {
                        return Ok((i, home, no_color, plain));
                    }
                },
            }
        }
    }
    Ok((i, home, no_color, plain))
}

fn read_save_options(args: &[String], start: usize) -> (r: Result<(Option<String>, bool), AccountsError>)
    requires
        start <= args@.len(),
    ensures
        match (r, parse_save_options(args@, start as int, None, false)) {
            (Ok((source, force)), Ok((s, f))) => opt_chars(source) == s && force == f,
            (Err(e), Err(e2)) => e == e2,
            _ => false,
        },
{
    let mut i: usize = start;
    let mut source: Option<String> = None;
    let mut force = false;
    while i < args.len()
        invariant
            start <= i <= args@.len(),
            parse_save_options(args@, start as int, None, false) == parse_save_options(
                args@,
                i as int,
                opt_chars(source),
                force,
            ),
        decreases args@.len() - i,
    {
        let o = args[i].as_str();
        if str_eq(o, "--force") {
            force = true;
            i = i + 1;
        } else if str_eq(o, "--from") {
            if i + 1 < args.len() {
                source = Some(args[i + 1].clone());
                i = i + 2;
            } else {
                return Err(AccountsError::FromRequiresPath);
            }
        } else {
            match strip_prefix(o, "--from=") {
                Some(v) => {
                    if v.unicode_len() == 0 {
                        return Err(AccountsError::FromRequiresPath);
                    }
                    source = Some(v);
                    i = i + 1;
                },
                None => {
                    return Err(AccountsError::UnknownSaveOption(args[i].clone()));
                },
            }
        }
    }
    Ok((source, force))
}

fn read_shell(s: &str) -> (r: Option<Shell>)
    ensures
        r == shell_named(s@),
{
    if str_eq(s, "bash") {
        Some(Shell::Bash)
    } else if str_eq(s, "zsh") {
        Some(Shell::Zsh)
    } else if str_eq(s, "fish") {
        Some(Shell::Fish)
    } else if str_eq(s, "powershell") {
        Some(Shell::PowerShell)
    } else {
        None
    }
}

fn read_command(args: &[String], i: usize) -> (r: Result<Command, AccountsError>)
    requires
        i <= args@.len(),
    ensures
        match (r, parse_command(args@, i as int)) {
            (Ok(c), Ok(m)) => c@ == m,
            (Err(e), Err(e2)) => e == e2,
            _ => false,
        },
{
    if i >= args.len() {
        return Err(AccountsError::MissingCommand);
    }
    let c = args[i].as_str();
    let k = i + 1;
    if str_eq(c, "save") {
        if k < args.len() {
            let (source, force) = read_save_options(args, k + 1)?;
            Ok(Command::Save { name: args[k].clone(), source, force })
        } else {
            Err(AccountsError::SaveRequiresName)
        }
    } else if str_eq(c, "use") {
        if k < args.len() {
            require_no_more_args(args, k + 1)?;
            Ok(Command::Use { name: args[k].clone() })
        } else {
            Err(AccountsError::UseRequiresName)
        }
    } else if str_eq(c, "list") {
        let plain = k < args.len() && str_eq(args[k].as_str(), "--plain");
        require_no_more_args(args, if plain { k + 1 } else { k })?;
        Ok(Command::List { plain })
    } else if str_eq(c, "remove") || str_eq(c, "delete") || str_eq(c, "rm") {
        if k < args.len() {
            require_no_more_args(args, k + 1)?;
            Ok(Command::Remove { name: args[k].clone() })
        } else {
            Err(AccountsError::RemoveRequiresName)
        }
    } else if str_eq(c, "new") || str_eq(c, "restart") || str_eq(c, "clear") || str_eq(
        c,
        "logout-local",
    ) {
        require_no_more_args(args, k)?;
        Ok(Command::New)
    } else if str_eq(c, "path") {
        require_no_more_args(args, k)?;
        Ok(Command::Path)
    } else if str_eq(c, "completion") {
        if k < args.len() {
            match read_shell(args[k].as_str()) {
                Some(shell) => {
                    require_no_more_args(args, k + 1)?;
                    Ok(Command::Completion { shell })
                },
                None => Err(AccountsError::UnsupportedShell(args[k].clone())),
            }
        } else {
            Err(AccountsError::CompletionRequiresShell)
        }
    } else if str_eq(c, "help") {
        require_no_more_args(args, k)?;
        Ok(Command::Help)
    } else {
        Err(AccountsError::UnknownCommand(args[i].clone()))
    }
}

/// Parses a command line (without the program name): options, then a
/// command and its arguments.
pub fn run(args: &[String]) -> (r: Result<Invocation, AccountsError>)
    ensures
        parsed_view(r) == parse_spec(args@),
{
    let (i, codex_home, no_color, plain) = read_globals(args)?;
    let command = read_command(args, i)?;
    Ok(Invocation { codex_home, no_color, plain, command })
}

/// How `main` starts: with no argument it shows the usage text and exits
/// with status 2; with `--help` or `-h` anywhere it shows the usage text and
/// exits with status 0; otherwise it runs the command line.
#[derive(PartialEq, Eq, Structural)]
pub enum Entry {
    ShowUsage { exit_code: i32 },
    Run,
}

/// Some argument asks for help.
pub open spec fn asks_for_help(args: Seq<String>) -> bool {
    exists|i: int| 0 <= i < args.len() && (#[trigger] args[i]@ == "--help"@ || args[i]@ == "-h"@)
}

/// Decides how `main` starts, as `Entry` says.
pub fn entry_point(args: &[String]) -> (r: Entry)
    ensures
        args@.len() == 0 ==> r == (Entry::ShowUsage { exit_code: 2 }),
        args@.len() > 0 && asks_for_help(args@) ==> r == (Entry::ShowUsage { exit_code: 0 }),
        args@.len() > 0 && !asks_for_help(args@) ==> r == Entry::Run,
{
    if args.len() == 0 {
        return Entry::ShowUsage { exit_code: 2 };
    }
    let mut i: usize = 0;
    while i < args.len()
        invariant
            i <= args@.len(),
            forall|j: int| 0 <= j < i ==> !(#[trigger] args@[j]@ == "--help"@ || args@[j]@ == "-h"@),
        decreases args@.len() - i,
    {
        if str_eq(args[i].as_str(), "--help") || str_eq(args[i].as_str(), "-h") {
            return Entry::ShowUsage { exit_code: 0 };
        }
        i = i + 1;
    }
    Entry::Run
}

/// `a` from position `i` on and `b` from position `j` on hold the same
/// arguments.
pub open spec fn same_from(a: Seq<String>, i: int, b: Seq<String>, j: int) -> bool {
    &&& 0 <= i <= a.len()
    &&& 0 <= j <= b.len()
    &&& a.len() - i == b.len() - j
    &&& forall|k: int| 0 <= k < a.len() - i ==> #[trigger] a[i + k] == b[j + k]
}

proof fn lemma_same_from_step(a: Seq<String>, i: int, b: Seq<String>, j: int, n: int)
    requires
        same_from(a, i, b, j),
        0 <= n <= a.len() - i,
    ensures
        same_from(a, i + n, b, j + n),
{
    assert forall|k: int| 0 <= k < a.len() - (i + n) implies #[trigger] a[i + n + k] == b[j + n
        + k] by {
        assert(a[i + (n + k)] == b[j + (n + k)]);
    }
}

proof fn lemma_no_more_args_shift(a: Seq<String>, i: int, b: Seq<String>, j: int)
    requires
        same_from(a, i, b, j),
    ensures
        no_more_args(a, i) == no_more_args(b, j),
{
    if i < a.len() {
        assert(a[i + 0] == b[j + 0]);
    }
}

proof fn lemma_save_options_shift(
    a: Seq<String>,
    i: int,
    b: Seq<String>,
    j: int,
    source: Option<Seq<char>>,
    force: bool,
)
    requires
        same_from(a, i, b, j),
    ensures
        parse_save_options(a, i, source, force) == parse_save_options(b, j, source, force),
    decreases a.len() - i,
{
    if i < a.len() {
        assert(a[i + 0] == b[j + 0]);
        lemma_same_from_step(a, i, b, j, 1);
        lemma_save_options_shift(a, i + 1, b, j + 1, source, true);
        let o = a[i]@;
        if i + 1 < a.len() {
            assert(a[i + 1] == b[j + 1]);
            lemma_same_from_step(a, i, b, j, 2);
            lemma_save_options_shift(a, i + 2, b, j + 2, Some(a[i + 1]@), force);
        }
        if has_prefix(o, "--from="@) {
            lemma_save_options_shift(a, i + 1, b, j + 1, Some(o.skip("--from="@.len() as int)), force);
        }
    }
}

proof fn lemma_globals_shift(a: Seq<String>, i: int, b: Seq<String>, j: int, g: GlobalsModel)
    requires
        same_from(a, i, b, j),
    ensures
        match (parse_globals(a, i, g), parse_globals(b, j, g)) {
            (Ok((x, g1)), Ok((y, g2))) => i <= x <= a.len() && y - j == x - i && g1 == g2,
            (Err(e1), Err(e2)) => e1 == e2,
            _ => false,
        },
    decreases a.len() - i,
{
    if i < a.len() {
        assert(a[i + 0] == b[j + 0]);
        let o = a[i]@;
        lemma_same_from_step(a, i, b, j, 1);
        if o == "--codex-home"@ && g.codex_home is None {
            if i + 1 < a.len() {
                assert(a[i + 1] == b[j + 1]);
                lemma_same_from_step(a, i, b, j, 2);
                lemma_globals_shift(
                    a,
                    i + 2,
                    b,
                    j + 2,
                    GlobalsModel { codex_home: Some(a[i + 1]@), ..g },
                );
            }
        } else if has_prefix(o, "--codex-home="@) && g.codex_home is None {
            lemma_globals_shift(
                a,
                i + 1,
                b,
                j + 1,
                GlobalsModel { codex_home: Some(o.skip("--codex-home="@.len() as int)), ..g },
            );
        } else if o == "--no-color"@ {
            lemma_globals_shift(a, i + 1, b, j + 1, GlobalsModel { no_color: true, ..g });
        } else if o == "--plain"@ {
            lemma_globals_shift(a, i + 1, b, j + 1, GlobalsModel { plain: true, ..g });
        }
    }
}

proof fn lemma_command_shift(a: Seq<String>, i: int, b: Seq<String>, j: int)
    requires
        same_from(a, i, b, j),
    ensures
        parse_command(a, i) == parse_command(b, j),
{
    if i < a.len() {
        assert(a[i + 0] == b[j + 0]);
        lemma_same_from_step(a, i, b, j, 1);
        lemma_no_more_args_shift(a, i + 1, b, j + 1);
        if i + 1 < a.len() {
            assert(a[i + 1] == b[j + 1]);
            lemma_same_from_step(a, i, b, j, 2);
            lemma_save_options_shift(a, i + 2, b, j + 2, None, false);
            lemma_no_more_args_shift(a, i + 2, b, j + 2);
        }
    }
}

proof fn lemma_parse_spec_shift(a: Seq<String>, i: int, b: Seq<String>, j: int, g: GlobalsModel)
    requires
        same_from(a, i, b, j),
    ensures
        match (parse_globals(a, i, g), parse_globals(b, j, g)) {
            (Ok((x, g1)), Ok((y, g2))) => parse_command(a, x) == parse_command(b, y) && g1 == g2,
            (Err(e1), Err(e2)) => e1 == e2,
            _ => false,
        },
{
    lemma_globals_shift(a, i, b, j, g);
    if let (Ok((x, g1)), Ok((y, g2))) = (parse_globals(a, i, g), parse_globals(b, j, g)) {
        lemma_same_from_step(a, i, b, j, x - i);
        lemma_command_shift(a, x, b, y);
    }
}

/// `--codex-home=PATH` means what `--codex-home PATH` means, for any
/// non-empty PATH and whatever follows.
pub proof fn lemma_codex_home_equals_form(
    joined: String,
    flag: String,
    value: String,
    rest: Seq<String>,
)
    requires
        joined@ == "--codex-home="@ + value@,
        flag@ == "--codex-home"@,
        value@.len() > 0,
    ensures
        parse_spec(seq![joined] + rest) == parse_spec(seq![flag, value] + rest),
{
    reveal_strlit("--codex-home=");
    reveal_strlit("--codex-home");
    let a = seq![joined] + rest;
    let b = seq![flag, value] + rest;
    assert(a[0] == joined);
    assert(b[0] == flag);
    assert(b[1] == value);
    assert(joined@.len() != flag@.len());
    assert(joined@.take("--codex-home="@.len() as int) =~= "--codex-home="@);
    assert(joined@.skip("--codex-home="@.len() as int) =~= value@);
    let g = GlobalsModel { codex_home: Some(value@), ..no_globals() };
    assert(parse_globals(a, 0, no_globals()) == parse_globals(a, 1, g));
    assert(parse_globals(b, 0, no_globals()) == parse_globals(b, 2, g));
    assert forall|k: int| 0 <= k < a.len() - 1 implies #[trigger] a[1 + k] == b[2 + k] by {
        assert(a[1 + k] == rest[k]);
        assert(b[2 + k] == rest[k]);
    }
    lemma_parse_spec_shift(a, 1, b, 2, g);
}

/// In `save`, `--from=PATH` means what `--from PATH` means, for any
/// non-empty PATH, whatever stands before and whatever follows.
pub proof fn lemma_from_equals_form(
    before: Seq<String>,
    joined: String,
    flag: String,
    value: String,
    rest: Seq<String>,
    source: Option<Seq<char>>,
    force: bool,
)
    requires
        joined@ == "--from="@ + value@,
        flag@ == "--from"@,
        value@.len() > 0,
    ensures
        parse_save_options(before + seq![joined] + rest, before.len() as int, source, force)
            == parse_save_options(before + seq![flag, value] + rest, before.len() as int, source, force),
{
    reveal_strlit("--from=");
    reveal_strlit("--from");
    reveal_strlit("--force");
    let n = before.len() as int;
    let a = before + seq![joined] + rest;
    let b = before + seq![flag, value] + rest;
    assert(a[n] == joined);
    assert(b[n] == flag);
    assert(b[n + 1] == value);
    assert(joined@.len() != flag@.len());
    assert(joined@ != "--force"@);
    assert(joined@.take("--from="@.len() as int) =~= "--from="@);
    assert(joined@.skip("--from="@.len() as int) =~= value@);
    assert forall|k: int| 0 <= k < a.len() - (n + 1) implies #[trigger] a[n + 1 + k] == b[n + 2
        + k] by {
        assert(a[n + 1 + k] == rest[k]);
        assert(b[n + 2 + k] == rest[k]);
    }
    lemma_save_options_shift(a, n + 1, b, n + 2, Some(value@), force);
}

/// Options before the command are never taken back: once `--no-color`,
/// `--plain` or a Codex directory has been read, every later option leaves
/// it as it is.
pub proof fn lemma_global_options_kept(args: Seq<String>, i: int, g: GlobalsModel)
    ensures
        parse_globals(args, i, g) matches Ok((_, g2)) ==> {
            &&& g.no_color ==> g2.no_color
            &&& g.plain ==> g2.plain
            &&& g.codex_home is Some ==> g2.codex_home == g.codex_home
        },
    decreases args.len() - i,
{
    if 0 <= i < args.len() {
        let a = args[i]@;
        if a == "--codex-home"@ && g.codex_home is None {
            if i + 1 < args.len() {
                lemma_global_options_kept(
                    args,
                    i + 2,
                    GlobalsModel { codex_home: Some(args[i + 1]@), ..g },
                );
            }
        } else if has_prefix(a, "--codex-home="@) && g.codex_home is None {
            lemma_global_options_kept(
                args,
                i + 1,
                GlobalsModel { codex_home: Some(a.skip("--codex-home="@.len() as int)), ..g },
            );
        } else if a == "--no-color"@ {
            lemma_global_options_kept(args, i + 1, GlobalsModel { no_color: true, ..g });
        } else if a == "--plain"@ {
            lemma_global_options_kept(args, i + 1, GlobalsModel { plain: true, ..g });
        }
    }
}

/// `--no-color` and `--plain` before the command set their option,
/// whatever other options stand before or after them.
pub proof fn lemma_global_flags_set(args: Seq<String>, i: int, g: GlobalsModel)
    requires
        0 <= i < args.len(),
    ensures
        args[i]@ == "--no-color"@ ==> (parse_globals(args, i, g) matches Ok((_, g2))
            ==> g2.no_color),
        args[i]@ == "--plain"@ ==> (parse_globals(args, i, g) matches Ok((_, g2)) ==> g2.plain),
{
    reveal_strlit("--no-color");
    reveal_strlit("--plain");
    reveal_strlit("--codex-home");
    reveal_strlit("--codex-home=");
    let a = args[i]@;
    if a == "--no-color"@ || a == "--plain"@ {
        assert(a != "--codex-home"@) by {
            assert(a[2] != "--codex-home"@[2]);
        }
        assert(!has_prefix(a, "--codex-home="@)) by {
            if a.len() >= "--codex-home="@.len() {
                assert(a.take("--codex-home="@.len() as int)[2] != "--codex-home="@[2]);
            }
        }
        assert(a == "--no-color"@ ==> a != "--plain"@) by {
            assert("--no-color"@[2] != "--plain"@[2]);
        }
        lemma_global_options_kept(args, i + 1, GlobalsModel { no_color: true, ..g });
        lemma_global_options_kept(args, i + 1, GlobalsModel { plain: true, ..g });
    }
}

/// `save NAME` saves under the word that follows `save`, with no source and
/// without force when no option follows; a `--force` right after the name
/// makes it force, whatever options follow.
pub proof fn lemma_save_command_options(args: Seq<String>, i: int)
    requires
        0 <= i,
        i + 1 < args.len(),
        args[i]@ == "save"@,
    ensures
        parse_command(args, i) is Ok ==> (parse_command(args, i) matches Ok(
            CommandModel::Save { name, .. },
        ) && name == args[i + 1]@),
        i + 2 == args.len() ==> parse_command(args, i) == Ok::<CommandModel, AccountsError>(
            CommandModel::Save { name: args[i + 1]@, source: None, force: false },
        ),
        i + 2 < args.len() && args[i + 2]@ == "--force"@ ==> (parse_command(args, i) matches Ok(
            CommandModel::Save { force, .. },
        ) ==> force),
{
    if i + 2 < args.len() && args[i + 2]@ == "--force"@ {
        lemma_force_flag_sets_force(args, i + 2, None, false);
    }
}

/// Once `--force` has been read, nothing read after it takes it back:
/// save options read with `force` already set come out with `force` set.
pub proof fn lemma_force_is_kept(args: Seq<String>, i: int, source: Option<Seq<char>>)
    ensures
        parse_save_options(args, i, source, true) matches Ok((_, f)) ==> f,
    decreases args.len() - i,
{
    if 0 <= i < args.len() {
        let o = args[i]@;
        lemma_force_is_kept(args, i + 1, source);
        if i + 1 < args.len() {
            lemma_force_is_kept(args, i + 2, Some(args[i + 1]@));
        }
        if has_prefix(o, "--from="@) {
            lemma_force_is_kept(args, i + 1, Some(o.skip("--from="@.len() as int)));
        }
    }
}

/// A `--force` read as a save option sets `force`, whatever options stand
/// before or after it.
pub proof fn lemma_force_flag_sets_force(
    args: Seq<String>,
    i: int,
    source: Option<Seq<char>>,
    force: bool,
)
    requires
        0 <= i < args.len(),
        args[i]@ == "--force"@,
    ensures
        parse_save_options(args, i, source, force) matches Ok((_, f)) ==> f,
{
    lemma_force_is_kept(args, i + 1, source);
}

/// The source read so far decides neither whether the save options are
/// accepted nor the force they give.
pub proof fn lemma_save_source_irrelevant(
    args: Seq<String>,
    i: int,
    s1: Option<Seq<char>>,
    s2: Option<Seq<char>>,
    force: bool,
)
    ensures
        match (parse_save_options(args, i, s1, force), parse_save_options(args, i, s2, force)) {
            (Ok((_, f1)), Ok((_, f2))) => f1 == f2,
            (Err(e1), Err(e2)) => e1 == e2,
            _ => false,
        },
    decreases args.len() - i,
{
    if 0 <= i < args.len() {
        lemma_save_source_irrelevant(args, i + 1, s1, s2, true);
    }
}

/// `--from PATH` never touches the force: the options `--from PATH` and
/// then `rest` are accepted exactly when `rest` alone is, with the same
/// force.
pub proof fn lemma_from_keeps_force(
    flag: String,
    value: String,
    rest: Seq<String>,
    source: Option<Seq<char>>,
    force: bool,
)
    requires
        flag@ == "--from"@,
    ensures
        match (
            parse_save_options(seq![flag, value] + rest, 0, source, force),
            parse_save_options(rest, 0, source, force),
        ) {
            (Ok((_, f1)), Ok((_, f2))) => f1 == f2,
            (Err(e1), Err(e2)) => e1 == e2,
            _ => false,
        },
{
    reveal_strlit("--from");
    reveal_strlit("--force");
    let a = seq![flag, value] + rest;
    assert(a[0] == flag);
    assert(a[1] == value);
    assert(flag@ != "--force"@) by {
        assert(flag@[3] != "--force"@[3]);
    }
    assert forall|k: int| 0 <= k < a.len() - 2 implies #[trigger] a[2 + k] == rest[0 + k] by {
        assert(a[2 + k] == rest[k]);
    }
    lemma_save_options_shift(a, 2, rest, 0, Some(value@), force);
    lemma_save_source_irrelevant(rest, 0, Some(value@), source, force);
}

/// `--from=PATH` never touches the force either: the options `--from=PATH`
/// and then `rest` are accepted exactly when `rest` alone is, with the same
/// force.
pub proof fn lemma_joined_from_keeps_force(
    joined: String,
    value: Seq<char>,
    rest: Seq<String>,
    source: Option<Seq<char>>,
    force: bool,
)
    requires
        joined@ == "--from="@ + value,
        value.len() > 0,
    ensures
        match (
            parse_save_options(seq![joined] + rest, 0, source, force),
            parse_save_options(rest, 0, source, force),
        ) {
            (Ok((_, f1)), Ok((_, f2))) => f1 == f2,
            (Err(e1), Err(e2)) => e1 == e2,
            _ => false,
        },
{
    reveal_strlit("--from=");
    reveal_strlit("--from");
    reveal_strlit("--force");
    let a = seq![joined] + rest;
    assert(a[0] == joined);
    assert(joined@.len() != "--from"@.len());
    assert(joined@ != "--force"@) by {
        assert(joined@[6] != "--force"@[6]);
    }
    assert(joined@.take("--from="@.len() as int) =~= "--from="@);
    assert(joined@.skip("--from="@.len() as int) =~= value);
    assert forall|k: int| 0 <= k < a.len() - 1 implies #[trigger] a[1 + k] == rest[0 + k] by {
        assert(a[1 + k] == rest[k]);
    }
    lemma_save_options_shift(a, 1, rest, 0, Some(value), force);
    lemma_save_source_irrelevant(rest, 0, Some(value), source, force);
}

/// The save options may come in either order: `--force --from PATH` means
/// what `--from PATH --force` means, whatever follows.
pub proof fn lemma_force_order_free(
    force_flag: String,
    from_flag: String,
    value: String,
    rest: Seq<String>,
    source: Option<Seq<char>>,
    force: bool,
)
    requires
        force_flag@ == "--force"@,
        from_flag@ == "--from"@,
    ensures
        parse_save_options(seq![force_flag, from_flag, value] + rest, 0, source, force)
            == parse_save_options(seq![from_flag, value, force_flag] + rest, 0, source, force),
{
    reveal_strlit("--from");
    reveal_strlit("--force");
    let a = seq![force_flag, from_flag, value] + rest;
    let b = seq![from_flag, value, force_flag] + rest;
    assert(a[0] == force_flag && a[1] == from_flag && a[2] == value);
    assert(b[0] == from_flag && b[1] == value && b[2] == force_flag);
    assert(from_flag@ != "--force"@) by {
        assert(from_flag@[3] != "--force"@[3]);
    }
    assert forall|k: int| 0 <= k < a.len() - 3 implies #[trigger] a[3 + k] == b[3 + k] by {
        assert(a[3 + k] == rest[k]);
        assert(b[3 + k] == rest[k]);
    }
    assert(parse_save_options(a, 0, source, force) == parse_save_options(a, 1, source, true));
    assert(parse_save_options(a, 1, source, true) == parse_save_options(a, 3, Some(value@), true));
    assert(parse_save_options(b, 0, source, force) == parse_save_options(b, 2, Some(value@), force));
    assert(parse_save_options(b, 2, Some(value@), force) == parse_save_options(
        b,
        3,
        Some(value@),
        true,
    ));
    lemma_save_options_shift(a, 3, b, 3, Some(value@), true);
}

/// `delete` and `rm` mean what `remove` means, and `restart`, `clear` and
/// `logout-local` mean what `new` means: read as the command, either word
/// gives the same result whatever stands around it.
pub proof fn lemma_command_aliases(
    before: Seq<String>,
    word: String,
    other: String,
    rest: Seq<String>,
)
    requires
        (is_remove_word(word@) && is_remove_word(other@)) || (is_new_word(word@) && is_new_word(
            other@,
        )),
    ensures
        parse_command(before + seq![word] + rest, before.len() as int) == parse_command(
            before + seq![other] + rest,
            before.len() as int,
        ),
{
    let n = before.len() as int;
    let a = before + seq![word] + rest;
    let b = before + seq![other] + rest;
    assert(a[n] == word);
    assert(b[n] == other);
    assert forall|k: int| 0 <= k < a.len() - (n + 1) implies #[trigger] a[n + 1 + k] == b[n + 1
        + k] by {
        assert(a[n + 1 + k] == rest[k]);
        assert(b[n + 1 + k] == rest[k]);
    }
    lemma_no_more_args_shift(a, n + 1, b, n + 1);
    if n + 1 < a.len() {
        assert(a[n + 1] == b[n + 1]);
        lemma_same_from_step(a, n + 1, b, n + 1, 1);
        lemma_no_more_args_shift(a, n + 2, b, n + 2);
    }
    lemma_not_other_command(word@);
    lemma_not_other_command(other@);
}

proof fn lemma_not_other_command(w: Seq<char>)
    requires
        is_remove_word(w) || is_new_word(w),
    ensures
        w != "save"@,
        w != "use"@,
        w != "list"@,
        w != "path"@,
        w != "completion"@,
        w != "help"@,
        is_remove_word(w) != is_new_word(w),
{
    reveal_strlit("remove");
    assert("remove"@ =~= seq!['r', 'e', 'm', 'o', 'v', 'e']);
    reveal_strlit("delete");
    assert("delete"@ =~= seq!['d', 'e', 'l', 'e', 't', 'e']);
    reveal_strlit("rm");
    assert("rm"@ =~= seq!['r', 'm']);
    reveal_strlit("new");
    assert("new"@ =~= seq!['n', 'e', 'w']);
    reveal_strlit("restart");
    assert("restart"@ =~= seq!['r', 'e', 's', 't', 'a', 'r', 't']);
    reveal_strlit("clear");
    assert("clear"@ =~= seq!['c', 'l', 'e', 'a', 'r']);
    reveal_strlit("logout-local");
    assert("logout-local"@ =~= seq!['l', 'o', 'g', 'o', 'u', 't', '-', 'l', 'o', 'c', 'a', 'l']);
    reveal_strlit("save");
    assert("save"@ =~= seq!['s', 'a', 'v', 'e']);
    reveal_strlit("use");
    assert("use"@ =~= seq!['u', 's', 'e']);
    reveal_strlit("list");
    assert("list"@ =~= seq!['l', 'i', 's', 't']);
    reveal_strlit("path");
    assert("path"@ =~= seq!['p', 'a', 't', 'h']);
    reveal_strlit("completion");
    assert("completion"@ =~= seq!['c', 'o', 'm', 'p', 'l', 'e', 't', 'i', 'o', 'n']);
    reveal_strlit("help");
    assert("help"@ =~= seq!['h', 'e', 'l', 'p']);
}

} // verus!
