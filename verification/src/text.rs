use vstd::prelude::*;
use vstd::string::*;

use crate::cli::Shell;

verus! {

/// The help text.
pub open spec fn usage_spec() -> Seq<char> {
    "Usage: codex-accounts [OPTIONS] <COMMAND>\n\nCommands:\n  save NAME [--from AUTH_JSON] [--force]  Save the active login\n  use NAME                                Activate a saved profile\n  list [--plain]                          List saved profiles\n  remove NAME                             Delete a saved profile\n  new                                     Clear the active login locally\n  path                                    Show resolved storage paths\n  completion <SHELL>                      Print a completion script\n  help                                    Show help\n\nAliases: delete and rm for remove; restart, clear and logout-local for new.\n\nOptions:\n  --codex-home PATH  Use a custom Codex data directory\n  --no-color         Disable colored output\n  --plain            Use stable, script-friendly output\n"@
}

/// The help text, as `usage_spec` says.
pub fn usage_text() -> (r: String)
    ensures
        r@ == usage_spec(),
{
    String::from_str("Usage: codex-accounts [OPTIONS] <COMMAND>\n\nCommands:\n  save NAME [--from AUTH_JSON] [--force]  Save the active login\n  use NAME                                Activate a saved profile\n  list [--plain]                          List saved profiles\n  remove NAME                             Delete a saved profile\n  new                                     Clear the active login locally\n  path                                    Show resolved storage paths\n  completion <SHELL>                      Print a completion script\n  help                                    Show help\n\nAliases: delete and rm for remove; restart, clear and logout-local for new.\n\nOptions:\n  --codex-home PATH  Use a custom Codex data directory\n  --no-color         Disable colored output\n  --plain            Use stable, script-friendly output\n")
}

/// The completion script for a shell: it completes the command names, the
/// shell names after `completion`, and file names elsewhere.
pub open spec fn completion_spec(shell: Shell) -> Seq<char> {
    match shell {
        Shell::Bash => "_codex_accounts() {\n    local cur=\"${COMP_WORDS[COMP_CWORD]}\"\n    if [ \"$COMP_CWORD\" -eq 1 ]; then\n        COMPREPLY=($(compgen -W \"save use list remove delete rm new restart clear logout-local path completion help\" -- \"$cur\"))\n    elif [ \"${COMP_WORDS[1]}\" = \"completion\" ]; then\n        COMPREPLY=($(compgen -W \"bash zsh fish powershell\" -- \"$cur\"))\n    else\n        COMPREPLY=($(compgen -f -- \"$cur\"))\n    fi\n}\ncomplete -F _codex_accounts codex-accounts\n"@,
        Shell::Zsh => "#compdef codex-accounts\n_codex_accounts() {\n    if (( CURRENT == 2 )); then\n        compadd save use list remove delete rm new restart clear logout-local path completion help\n    elif [[ ${words[2]} == completion ]]; then\n        compadd bash zsh fish powershell\n    else\n        _files\n    fi\n}\ncompdef _codex_accounts codex-accounts\n"@,
        Shell::Fish => "complete -c codex-accounts -f -n '__fish_use_subcommand' -a 'save use list remove delete rm new restart clear logout-local path completion help'\ncomplete -c codex-accounts -f -n '__fish_seen_subcommand_from completion' -a 'bash zsh fish powershell'\ncomplete -c codex-accounts -n '__fish_seen_subcommand_from save' -l from -r -F\ncomplete -c codex-accounts -n '__fish_seen_subcommand_from save' -l force\n"@,
        Shell::PowerShell => "Register-ArgumentCompleter -Native -CommandName codex-accounts -ScriptBlock {\n    param($wordToComplete, $commandAst, $cursorPosition)\n    'save use list remove delete rm new restart clear logout-local path completion help'.Split(' ') |\n        Where-Object { $_ -like \"$wordToComplete*\" } |\n        ForEach-Object { [System.Management.Automation.CompletionResult]::new($_, $_, 'ParameterValue', $_) }\n}\n"@,
    }
}

/// The completion script for a shell, as `completion_spec` says.
pub fn completion_script(shell: Shell) -> (r: String)
    ensures
        r@ == completion_spec(shell),
{
    match shell {
        Shell::Bash => String::from_str("_codex_accounts() {\n    local cur=\"${COMP_WORDS[COMP_CWORD]}\"\n    if [ \"$COMP_CWORD\" -eq 1 ]; then\n        COMPREPLY=($(compgen -W \"save use list remove delete rm new restart clear logout-local path completion help\" -- \"$cur\"))\n    elif [ \"${COMP_WORDS[1]}\" = \"completion\" ]; then\n        COMPREPLY=($(compgen -W \"bash zsh fish powershell\" -- \"$cur\"))\n    else\n        COMPREPLY=($(compgen -f -- \"$cur\"))\n    fi\n}\ncomplete -F _codex_accounts codex-accounts\n"),
        Shell::Zsh => String::from_str("#compdef codex-accounts\n_codex_accounts() {\n    if (( CURRENT == 2 )); then\n        compadd save use list remove delete rm new restart clear logout-local path completion help\n    elif [[ ${words[2]} == completion ]]; then\n        compadd bash zsh fish powershell\n    else\n        _files\n    fi\n}\ncompdef _codex_accounts codex-accounts\n"),
        Shell::Fish => String::from_str("complete -c codex-accounts -f -n '__fish_use_subcommand' -a 'save use list remove delete rm new restart clear logout-local path completion help'\ncomplete -c codex-accounts -f -n '__fish_seen_subcommand_from completion' -a 'bash zsh fish powershell'\ncomplete -c codex-accounts -n '__fish_seen_subcommand_from save' -l from -r -F\ncomplete -c codex-accounts -n '__fish_seen_subcommand_from save' -l force\n"),
        Shell::PowerShell => String::from_str("Register-ArgumentCompleter -Native -CommandName codex-accounts -ScriptBlock {\n    param($wordToComplete, $commandAst, $cursorPosition)\n    'save use list remove delete rm new restart clear logout-local path completion help'.Split(' ') |\n        Where-Object { $_ -like \"$wordToComplete*\" } |\n        ForEach-Object { [System.Management.Automation.CompletionResult]::new($_, $_, 'ParameterValue', $_) }\n}\n"),
    }
}

} // verus!
