//! The shell integration scripts: a `trees` function that runs the program
//! and changes into the directory it prints.

use vstd::prelude::*;
use vstd::string::*;

use crate::error::TreesError;
use crate::text::same_text;

verus! {

/// The zsh integration script.
pub const ZSH_SCRIPT: &'static str = r#"# Trees zsh integration
# Usage: eval "$(trees-bin shell zsh)"

trees() {
    local DIR
    local STATUS
    if [ $# -gt 0 ]; then
        case "$1" in
            add|rm|merge|pull|list|--help|-h|help|--version|-V|--dir-only)
                # These commands don't need --dir-only, run directly
                trees-bin "$@"
                STATUS=$?
                return $STATUS
                ;;
            *)
                # For other cases (like no args), try to get directory
                DIR=$(trees-bin "$@" --dir-only)
                STATUS=$?
                ;;
        esac
    else
        DIR=$(trees-bin --dir-only)
        STATUS=$?
    fi
    if [ -n "$DIR" ]; then
        \cd "$DIR"
    else
        ( exit $STATUS )
    fi
}

# Add completion for trees
_trees() {
    local curcontext="$curcontext" state line
    typeset -A opt_args
    
    _arguments -C \
        '1: :->cmds' \
        '*:: :->args'
    
    case "$state" in
        cmds)
            _values 'trees commands' \
                'add[Add a new worktree]' \
                'list[List worktrees]' \
                'rm[Remove a worktree]' \
                'merge[Merge two worktrees]' \
                'pull[Pull updates for all worktrees]'
            ;;
        args)
            case "$line[1]" in
                add|list|rm|merge)
                    # Could add more specific completion here
                    _files
                    ;;
            esac
            ;;
    esac
}

compdef _trees trees"#;

/// The bash integration script.
pub const BASH_SCRIPT: &'static str = r#"# Trees bash integration
# Usage: eval "$(trees-bin shell bash)"

trees() {
    local DIR
    local STATUS
    if [ $# -gt 0 ]; then
        case "$1" in
            add|rm|merge|pull|list|--help|-h|help|--version|-V|--dir-only)
                # These commands don't need --dir-only, run directly
                trees-bin "$@"
                STATUS=$?
                return $STATUS
                ;;
            *)
                # For other cases (like no args), try to get directory
                DIR=$(trees-bin "$@" --dir-only)
                STATUS=$?
                ;;
        esac
    else
        DIR=$(trees-bin --dir-only)
        STATUS=$?
    fi
    if [ -n "$DIR" ]; then
        \cd "$DIR"
    else
        ( exit $STATUS )
    fi
}

# Add completion for trees
_trees_completion() {
    local cur prev opts
    COMPREPLY=()
    cur="${COMP_WORDS[COMP_CWORD]}"
    prev="${COMP_WORDS[COMP_CWORD-1]}"
    
    opts="add list rm merge pull"
    
    if [[ ${cur} == * ]] ; then
        COMPREPLY=( $(compgen -W "${opts}" -- ${cur}) )
    fi
}

complete -F _trees_completion trees"#;

/// The fish integration script.
pub const FISH_SCRIPT: &'static str = r#"# Trees fish integration
# Usage: eval "$(trees-bin shell fish)"

function trees
    set DIR
    set STATUS
    if [ $argv[1] ]
        switch $argv[1]
            case "add" "rm" "merge" "pull" "list" "--help" "-h" "help" "--version" "-V" "--dir-only"
                # These commands don't need --dir-only, run directly
                trees-bin $argv
                set STATUS $status
                return $STATUS
            case "*"
                # For other cases (like no args), try to get directory
                set DIR (trees-bin $argv --dir-only)
                set STATUS $status
        end
    else
        set DIR (trees-bin --dir-only)
        set STATUS $status
    end
    if [ -n "$DIR" ]
        \cd "$DIR"
    else
        exit $STATUS
    end
end

# Add completion for trees
complete -c trees -f -a "add list rm merge pull" -d "Git worktree management"
complete -c trees -n "__fish_seen_subcommand_from add" -f -d "Add a new worktree"
complete -c trees -n "__fish_seen_subcommand_from list" -f -d "List worktrees"
complete -c trees -n "__fish_seen_subcommand_from rm" -f -d "Remove a worktree"
complete -c trees -n "__fish_seen_subcommand_from merge" -f -d "Merge two worktrees"
complete -c trees -n "__fish_seen_subcommand_from pull" -f -d "Pull updates for all worktrees""#;

/// The integration script of the shell named `shell`: zsh, bash or fish.
pub fn shell_script(shell: &str) -> (r: Result<String, TreesError>)
    ensures
        shell@ == "zsh"@ ==> (r matches Ok(s) && s@ == ZSH_SCRIPT@),
        shell@ == "bash"@ ==> (r matches Ok(s) && s@ == BASH_SCRIPT@),
        shell@ == "fish"@ ==> (r matches Ok(s) && s@ == FISH_SCRIPT@),
        !(shell@ == "zsh"@ || shell@ == "bash"@ || shell@ == "fish"@) ==> (r matches Err(
            TreesError::UnsupportedShell(n),
        ) && n@ == shell@),
{
    proof {
        reveal_strlit("zsh");
        reveal_strlit("bash");
        reveal_strlit("fish");
        assert("zsh"@[0] != "fish"@[0] && "bash"@[0] != "fish"@[0] && "zsh"@[0] != "bash"@[0]);
    }
    if same_text(shell, "zsh") {
        Ok(String::from_str(ZSH_SCRIPT))
    } else if same_text(shell, "bash") {
        Ok(String::from_str(BASH_SCRIPT))
    } else if same_text(shell, "fish") {
        Ok(String::from_str(FISH_SCRIPT))
    } else {
        Err(TreesError::UnsupportedShell(String::from_str(shell)))
    }
}

} // verus!
