use trees::shell::shell_script;

#[test]
fn test_shell_script_handles_add_command() {
    let script = shell_script("zsh").unwrap();
    assert!(script.contains("add|rm|merge|pull|list"));
    assert!(script.contains("trees-bin \"$@\""));
    assert!(script.contains("return $STATUS"));
}

#[test]
fn test_shell_script_handles_no_args() {
    let script = shell_script("zsh").unwrap();
    assert!(script.contains("DIR=$(trees-bin --dir-only)"));
}

#[test]
fn test_bash_script_handles_add_command() {
    let script = shell_script("bash").unwrap();
    assert!(script.contains("add|rm|merge|pull|list"));
    assert!(script.contains("trees-bin \"$@\""));
    assert!(script.contains("return $STATUS"));
}

#[test]
fn test_fish_script_handles_add_command() {
    let script = shell_script("fish").unwrap();
    assert!(script.contains("add\" \"rm\" \"merge\" \"pull\" \"list"));
    assert!(script.contains("trees-bin $argv"));
    assert!(script.contains("return $STATUS"));
}
