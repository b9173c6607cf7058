use trees::shell::shell_script;

#[test]
fn test_shell_integration_zsh() {
    let script = shell_script("zsh").unwrap();
    assert!(script.contains("trees()"));
    assert!(script.contains("if [ $# -gt 0 ]"));
    assert!(script.contains("if [ -n \"$DIR\" ]"));
}

#[test]
fn test_shell_integration_bash() {
    let script = shell_script("bash").unwrap();
    assert!(script.contains("trees()"));
    assert!(script.contains("if [ -n \"$DIR\" ]"));
}

#[test]
fn test_shell_integration_fish() {
    let script = shell_script("fish").unwrap();
    assert!(script.contains("function trees"));
    assert!(script.contains("if [ -n \"$DIR\" ]"));
}
