use llm_term::shell::Shell;
use llm_term::shell::shell_basename;

#[test]
fn invocation_pairs() {
    assert_eq!(Shell::Powershell.to_shell_command_and_command_arg(), ("powershell", "-Command"));
    assert_eq!(Shell::BornAgainShell.to_shell_command_and_command_arg(), ("bash", "-c"));
    assert_eq!(Shell::Zsh.to_shell_command_and_command_arg(), ("zsh", "-c"));
    assert_eq!(Shell::Fish.to_shell_command_and_command_arg(), ("fish", "-c"));
    assert_eq!(Shell::DebianAlmquistShell.to_shell_command_and_command_arg(), ("dash", "-c"));
    assert_eq!(Shell::KornShell.to_shell_command_and_command_arg(), ("ksh", "-c"));
    assert_eq!(Shell::CShell.to_shell_command_and_command_arg(), ("csh", "-c"));
    assert_eq!(Shell::Unknown.to_shell_command_and_command_arg(), ("sh", "-c"));
}

#[test]
fn basename_of_shell_paths() {
    assert_eq!(shell_basename("/bin/bash"), "bash");
    assert_eq!(shell_basename("/usr/local/bin/fish"), "fish");
    assert_eq!(shell_basename("zsh"), "zsh");
    assert_eq!(shell_basename(""), "");
}

#[test]
fn detection_from_signals() {
    assert_eq!(Shell::from_signals(Some("/bin/bash"), false), Shell::BornAgainShell);
    assert_eq!(Shell::from_signals(Some("/usr/bin/zsh"), false), Shell::Zsh);
    assert_eq!(Shell::from_signals(Some("/usr/local/bin/fish"), false), Shell::Fish);
    assert_eq!(Shell::from_signals(Some("/bin/dash"), false), Shell::DebianAlmquistShell);
    assert_eq!(Shell::from_signals(Some("/bin/ksh"), false), Shell::KornShell);
    assert_eq!(Shell::from_signals(Some("/bin/csh"), false), Shell::CShell);
    assert_eq!(Shell::from_signals(Some("/opt/strange/thing"), false), Shell::Unknown);
    assert_eq!(Shell::from_signals(None, false), Shell::Unknown);
    // on Windows the variable is ignored
    assert_eq!(Shell::from_signals(Some("/bin/bash"), true), Shell::Powershell);
    assert_eq!(Shell::from_signals(None, true), Shell::Powershell);
}

#[test]
fn detection_is_deterministic() {
    // the same environment signals always give the same identity and pair
    let a = Shell::from_signals(Some("/bin/bash"), false);
    let b = Shell::from_signals(Some("/bin/bash"), false);
    assert_eq!(a, b);
    assert_eq!(a.to_shell_command_and_command_arg(), b.to_shell_command_and_command_arg());
}
