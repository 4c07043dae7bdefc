use hexcore::cmd::{create_game_command, CommandArg, ExePath};
use hexcore::game::{ProgramExe, OS};

#[test]
fn windows_provided_jvm() {
    let program = ProgramExe::provided_jvm("a.jar".to_string());
    let cmd = create_game_command(OS::Windows, program).unwrap();

    assert_eq!(cmd.program, ExePath::OnPath("javaw".to_string()));
    assert_eq!(
        cmd.args,
        vec![
            CommandArg::Literal("-jar".to_string()),
            CommandArg::InGameDir("a.jar".to_string()),
        ]
    );
}

#[test]
fn linux_provided_jvm() {
    let program = ProgramExe::provided_jvm("a.jar".to_string());
    let cmd = create_game_command(OS::Linux, program).unwrap();

    assert_eq!(cmd.program, ExePath::OnPath("java".to_string()));
    assert_eq!(
        cmd.args,
        vec![
            CommandArg::Literal("-jar".to_string()),
            CommandArg::InGameDir("a.jar".to_string()),
        ]
    );
}

#[test]
fn macos_provided_jvm() {
    let program = ProgramExe::provided_jvm("a.jar".to_string());
    let cmd = create_game_command(OS::Macos, program).unwrap();

    assert_eq!(cmd.program, ExePath::OnPath("java".to_string()));
    assert_eq!(
        cmd.args,
        vec![
            CommandArg::Literal("-XstartOnFirstThread".to_string()),
            CommandArg::Literal("-jar".to_string()),
            CommandArg::InGameDir("a.jar".to_string()),
        ]
    );
}

#[test]
fn windows_embedded_jvm() {
    let program = ProgramExe::embedded_jvm("a.jar".to_string(), "jre/bin/java.exe".to_string());
    let cmd = create_game_command(OS::Windows, program).unwrap();

    assert_eq!(cmd.program, ExePath::InGameDir("jre/bin/java.exe".to_string()));
    assert_eq!(
        cmd.args,
        vec![
            CommandArg::Literal("-jar".to_string()),
            CommandArg::InGameDir("a.jar".to_string()),
        ]
    );
}

#[test]
fn linux_embedded_jvm() {
    let program = ProgramExe::embedded_jvm("a.jar".to_string(), "jre/bin/java".to_string());
    let cmd = create_game_command(OS::Linux, program).unwrap();

    assert_eq!(cmd.program, ExePath::InGameDir("jre/bin/java".to_string()));
    assert_eq!(
        cmd.args,
        vec![
            CommandArg::Literal("-jar".to_string()),
            CommandArg::InGameDir("a.jar".to_string()),
        ]
    );
}

#[test]
fn macos_embedded_jvm() {
    let program = ProgramExe::embedded_jvm("a.jar".to_string(), "jre/bin/java".to_string());
    let cmd = create_game_command(OS::Macos, program).unwrap();

    assert_eq!(cmd.program, ExePath::InGameDir("jre/bin/java".to_string()));
    assert_eq!(
        cmd.args,
        vec![
            CommandArg::Literal("-XstartOnFirstThread".to_string()),
            CommandArg::Literal("-jar".to_string()),
            CommandArg::InGameDir("a.jar".to_string()),
        ]
    );
}

#[test]
fn windows_native() {
    let program = ProgramExe::native("bin/a.exe".to_string());
    let cmd = create_game_command(OS::Windows, program).unwrap();

    assert_eq!(cmd.program, ExePath::InGameDir("bin/a.exe".to_string()));
    assert_eq!(cmd.args, vec![]);
}

#[test]
fn linux_native() {
    let program = ProgramExe::native("bin/a".to_string());
    let cmd = create_game_command(OS::Linux, program).unwrap();

    assert_eq!(cmd.program, ExePath::InGameDir("bin/a".to_string()));
    assert_eq!(cmd.args, vec![]);
}

#[test]
fn macos_native() {
    let program = ProgramExe::native("bin/a".to_string());
    let cmd = create_game_command(OS::Macos, program).unwrap();

    assert_eq!(cmd.program, ExePath::InGameDir("bin/a".to_string()));
    assert_eq!(cmd.args, vec![]);
}

#[test]
fn absolute_jar_is_rejected() {
    let program = ProgramExe::provided_jvm("/abs/a.jar".to_string());
    let r = create_game_command(OS::Linux, program);
    assert_eq!(r, Err(hexcore::cmd::CommandError::JarPathNotRelative));
}
