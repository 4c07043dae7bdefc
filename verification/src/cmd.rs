//! Planning the process that starts a game version.
//!
//! The plan names the program to run and its arguments; paths that live
//! inside the game's own directory are marked as such, and the embedding
//! layer joins them with the actual directory and spawns the process. A
//! path is taken as relative when it does not start with a separator.

use vstd::prelude::*;

use crate::game::{ProgramExe, OS};

verus! {

/// Where the program to run is found.
#[derive(Debug, PartialEq, Eq)]
pub enum ExePath {
    /// A path relative to the game's directory.
    InGameDir(String),
    /// A program name resolved through the system's search path.
    OnPath(String),
}

/// One argument of the planned command.
#[derive(Debug, PartialEq, Eq)]
pub enum CommandArg {
    /// Passed through as written.
    Literal(String),
    /// A path relative to the game's directory, joined by the embedding
    /// layer before it is passed.
    InGameDir(String),
}

/// The planned command: program, arguments in order, to be run inside the
/// game's directory.
#[derive(Debug, PartialEq, Eq)]
pub struct GameCommand {
    pub program: ExePath,
    pub args: Vec<CommandArg>,
}

/// Why no command could be planned.
#[derive(Debug, PartialEq, Eq, Clone, Copy, Structural)]
pub enum CommandError {
    /// The jar file's path was not relative, so it cannot live inside the
    /// game's directory.
    JarPathNotRelative,
}

/// Whether a path stays inside the directory it is joined to: it is
/// non-absolute, i.e. does not start with a separator.
pub open spec fn path_is_relative(path: Seq<char>) -> bool {
    !(path.len() > 0 && path[0] == '/')
}

/// Whether `arg` is the literal string `s`.
pub open spec fn is_literal_arg(arg: CommandArg, s: Seq<char>) -> bool {
    arg matches CommandArg::Literal(v) && v@ == s
}

/// The program a JVM launch uses: the shipped Java executable when one is
/// named by a relative path, else the system's `javaw` on Windows and
/// `java` elsewhere.
pub open spec fn java_program_ok(p: ExePath, os: OS, java_exe: Option<String>) -> bool {
    match java_exe {
        Some(j) if path_is_relative(j@) => p == ExePath::InGameDir(j),
        _ => {
            p matches ExePath::OnPath(name) && name@ == (if os == OS::Windows {
                "javaw"@
            } else {
                "java"@
            })
        },
    }
}

/// The arguments of a JVM launch: `-jar` and the jar's in-game-dir path,
/// preceded on macOS by `-XstartOnFirstThread`.
pub open spec fn jvm_args_ok(args: Seq<CommandArg>, os: OS, jar_file: String) -> bool {
    if os == OS::Macos {
        &&& args.len() == 3
        &&& is_literal_arg(args[0], "-XstartOnFirstThread"@)
        &&& is_literal_arg(args[1], "-jar"@)
        &&& args[2] == CommandArg::InGameDir(jar_file)
    } else {
        &&& args.len() == 2
        &&& is_literal_arg(args[0], "-jar"@)
        &&& args[1] == CommandArg::InGameDir(jar_file)
    }
}

/// Whether a path does not begin with a separator.
fn is_relative(path: &String) -> (r: bool)
    ensures
        r == path_is_relative(path@),
{
    let n = path.as_str().unicode_len();
    if n == 0 {
        true
    } else {
        path.as_str().get_char(0) != '/'
    }
}

/// Plan the command that starts `program` on `os` from inside the game's
/// directory. A native executable must be relative (it ships inside the
/// game's directory); a jar file that is not relative is rejected.
pub fn create_game_command(os: OS, program: ProgramExe) -> (r: Result<GameCommand, CommandError>)
    requires
        program matches ProgramExe::Native { executable } ==> path_is_relative(executable@),
    ensures
        match program {
            ProgramExe::Native { executable } => r matches Ok(c) && c.program
                == ExePath::InGameDir(executable) && c.args@.len() == 0,
            ProgramExe::Jvm { jar_file, java_exe } => {
                if path_is_relative(jar_file@) {
                    &&& r matches Ok(c)
                    &&& java_program_ok(c.program, os, java_exe)
                    &&& jvm_args_ok(c.args@, os, jar_file)
                } else {
                    r == Err::<GameCommand, CommandError>(CommandError::JarPathNotRelative)
                }
            },
        },
{
    match program {
        ProgramExe::Native { executable } => {
            Ok(GameCommand { program: ExePath::InGameDir(executable), args: Vec::new() })
        },
        ProgramExe::Jvm { jar_file, java_exe } => {
            if !is_relative(&jar_file) {
                return Err(CommandError::JarPathNotRelative);
            }
            let prog = match java_exe {
                Some(j) => {
                    if is_relative(&j) {
                        ExePath::InGameDir(j)
                    } else if os == OS::Windows {
                        ExePath::OnPath(String::from_str("javaw"))
                    } else {
                        ExePath::OnPath(String::from_str("java"))
                    }
                },
                None => {
                    if os == OS::Windows {
                        ExePath::OnPath(String::from_str("javaw"))
                    } else {
                        ExePath::OnPath(String::from_str("java"))
                    }
                },
            };
            let mut args: Vec<CommandArg> = Vec::new();
            if os == OS::Macos {
                args.push(CommandArg::Literal(String::from_str("-XstartOnFirstThread")));
            }
            args.push(CommandArg::Literal(String::from_str("-jar")));
            args.push(CommandArg::InGameDir(jar_file));
            Ok(GameCommand { program: prog, args })
        },
    }
}

} // verus!
