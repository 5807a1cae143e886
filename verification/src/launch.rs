//! What a run is asked to do, as told by the command line.

use vstd::prelude::*;
use vstd::string::*;

verus! {

/// The flag that asks for a starter shader file.
pub const CREATE_FLAG: &'static str = "-c";

/// Name of the starter file when the command line gives none.
pub const DEFAULT_SHADER_NAME: &'static str = "fragment";

/// Extension of shader files.
pub const SHADER_EXTENSION: &'static str = ".wgsl";

/// Title of the window.
pub const WINDOW_TITLE: &'static str = "Horus";

/// Width and height of the window when it opens, in logical pixels.
pub const WINDOW_SIDE: u32 = 700;

/// What is said before a starter file is written; its name follows.
pub const CREATED_NOTE: &'static str = "[Horus] Created ";

/// What is said before a fragment program is read; its path follows.
pub const RUNNING_NOTE: &'static str = "[Horus] Running ";

/// What is said when the command line names neither a file nor the flag.
pub const USAGE_NOTE: &'static str =
    "[Horus] Use \"-c filename\" to create a new shader\n[Horus] Pass in an existing shader to run it";

/// What to do in this run.
#[derive(Debug, PartialEq, Eq)]
pub enum Launch {
    /// Write the default fragment program to this file and leave, without
    /// opening a window.
    CreateShader { file_name: String },
    /// Open the window and run the fragment program read from this file.
    RunFile { path: String },
    /// Open the window and run the default fragment program.
    RunDefault,
}

/// The file name of a starter shader: the name given after the flag, or the
/// default name, with the extension of shader files appended.
pub open spec fn starter_file_name(args: Seq<String>) -> Seq<char> {
    if args.len() > 1 {
        args[1]@ + SHADER_EXTENSION@
    } else {
        DEFAULT_SHADER_NAME@ + SHADER_EXTENSION@
    }
}

impl Launch {
    /// The line that tells the user what this run does.
    pub open spec fn note(self) -> Seq<char> {
        match self {
            Launch::CreateShader { file_name } => CREATED_NOTE@ + file_name@,
            Launch::RunFile { path } => RUNNING_NOTE@ + path@,
            Launch::RunDefault => USAGE_NOTE@,
        }
    }

    /// The line to print before the run does anything else.
    pub fn announcement(&self) -> (line: String)
        ensures
            line@ == self.note(),
    {
        match self {
            Launch::CreateShader { file_name } => String::from_str(CREATED_NOTE).concat(
                file_name.as_str(),
            ),
            Launch::RunFile { path } => String::from_str(RUNNING_NOTE).concat(path.as_str()),
            Launch::RunDefault => String::from_str(USAGE_NOTE),
        }
    }
}

/// Reads the command line, given without the name of the program.
///
/// No argument asks for the default fragment program. A first argument that
/// is exactly the create flag asks for a starter file, named by the second
/// argument if there is one. Any other first argument is the path of the
/// fragment program to run.
pub fn plan(args: &Vec<String>) -> (launch: Launch)
    ensures
        args@.len() == 0 ==> launch is RunDefault,
        args@.len() > 0 && args@[0]@ == CREATE_FLAG@ ==> (launch matches Launch::CreateShader {
            file_name,
        } && file_name@ == starter_file_name(args@)),
        args@.len() > 0 && args@[0]@ != CREATE_FLAG@ ==> (launch matches Launch::RunFile { path }
            && path@ == args@[0]@),
{
    if args.len() == 0 {
        return Launch::RunDefault;
    }
    let flag: String = String::from_str(CREATE_FLAG);
    if args[0] == flag {
        let name: String = if args.len() > 1 {
            args[1].clone()
        } else {
            String::from_str(DEFAULT_SHADER_NAME)
        };
        Launch::CreateShader { file_name: name.concat(SHADER_EXTENSION) }
    } else {
        Launch::RunFile { path: args[0].clone() }
    }
}

} // verus!
