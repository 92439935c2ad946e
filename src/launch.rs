use vstd::prelude::*;
use vstd::string::*;

verus! {

/// Why a version could not be launched.
#[derive(Clone, Copy, Debug, PartialEq, Eq, Structural)]
pub enum LaunchError {
    /// The version's binary is not a regular file in its install directory.
    NotInstalled,
}

/// A process to start and leave running.
#[derive(Debug)]
pub struct LaunchCommand {
    pub program: String,
    pub args: Vec<String>,
    /// Whether the standard streams are cut off rather than inherited.
    pub detached: bool,
}

/// The texts of a list of strings.
pub open spec fn strings_view(v: Seq<String>) -> Seq<Seq<char>> {
    v.map_values(|s: String| s@)
}

/// Arguments of a launch: the project manager flag in that mode, none otherwise.
pub open spec fn launch_args(project_manager: bool) -> Seq<Seq<char>> {
    if project_manager {
        seq!["--project-manager"@]
    } else {
        Seq::empty()
    }
}

/// Decides how to launch the binary at `binary_path`, given whether it is a
/// regular file: `NotInstalled` when it is not, and then nothing is to be
/// started. In project-manager mode the process gets the project manager flag
/// and no standard streams; otherwise it inherits them.
pub fn cmd(binary_path: &str, is_file: bool, project_manager: bool) -> (r: Result<LaunchCommand, LaunchError>)
    ensures
        is_file <==> r is Ok,
        !is_file ==> r == Err::<LaunchCommand, LaunchError>(LaunchError::NotInstalled),
        r matches Ok(c) ==> {
            &&& c.program@ == binary_path@
            &&& strings_view(c.args@) == launch_args(project_manager)
            &&& c.detached == project_manager
        },
{
    if !is_file {
        return Err(LaunchError::NotInstalled);
    }
    let mut args: Vec<String> = Vec::new();
    if project_manager {
        args.push(String::from_str("--project-manager"));
    }
    proof {
        assert(strings_view(args@) =~= launch_args(project_manager));
    }
    Ok(LaunchCommand { program: String::from_str(binary_path), args, detached: project_manager })
}

} // verus!
