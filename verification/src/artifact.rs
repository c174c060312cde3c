//! The build: what comes out of it, and which of its files is flashed.
use crate::arguments::Opt;
use crate::text::optional_text;
use vstd::prelude::*;

verus! {

/// How a command ended.
#[derive(Debug, Clone, Copy, PartialEq, Eq, Structural)]
pub struct CommandStatus {
    /// Whether it succeeded.
    pub success: bool,
    /// The code that it ended with, if it ended by itself.
    pub code: Option<i32>,
    /// The signal that ended it, if one did.
    pub signal: Option<i32>,
}

/// The code to end with after a command that failed.
pub open spec fn exit_code_of(status: CommandStatus) -> i32 {
    match (status.code, status.signal) {
        (Some(code), _) => code,
        (None, Some(signal)) => signal,
        (None, None) => 1,
    }
}

/// The code to end with after a command that failed: its own, else the signal that ended it, else
/// 1.
pub fn handle_failed_command(status: CommandStatus) -> (code: i32)
    ensures
        code == exit_code_of(status),
{
    match status.code {
        Some(code) => code,
        None => match status.signal {
            Some(signal) => signal,
            None => 1,
        },
    }
}

/// A command that failed never makes the tool end as if it had succeeded, where success is code 0
/// and no signal has the number 0.
pub proof fn law_failure_is_passed_on(status: CommandStatus)
    requires
        !status.success,
        status.code == Some(0i32) ==> status.success,
        status.signal != Some(0i32),
    ensures
        exit_code_of(status) != 0,
{
}

/// A failed command's own code is passed on whatever else is known of it; without one the signal is,
/// and without either the code is 1.
pub proof fn law_code_goes_before_signal(status: CommandStatus, number: i32)
    ensures
        status.code == Some(number) ==> exit_code_of(status) == number,
        status.code is None && status.signal == Some(number) ==> exit_code_of(status) == number,
        status.code is None && status.signal is None ==> exit_code_of(status) == 1,
{
}

/// A file that a build makes.
#[derive(Debug, PartialEq, Eq)]
pub enum Artifact<T> {
    Bin(T),
    Example(T),
}

/// How a build is made.
#[derive(Debug, Clone, Copy, PartialEq, Eq, Structural)]
pub enum Profile {
    Dev,
    Release,
}

/// Which file of a build to find.
#[derive(Debug, PartialEq, Eq)]
pub struct ArtifactRequest<T> {
    pub artifact: Artifact<T>,
    pub profile: Profile,
    /// The target that was asked for.
    pub target: Option<T>,
    /// The target where none was asked for and the project has none of its own.
    pub host: T,
}

impl View for ArtifactRequest<String> {
    type V = ArtifactRequest<Seq<char>>;

    open spec fn view(&self) -> ArtifactRequest<Seq<char>> {
        ArtifactRequest {
            artifact: match self.artifact {
                Artifact::Bin(name) => Artifact::Bin(name@),
                Artifact::Example(name) => Artifact::Example(name@),
            },
            profile: self.profile,
            target: optional_text(self.target),
            host: self.host@,
        }
    }
}

/// The file that the options ask for: the binary or else the example that they name, or else the
/// binary with the project's name.
pub open spec fn artifact_of(opt: Opt, project: Seq<char>) -> Artifact<Seq<char>> {
    match (opt.bin, opt.example) {
        (Some(bin), _) => Artifact::Bin(bin@),
        (None, Some(example)) => Artifact::Example(example@),
        (None, None) => Artifact::Bin(project),
    }
}

/// Which file of a build of the given project the options ask for.
pub open spec fn artifact_request_of(opt: Opt, project: Seq<char>) -> ArtifactRequest<Seq<char>> {
    ArtifactRequest {
        artifact: artifact_of(opt, project),
        profile: if opt.release {
            Profile::Release
        } else {
            Profile::Dev
        },
        target: optional_text(opt.target),
        host: "x86_64-unknown-linux-gnu"@,
    }
}

/// Which file of a build of the given project the options ask for.
pub fn requested_artifact(opt: &Opt, project: &str) -> (request: ArtifactRequest<String>)
    ensures
        request@ == artifact_request_of(*opt, project@),
{
    let artifact = match &opt.bin {
        Some(bin) => Artifact::Bin(bin.clone()),
        None => match &opt.example {
            Some(example) => Artifact::Example(example.clone()),
            None => Artifact::Bin(project.to_owned()),
        },
    };
    let profile = if opt.release {
        Profile::Release
    } else {
        Profile::Dev
    };
    ArtifactRequest {
        artifact,
        profile,
        target: opt.target.clone(),
        host: "x86_64-unknown-linux-gnu".to_owned(),
    }
}

/// A binary that is asked for is flashed, whether or not an example is asked for too; an example is
/// where no binary is asked for; and the project's own binary is only where neither is.
pub proof fn law_the_file_asked_for_is_flashed(opt: Opt, project: Seq<char>, name: String)
    ensures
        ({
            let artifact = artifact_request_of(opt, project).artifact;
            &&& opt.bin == Some(name) ==> artifact == Artifact::Bin(name@)
            &&& opt.bin is None && opt.example == Some(name) ==> artifact == Artifact::Example(
                name@,
            )
            &&& opt.bin is None && opt.example is None ==> artifact == Artifact::Bin(project)
        }),
{
}

/// The project's name makes no difference where a file is asked for by its name.
pub proof fn law_a_named_file_is_not_the_projects(
    opt: Opt,
    project: Seq<char>,
    other_project: Seq<char>,
)
    requires
        opt.bin is Some || opt.example is Some,
    ensures
        artifact_request_of(opt, project) == artifact_request_of(opt, other_project),
{
}

/// The release build is looked in exactly where it is asked for, and a target that is asked for is
/// the one that is looked for, whatever the file.
pub proof fn law_the_build_asked_for_is_used(opt: Opt, project: Seq<char>, target: String)
    ensures
        ({
            let request = artifact_request_of(opt, project);
            &&& request.profile is Release <==> opt.release
            &&& opt.target == Some(target) ==> request.target == Some(target@)
            &&& opt.target is None ==> request.target is None
            &&& request.host == "x86_64-unknown-linux-gnu"@
        }),
{
}

} // verus!
