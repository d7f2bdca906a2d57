//! Building the guest: which commands to run, and what to make of how they
//! ended.
//!
//! The commands themselves are run by the caller. A build that fails ends the
//! session before any input is attempted.

use vstd::prelude::*;
use vstd::string::StringExecFns;
use crate::naming::{artifact_path, spec_artifact_path};

verus! {

/// The steps of a guest build.
#[derive(Clone, Copy, Debug, PartialEq, Eq, Structural)]
pub enum BuildStep {
    /// Compiling the guest's source to the backend's executable format.
    Compile,
    /// Converting the compiled guest to the text format that the backend
    /// loads.
    Convert,
}

/// A command for the caller to run: a program, the variables to add to its
/// environment, and its arguments.
#[derive(Debug)]
pub struct CommandPlan {
    pub program: String,
    pub environment: Vec<(String, String)>,
    pub arguments: Vec<String>,
}

/// The mathematical value of a [`CommandPlan`].
pub struct CommandLine {
    pub program: Seq<char>,
    pub environment: Seq<(Seq<char>, Seq<char>)>,
    pub arguments: Seq<Seq<char>>,
}

impl View for CommandPlan {
    type V = CommandLine;

    open spec fn view(&self) -> CommandLine {
        CommandLine {
            program: self.program@,
            environment: self.environment@.map_values(|pair: (String, String)| (pair.0@, pair.1@)),
            arguments: self.arguments@.map_values(|argument: String| argument@),
        }
    }
}

/// The command that compiles the package `package` to WebAssembly: a release
/// build for the `wasm32-unknown-unknown` target, with `MODEL` set to
/// `e5small` in its environment.
pub open spec fn spec_compile_command(package: Seq<char>) -> CommandLine {
    CommandLine {
        program: "cargo"@,
        environment: seq![("MODEL"@, "e5small"@)],
        arguments: seq![
            "build"@,
            "--release"@,
            "--target"@,
            "wasm32-unknown-unknown"@,
            "--package"@,
            package,
        ],
    }
}

/// The command that compiles the package `package` to WebAssembly.
pub fn compile_command(package: &str) -> (command: CommandPlan)
    ensures
        command@ == spec_compile_command(package@),
{
    let mut environment: Vec<(String, String)> = Vec::new();
    environment.push((String::from_str("MODEL"), String::from_str("e5small")));
    let mut arguments: Vec<String> = Vec::new();
    arguments.push(String::from_str("build"));
    arguments.push(String::from_str("--release"));
    arguments.push(String::from_str("--target"));
    arguments.push(String::from_str("wasm32-unknown-unknown"));
    arguments.push(String::from_str("--package"));
    arguments.push(String::from_str(package));
    let command = CommandPlan { program: String::from_str("cargo"), environment, arguments };
    assert(command@.environment =~= spec_compile_command(package@).environment);
    assert(command@.arguments =~= spec_compile_command(package@).arguments);
    command
}

/// The command that converts the compiled package under the build output
/// root `root` to text: `wasm2wat` on the package's `wasm` artifact.
pub open spec fn spec_convert_command(root: Seq<char>, package: Seq<char>) -> CommandLine {
    CommandLine {
        program: "wasm2wat"@,
        environment: Seq::empty(),
        arguments: seq![spec_artifact_path(root, package, "wasm"@)],
    }
}

/// The command that converts the compiled package under the build output
/// root `root` to text.
pub fn convert_command(root: &str, package: &str) -> (command: CommandPlan)
    ensures
        command@ == spec_convert_command(root@, package@),
{
    let mut arguments: Vec<String> = Vec::new();
    arguments.push(artifact_path(root, package, "wasm"));
    let command = CommandPlan {
        program: String::from_str("wasm2wat"),
        environment: Vec::new(),
        arguments,
    };
    assert(command@.environment =~= spec_convert_command(root@, package@).environment);
    assert(command@.arguments =~= spec_convert_command(root@, package@).arguments);
    command
}

/// How a build step ended.
#[derive(Debug)]
pub struct StepReport {
    /// Whether the toolchain could be started at all.
    pub launched: bool,
    /// Whether the toolchain reported success.
    pub succeeded: bool,
    /// What the toolchain wrote to its error stream.
    pub diagnostics: String,
}

/// The mathematical value of a [`StepReport`].
pub struct StepResult {
    pub launched: bool,
    pub succeeded: bool,
    pub diagnostics: Seq<char>,
}

impl View for StepReport {
    type V = StepResult;

    open spec fn view(&self) -> StepResult {
        StepResult {
            launched: self.launched,
            succeeded: self.succeeded,
            diagnostics: self.diagnostics@,
        }
    }
}

impl BuildStep {
    /// What is said of a step whose toolchain could not be started.
    pub open spec fn not_launched(self) -> Seq<char> {
        match self {
            BuildStep::Compile => "Failed to run the guest build"@,
            BuildStep::Convert => "Failed to run the guest conversion"@,
        }
    }

    /// What stands before the diagnostics of a step whose toolchain reported
    /// failure.
    pub open spec fn failed(self) -> Seq<char> {
        match self {
            BuildStep::Compile => "Building the guest failed:\n"@,
            BuildStep::Convert => "Converting the guest failed:\n"@,
        }
    }

    /// What stands before the diagnostics of a step that left no artifact.
    pub open spec fn no_artifact(self) -> Seq<char> {
        match self {
            BuildStep::Compile => "The guest build left no artifact:\n"@,
            BuildStep::Convert => "The guest conversion left no artifact:\n"@,
        }
    }

    /// The verdict on a step: it passed exactly if the toolchain was started,
    /// reported success and left its artifact. Otherwise the verdict is the
    /// text that says which of the three went wrong first, followed, where
    /// the toolchain ran, by the toolchain's diagnostics.
    pub open spec fn verdict(self, result: StepResult, artifact_present: bool) -> Result<
        (),
        Seq<char>,
    > {
        if !result.launched {
            Err(self.not_launched())
        } else if !result.succeeded {
            Err(self.failed() + result.diagnostics)
        } else if !artifact_present {
            Err(self.no_artifact() + result.diagnostics)
        } else {
            Ok(())
        }
    }

    /// The verdict on a step, given how it ended and whether it left its
    /// artifact.
    pub fn judge(self, report: &StepReport, artifact_present: bool) -> (verdict: Result<
        (),
        String,
    >)
        ensures
            match verdict {
                Ok(_) => self.verdict(report@, artifact_present) is Ok,
                Err(text) => self.verdict(report@, artifact_present) == Err::<(), Seq<char>>(
                    text@,
                ),
            },
    {
        if !report.launched {
            Err(
                String::from_str(
                    match self {
                        BuildStep::Compile => "Failed to run the guest build",
                        BuildStep::Convert => "Failed to run the guest conversion",
                    },
                ),
            )
        } else if !report.succeeded {
            let mut text = String::from_str(
                match self {
                    BuildStep::Compile => "Building the guest failed:\n",
                    BuildStep::Convert => "Converting the guest failed:\n",
                },
            );
            text.append(report.diagnostics.as_str());
            Err(text)
        } else if !artifact_present {
            let mut text = String::from_str(
                match self {
                    BuildStep::Compile => "The guest build left no artifact:\n",
                    BuildStep::Convert => "The guest conversion left no artifact:\n",
                },
            );
            text.append(report.diagnostics.as_str());
            Err(text)
        } else {
            Ok(())
        }
    }
}

} // verus!
