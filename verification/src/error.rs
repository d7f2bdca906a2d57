//! Failures of a benchmark session.

use vstd::prelude::*;
use vstd::string::StringExecFns;

verus! {

/// The stages of a pipeline run that can fail.
#[derive(Clone, Copy, Debug, PartialEq, Eq, Structural)]
pub enum Stage {
    /// Binding the artifact, the entry point and the arguments into a runnable unit.
    Load,
    /// Executing the program and proving the execution.
    Prove,
    /// Compressing the proof.
    Compress,
    /// Verifying the proof against its public instance.
    Verify,
}

impl Stage {
    /// The stage's name in lower case.
    pub open spec fn spec_name(self) -> Seq<char> {
        match self {
            Stage::Load => "load"@,
            Stage::Prove => "prove"@,
            Stage::Compress => "compress"@,
            Stage::Verify => "verify"@,
        }
    }

    /// The stage's name in lower case.
    pub fn name(&self) -> (text: &'static str)
        ensures
            text@ == self.spec_name(),
    {
        match self {
            Stage::Load => "load",
            Stage::Prove => "prove",
            Stage::Compress => "compress",
            Stage::Verify => "verify",
        }
    }
}

/// Why one input's run was abandoned: the stage that failed and what the
/// backend said about it. Such a failure ends that input's run and no other.
#[derive(Debug)]
pub struct PipelineError {
    pub stage: Stage,
    pub message: String,
}

/// The mathematical value of a [`PipelineError`].
pub struct Failure {
    pub stage: Stage,
    pub message: Seq<char>,
}

impl View for PipelineError {
    type V = Failure;

    open spec fn view(&self) -> Failure {
        Failure { stage: self.stage, message: self.message@ }
    }
}

impl Clone for PipelineError {
    fn clone(&self) -> (copy: Self)
        ensures
            copy@ == self@,
    {
        PipelineError { stage: self.stage, message: self.message.clone() }
    }
}

impl Failure {
    /// One line that names the stage and carries the backend's message.
    pub open spec fn describe(self) -> Seq<char> {
        "Failed in "@ + self.stage.spec_name() + ": "@ + self.message
    }

    /// Whether the proof was produced and then found invalid, as opposed to
    /// not having been produced at all.
    pub open spec fn is_correctness_alarm(self) -> bool {
        self.stage == Stage::Verify
    }
}

impl PipelineError {
    /// One line that names the stage and carries the backend's message.
    pub fn describe(&self) -> (text: String)
        ensures
            text@ == self@.describe(),
    {
        let mut text = String::from_str("Failed in ");
        text.append(self.stage.name());
        text.append(": ");
        text.append(self.message.as_str());
        text
    }

    /// Whether the proof was produced and then found invalid. Callers report
    /// such a failure more loudly than a proof that never came to be.
    pub fn is_correctness_alarm(&self) -> (alarm: bool)
        ensures
            alarm == self@.is_correctness_alarm(),
    {
        match self.stage {
            Stage::Verify => true,
            _ => false,
        }
    }
}

/// A failure that ends the whole session.
#[derive(Debug)]
pub enum BenchError {
    /// The guest could not be built; the text is the toolchain's diagnostic.
    Build(String),
    /// The report could not be written; the text is the sink's diagnostic.
    Report(String),
}

/// The mathematical value of a [`BenchError`].
pub enum SessionFailure {
    Build(Seq<char>),
    Report(Seq<char>),
}

impl View for BenchError {
    type V = SessionFailure;

    open spec fn view(&self) -> SessionFailure {
        match self {
            BenchError::Build(text) => SessionFailure::Build(text@),
            BenchError::Report(text) => SessionFailure::Report(text@),
        }
    }
}

impl Clone for BenchError {
    fn clone(&self) -> (copy: Self)
        ensures
            copy@ == self@,
    {
        match self {
            BenchError::Build(text) => BenchError::Build(text.clone()),
            BenchError::Report(text) => BenchError::Report(text.clone()),
        }
    }
}

impl SessionFailure {
    /// The diagnostic text, prefixed by the part of the session that failed.
    pub open spec fn describe(self) -> Seq<char> {
        match self {
            SessionFailure::Build(text) => "build: "@ + text,
            SessionFailure::Report(text) => "report: "@ + text,
        }
    }
}

impl BenchError {
    /// The diagnostic text, prefixed by the part of the session that failed.
    pub fn describe(&self) -> (text: String)
        ensures
            text@ == self@.describe(),
    {
        match self {
            BenchError::Build(diagnostic) => {
                let mut text = String::from_str("build: ");
                text.append(diagnostic.as_str());
                text
            },
            BenchError::Report(diagnostic) => {
                let mut text = String::from_str("report: ");
                text.append(diagnostic.as_str());
                text
            },
        }
    }
}

} // verus!
