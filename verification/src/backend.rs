//! Proving backends: which there are, what each can do, and the kinds of
//! values that one hands to a session.

use vstd::prelude::*;

verus! {

/// The kinds of values that a backend produces and that a session keeps for
/// it. A session never looks inside them: it holds each from the stage that
/// made it until the last stage that needs it, and hands it on unchanged.
pub trait BackendTypes {
    /// The guest as built: what loading binds into an execution context.
    type Artifact;

    /// The public parameters that the setup made: what proving, compression
    /// and verification are all done under.
    type Params;

    /// A guest bound to an entry point and to arguments, ready to be run.
    type Context;

    /// What attests an execution.
    type Proof;

    /// The public values that a proof is bound to.
    type Instance;
}

/// The proving backends a session can run on. One session runs on one backend.
#[derive(Clone, Copy, Debug, PartialEq, Eq, Structural)]
pub enum Backend {
    /// A folding-scheme prover for WebAssembly guests.
    FoldingWasm,
    /// A STARK prover for RISC-V guests.
    StarkZkvm,
}

impl Backend {
    /// Whether the backend can turn a proof into a smaller one. On a backend
    /// that cannot, a session never asks for compression and never claims it.
    pub open spec fn spec_supports_compression(self) -> bool {
        self == Backend::FoldingWasm
    }

    /// Whether the backend has a notion of execution trace length. For a
    /// backend that has none, every record reports the length `0`.
    pub open spec fn spec_reports_trace_length(self) -> bool {
        self == Backend::FoldingWasm
    }

    /// The backend's name as it appears in the names of report files.
    pub open spec fn spec_label(self) -> Seq<char> {
        match self {
            Backend::FoldingWasm => "novanet"@,
            Backend::StarkZkvm => "openvm"@,
        }
    }

    /// Whether the backend can turn a proof into a smaller one.
    #[verifier::when_used_as_spec(spec_supports_compression)]
    pub fn supports_compression(self) -> (supported: bool)
        ensures
            supported == self.spec_supports_compression(),
    {
        match self {
            Backend::FoldingWasm => true,
            Backend::StarkZkvm => false,
        }
    }

    /// Whether the backend has a notion of execution trace length.
    #[verifier::when_used_as_spec(spec_reports_trace_length)]
    pub fn reports_trace_length(self) -> (reported: bool)
        ensures
            reported == self.spec_reports_trace_length(),
    {
        match self {
            Backend::FoldingWasm => true,
            Backend::StarkZkvm => false,
        }
    }

    /// The backend's name as it appears in the names of report files.
    pub fn label(self) -> (text: &'static str)
        ensures
            text@ == self.spec_label(),
    {
        match self {
            Backend::FoldingWasm => "novanet",
            Backend::StarkZkvm => "openvm",
        }
    }

    /// Whether the guests of this backend take numbers as their inputs, as
    /// opposed to texts.
    pub open spec fn spec_takes_numbers(self) -> bool {
        self == Backend::StarkZkvm
    }

    /// Whether the guests of this backend take numbers as their inputs.
    #[verifier::when_used_as_spec(spec_takes_numbers)]
    pub fn takes_numbers(self) -> (numbers: bool)
        ensures
            numbers == self.spec_takes_numbers(),
    {
        match self {
            Backend::FoldingWasm => false,
            Backend::StarkZkvm => true,
        }
    }

    /// Whether a guest for this backend is converted after it is compiled.
    pub open spec fn spec_converts_guest(self) -> bool {
        self == Backend::FoldingWasm
    }

    /// Whether a guest for this backend is converted after it is compiled.
    #[verifier::when_used_as_spec(spec_converts_guest)]
    pub fn converts_guest(self) -> (converts: bool)
        ensures
            converts == self.spec_converts_guest(),
    {
        match self {
            Backend::FoldingWasm => true,
            Backend::StarkZkvm => false,
        }
    }
}

} // verus!
