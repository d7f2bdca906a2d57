//! Benchmark inputs: the parameter values that guest programs are run on.

use vstd::prelude::*;
use crate::backend::Backend;
use crate::decimal::{decimal, lemma_decimal_round_trip, parse_u32, spec_parse_u32, to_decimal};

verus! {

/// A small two-field value of the kind a guest program may take as input.
#[derive(Clone, Copy, Debug, PartialEq, Eq, Structural)]
pub struct SomeStruct {
    pub a: u64,
    pub b: u64,
}

/// One parameter value fed to a guest program's entry point for one run.
#[derive(Debug)]
pub enum BenchmarkInput {
    /// A numeric parameter.
    Number(u32),
    /// A textual parameter, passed to the guest as written.
    Text(String),
}

/// The mathematical value of a [`BenchmarkInput`].
pub enum InputValue {
    Number(u32),
    Text(Seq<char>),
}

impl InputValue {
    /// The input that `text` stands for on `backend`. Where the backend's
    /// guests take numbers, a text that writes a number is that number; any
    /// other text, and every text on any other backend, is itself.
    pub open spec fn read(text: Seq<char>, backend: Backend) -> InputValue {
        match spec_parse_u32(text) {
            Some(n) if backend.spec_takes_numbers() => InputValue::Number(n),
            _ => InputValue::Text(text),
        }
    }

    /// The text that stands for this value in a report: the decimal text of a
    /// number, and a textual parameter as it is.
    pub open spec fn text(self) -> Seq<char> {
        match self {
            InputValue::Number(n) => decimal(n as nat),
            InputValue::Text(s) => s,
        }
    }
}

impl View for BenchmarkInput {
    type V = InputValue;

    open spec fn view(&self) -> InputValue {
        match self {
            BenchmarkInput::Number(n) => InputValue::Number(*n),
            BenchmarkInput::Text(s) => InputValue::Text(s@),
        }
    }
}

impl Clone for BenchmarkInput {
    fn clone(&self) -> (copy: Self)
        ensures
            copy@ == self@,
    {
        match self {
            BenchmarkInput::Number(n) => BenchmarkInput::Number(*n),
            BenchmarkInput::Text(s) => BenchmarkInput::Text(s.clone()),
        }
    }
}

impl BenchmarkInput {
    /// The input that `text` stands for on `backend`.
    pub fn read(text: String, backend: Backend) -> (input: Self)
        ensures
            input@ == InputValue::read(text@, backend),
    {
        if backend.takes_numbers() {
            match parse_u32(text.as_str()) {
                Some(n) => BenchmarkInput::Number(n),
                None => BenchmarkInput::Text(text),
            }
        } else {
            BenchmarkInput::Text(text)
        }
    }

    /// The text that stands for this input in a report.
    pub fn render(&self) -> (text: String)
        ensures
            text@ == self@.text(),
    {
        match self {
            BenchmarkInput::Number(n) => to_decimal(*n as u128),
            BenchmarkInput::Text(s) => s.clone(),
        }
    }
}

/// What a report shows of a numeric input reads back as that input: on a
/// backend whose guests take numbers, the text of a number stands for the
/// number.
pub proof fn lemma_number_reads_back(n: u32, backend: Backend)
    requires
        backend.spec_takes_numbers(),
    ensures
        InputValue::read(InputValue::Number(n).text(), backend) == InputValue::Number(n),
{
    lemma_decimal_round_trip(n as nat);
}

/// The values of a sequence of inputs, in order.
pub open spec fn input_values(inputs: Seq<BenchmarkInput>) -> Seq<InputValue> {
    inputs.map_values(|input: BenchmarkInput| input@)
}

} // verus!
