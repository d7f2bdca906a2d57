//! What is kept of the inputs of a session: the record of each run that went
//! through, and the failure of each that did not.

use vstd::prelude::*;
use crate::error::{Failure, PipelineError};
use crate::input::{BenchmarkInput, InputValue};

verus! {

/// What is kept of one input's completed run. Durations are in milliseconds;
/// the proof size is the byte length of the proof's canonical serialized form;
/// the trace length is the backend's measure of how long the execution was,
/// and `0` for a backend that has no such measure.
#[derive(Debug)]
pub struct MetricsRecord {
    pub parameter: BenchmarkInput,
    pub duration_ms: u128,
    pub proof_size_bytes: usize,
    pub execution_trace_length: usize,
}

/// The mathematical value of a [`MetricsRecord`].
pub struct Measurement {
    pub parameter: InputValue,
    pub duration_ms: nat,
    pub proof_size_bytes: nat,
    pub execution_trace_length: nat,
}

impl View for MetricsRecord {
    type V = Measurement;

    open spec fn view(&self) -> Measurement {
        Measurement {
            parameter: self.parameter@,
            duration_ms: self.duration_ms as nat,
            proof_size_bytes: self.proof_size_bytes as nat,
            execution_trace_length: self.execution_trace_length as nat,
        }
    }
}

impl Clone for MetricsRecord {
    fn clone(&self) -> (copy: Self)
        ensures
            copy@ == self@,
    {
        MetricsRecord {
            parameter: self.parameter.clone(),
            duration_ms: self.duration_ms,
            proof_size_bytes: self.proof_size_bytes,
            execution_trace_length: self.execution_trace_length,
        }
    }
}

/// How one input's run ended, as a mathematical value.
pub type Outcome = Result<Measurement, Failure>;

/// The mathematical value of a run's result.
pub open spec fn outcome_value(result: Result<MetricsRecord, PipelineError>) -> Outcome {
    match result {
        Ok(record) => Ok(record@),
        Err(error) => Err(error@),
    }
}

/// What came of one input: the input, and either its record or the failure
/// that ended its run.
#[derive(Debug)]
pub struct InputResult {
    pub input: BenchmarkInput,
    pub outcome: Result<MetricsRecord, PipelineError>,
}

/// The mathematical value of an [`InputResult`].
pub struct InputOutcome {
    pub input: InputValue,
    pub outcome: Outcome,
}

impl View for InputResult {
    type V = InputOutcome;

    open spec fn view(&self) -> InputOutcome {
        InputOutcome { input: self.input@, outcome: outcome_value(self.outcome) }
    }
}

/// The values of a sequence of results, in order.
pub open spec fn result_values(results: Seq<InputResult>) -> Seq<InputOutcome> {
    results.map_values(|result: InputResult| result@)
}

/// The values of a sequence of records, in order.
pub open spec fn record_values(records: Seq<MetricsRecord>) -> Seq<Measurement> {
    records.map_values(|record: MetricsRecord| record@)
}

/// The records among `results`, in the order of the results. A failed input
/// contributes nothing.
pub open spec fn records_of(results: Seq<InputOutcome>) -> Seq<Measurement>
    decreases results.len(),
{
    if results.len() == 0 {
        Seq::empty()
    } else {
        match results.last().outcome {
            Ok(record) => records_of(results.drop_last()).push(record),
            Err(_) => records_of(results.drop_last()),
        }
    }
}

/// The failures among `results`, each with its input, in the order of the
/// results.
pub open spec fn failures_of(results: Seq<InputOutcome>) -> Seq<(InputValue, Failure)>
    decreases results.len(),
{
    if results.len() == 0 {
        Seq::empty()
    } else {
        match results.last().outcome {
            Ok(_) => failures_of(results.drop_last()),
            Err(failure) => failures_of(results.drop_last()).push((results.last().input, failure)),
        }
    }
}

/// Every result is either a record or a failure, never both and never
/// neither: there are as many records as inputs that went through, and as
/// many failures as inputs that did not.
pub proof fn lemma_records_and_failures_partition(results: Seq<InputOutcome>)
    ensures
        records_of(results).len() + failures_of(results).len() == results.len(),
        records_of(results).len() == results.filter(|r: InputOutcome| r.outcome is Ok).len(),
    decreases results.len(),
{
    reveal(Seq::filter);
    if results.len() > 0 {
        lemma_records_and_failures_partition(results.drop_last());
    }
}

/// Records keep the order of their inputs: of two records, the one that
/// stands first came of the input that stands first.
pub proof fn lemma_records_keep_order(results: Seq<InputOutcome>, i: int, j: int)
    requires
        0 <= i < j < records_of(results).len(),
    ensures
        exists|k: int, l: int|
            0 <= k < l < results.len() && #[trigger] results[k].outcome == Ok::<
                Measurement,
                Failure,
            >(records_of(results)[i]) && #[trigger] results[l].outcome == Ok::<Measurement, Failure>(
                records_of(results)[j],
            ),
    decreases results.len(),
{
    let earlier = results.drop_last();
    match results.last().outcome {
        Ok(record) => {
            if j == records_of(earlier).len() {
                let k = lemma_record_has_source(earlier, i);
                let l = results.len() - 1;
                assert(results[k] == earlier[k]);
                assert(0 <= k < l < results.len() && results[k].outcome == Ok::<
                    Measurement,
                    Failure,
                >(records_of(results)[i]) && results[l].outcome == Ok::<Measurement, Failure>(
                    records_of(results)[j],
                ));
            } else {
                lemma_records_keep_order(earlier, i, j);
                let (k, l) = choose|k: int, l: int|
                    0 <= k < l < earlier.len() && #[trigger] earlier[k].outcome == Ok::<
                        Measurement,
                        Failure,
                    >(records_of(earlier)[i]) && #[trigger] earlier[l].outcome == Ok::<
                        Measurement,
                        Failure,
                    >(records_of(earlier)[j]);
                assert(results[k] == earlier[k]);
                assert(results[l] == earlier[l]);
            }
        },
        Err(_) => {
            lemma_records_keep_order(earlier, i, j);
            let (k, l) = choose|k: int, l: int|
                0 <= k < l < earlier.len() && #[trigger] earlier[k].outcome == Ok::<
                    Measurement,
                    Failure,
                >(records_of(earlier)[i]) && #[trigger] earlier[l].outcome == Ok::<
                    Measurement,
                    Failure,
                >(records_of(earlier)[j]);
            assert(results[k] == earlier[k]);
            assert(results[l] == earlier[l]);
        },
    }
}

/// Every record came of a result: the position of a result whose outcome is
/// the `i`-th record.
proof fn lemma_record_has_source(results: Seq<InputOutcome>, i: int) -> (k: int)
    requires
        0 <= i < records_of(results).len(),
    ensures
        0 <= k < results.len(),
        results[k].outcome == Ok::<Measurement, Failure>(records_of(results)[i]),
    decreases results.len(),
{
    let earlier = results.drop_last();
    match results.last().outcome {
        Ok(record) => {
            if i == records_of(earlier).len() {
                results.len() - 1
            } else {
                let k = lemma_record_has_source(earlier, i);
                assert(results[k] == earlier[k]);
                k
            }
        },
        Err(_) => {
            let k = lemma_record_has_source(earlier, i);
            assert(results[k] == earlier[k]);
            k
        },
    }
}

/// The records among `results`, in the order of the results.
pub fn collect_records(results: &Vec<InputResult>) -> (records: Vec<MetricsRecord>)
    ensures
        record_values(records@) == records_of(result_values(results@)),
{
    let mut records: Vec<MetricsRecord> = Vec::new();
    let mut i: usize = 0;
    assert(result_values(results@).take(0) =~= Seq::empty());
    assert(record_values(records@) =~= Seq::empty());
    while i < results.len()
        invariant
            i <= results.len(),
            record_values(records@) == records_of(result_values(results@).take(i as int)),
        decreases results.len() - i,
    {
        let ghost before = record_values(records@);
        proof {
            let values = result_values(results@);
            assert(values.take(i + 1).drop_last() =~= values.take(i as int));
            assert(values.take(i + 1).last() == results@[i as int]@);
        }
        match &results[i].outcome {
            Ok(record) => {
                records.push(record.clone());
                assert(record_values(records@) =~= before.push(record@));
            },
            Err(_) => {},
        }
        i += 1;
    }
    assert(result_values(results@).take(results.len() as int) =~= result_values(results@));
    records
}

/// The failures among `results`, each with its input, in the order of the
/// results.
pub fn collect_failures(results: &Vec<InputResult>) -> (failures: Vec<
    (BenchmarkInput, PipelineError),
>)
    ensures
        failures@.map_values(|f: (BenchmarkInput, PipelineError)| (f.0@, f.1@)) == failures_of(
            result_values(results@),
        ),
{
    let mut failures: Vec<(BenchmarkInput, PipelineError)> = Vec::new();
    let mut i: usize = 0;
    assert(result_values(results@).take(0) =~= Seq::empty());
    assert(failures@.map_values(|f: (BenchmarkInput, PipelineError)| (f.0@, f.1@))
        =~= Seq::empty());
    while i < results.len()
        invariant
            i <= results.len(),
            failures@.map_values(|f: (BenchmarkInput, PipelineError)| (f.0@, f.1@)) == failures_of(
                result_values(results@).take(i as int),
            ),
        decreases results.len() - i,
    {
        let ghost before = failures@.map_values(|f: (BenchmarkInput, PipelineError)| (f.0@, f.1@));
        proof {
            let values = result_values(results@);
            assert(values.take(i + 1).drop_last() =~= values.take(i as int));
            assert(values.take(i + 1).last() == results@[i as int]@);
        }
        match &results[i].outcome {
            Ok(_) => {},
            Err(error) => {
                failures.push((results[i].input.clone(), error.clone()));
                assert(failures@.map_values(|f: (BenchmarkInput, PipelineError)| (f.0@, f.1@))
                    =~= before.push((results@[i as int].input@, error@)));
            },
        }
        i += 1;
    }
    assert(result_values(results@).take(results.len() as int) =~= result_values(results@));
    failures
}

} // verus!
