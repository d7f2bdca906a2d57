//! The report of a session: one header row, then one row per record.
//!
//! The columns are, in this order: the parameter, the duration in
//! milliseconds, the proof size in bytes, and the execution trace length.
//! Every row ends with a line feed. Inputs that failed have no row; they are
//! reported apart from the numbers.

use vstd::prelude::*;
use vstd::string::StringExecFns;
use crate::decimal::{decimal, push_decimal};
use crate::metrics::{record_values, Measurement, MetricsRecord};

verus! {

/// The header row for a report whose parameter column is named `column`.
pub open spec fn header(column: Seq<char>) -> Seq<char> {
    column + ",duration,proof_size_bytes,execution_trace_length\n"@
}

/// The row of one record.
pub open spec fn row(record: Measurement) -> Seq<char> {
    record.parameter.text() + ","@ + decimal(record.duration_ms) + ","@ + decimal(
        record.proof_size_bytes,
    ) + ","@ + decimal(record.execution_trace_length) + "\n"@
}

/// The rows of `records`, one after the other in the order of the records.
pub open spec fn rows(records: Seq<Measurement>) -> Seq<char>
    decreases records.len(),
{
    if records.len() == 0 {
        Seq::empty()
    } else {
        rows(records.drop_last()) + row(records.last())
    }
}

/// The whole report: the header row, then the rows.
pub open spec fn csv(column: Seq<char>, records: Seq<Measurement>) -> Seq<char> {
    header(column) + rows(records)
}

/// One more record adds its row at the end and changes nothing before it.
pub proof fn lemma_csv_appends(column: Seq<char>, records: Seq<Measurement>, record: Measurement)
    ensures
        csv(column, records.push(record)) == csv(column, records) + row(record),
{
    assert(records.push(record).drop_last() =~= records);
    assert(header(column) + (rows(records) + row(record)) =~= header(column) + rows(records) + row(
        record,
    ));
}

/// Appends the header row to `out`.
pub fn push_header(out: &mut String, column: &str)
    ensures
        final(out)@ == old(out)@ + header(column@),
{
    out.append(column);
    out.append(",duration,proof_size_bytes,execution_trace_length\n");
    assert(final(out)@ =~= old(out)@ + header(column@));
}

/// Appends the row of `record` to `out`.
pub fn push_row(out: &mut String, record: &MetricsRecord)
    ensures
        final(out)@ == old(out)@ + row(record@),
{
    let parameter = record.parameter.render();
    out.append(parameter.as_str());
    out.append(",");
    push_decimal(out, record.duration_ms);
    out.append(",");
    push_decimal(out, record.proof_size_bytes as u128);
    out.append(",");
    push_decimal(out, record.execution_trace_length as u128);
    out.append("\n");
    assert(final(out)@ =~= old(out)@ + row(record@));
}

/// The report of `records` under a parameter column named `column`.
pub fn render(column: &str, records: &Vec<MetricsRecord>) -> (text: String)
    ensures
        text@ == csv(column@, record_values(records@)),
{
    let mut text = String::new();
    push_header(&mut text, column);
    let mut i: usize = 0;
    assert(record_values(records@).take(0) =~= Seq::empty());
    assert(text@ =~= csv(column@, record_values(records@).take(0)));
    while i < records.len()
        invariant
            i <= records.len(),
            text@ == csv(column@, record_values(records@).take(i as int)),
        decreases records.len() - i,
    {
        proof {
            let values = record_values(records@);
            assert(values.take(i + 1) =~= values.take(i as int).push(records@[i as int]@));
            lemma_csv_appends(column@, values.take(i as int), records@[i as int]@);
        }
        push_row(&mut text, &records[i]);
        i += 1;
    }
    assert(record_values(records@).take(records.len() as int) =~= record_values(records@));
    text
}

} // verus!
