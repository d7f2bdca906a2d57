use zkbench::backend::Backend;
use zkbench::error::{BenchError, PipelineError, Stage};
use zkbench::guest::{compile_command, convert_command, BuildStep, StepReport};
use zkbench::input::BenchmarkInput;
use zkbench::metrics::{collect_failures, collect_records, InputResult, MetricsRecord};
use zkbench::naming::{artifact_path, compression_label, parameter_column, sink_path};
use zkbench::report::{push_header, push_row, render};

fn record(parameter: BenchmarkInput, duration_ms: u128, bytes: usize, trace: usize) -> MetricsRecord {
    MetricsRecord { parameter, duration_ms, proof_size_bytes: bytes, execution_trace_length: trace }
}

#[test]
fn header_names_the_four_columns() {
    let mut text = String::new();
    push_header(&mut text, "n");
    assert_eq!(text, "n,duration,proof_size_bytes,execution_trace_length\n");
}

#[test]
fn row_holds_the_four_values_in_order() {
    let mut text = String::new();
    push_row(&mut text, &record(BenchmarkInput::Number(90), 1500, 123456, 0));
    assert_eq!(text, "90,1500,123456,0\n");
    push_row(&mut text, &record(BenchmarkInput::Text(String::from("16")), 0, 1, 2));
    assert_eq!(text, "90,1500,123456,0\n16,0,1,2\n");
}

#[test]
fn report_is_header_then_rows() {
    let records = vec![
        record(BenchmarkInput::Text(String::from("16")), 812, 10240, 5000),
        record(BenchmarkInput::Text(String::from("17")), 1033, 10240, 8100),
    ];
    assert_eq!(
        render("fib_arg", &records),
        "fib_arg,duration,proof_size_bytes,execution_trace_length\n16,812,10240,5000\n17,1033,10240,8100\n"
    );
}

#[test]
fn report_of_nothing_is_the_header() {
    assert_eq!(render("n", &Vec::new()), "n,duration,proof_size_bytes,execution_trace_length\n");
}

#[test]
fn report_holds_the_largest_values() {
    let records = vec![record(BenchmarkInput::Number(u32::MAX), u128::MAX, usize::MAX, usize::MAX)];
    assert_eq!(
        render("n", &records),
        format!(
            "n,duration,proof_size_bytes,execution_trace_length\n{},{},{},{}\n",
            u32::MAX,
            u128::MAX,
            usize::MAX,
            usize::MAX
        )
    );
}

#[test]
fn records_and_failures_split_the_results() {
    let results = vec![
        InputResult { input: BenchmarkInput::Number(1), outcome: Ok(record(BenchmarkInput::Number(1), 5, 6, 7)) },
        InputResult {
            input: BenchmarkInput::Number(2),
            outcome: Err(PipelineError { stage: Stage::Verify, message: String::from("bad proof") }),
        },
        InputResult { input: BenchmarkInput::Number(3), outcome: Ok(record(BenchmarkInput::Number(3), 8, 9, 10)) },
        InputResult {
            input: BenchmarkInput::Number(4),
            outcome: Err(PipelineError { stage: Stage::Load, message: String::from("bad args") }),
        },
    ];
    let records = collect_records(&results);
    assert_eq!(records.len(), 2);
    assert_eq!(records[0].duration_ms, 5);
    assert_eq!(records[1].duration_ms, 8);
    let failures = collect_failures(&results);
    assert_eq!(failures.len(), 2);
    assert_eq!(failures[0].0.render(), "2");
    assert_eq!(failures[0].1.stage, Stage::Verify);
    assert_eq!(failures[1].0.render(), "4");
    assert_eq!(failures[1].1.message, "bad args");
    assert_eq!(records.len() + failures.len(), results.len());
}

#[test]
fn sink_path_names_guest_backend_and_compression() {
    assert_eq!(
        sink_path("../benchmark_outputs/", "fib", Backend::FoldingWasm, true),
        "../benchmark_outputs/fib_novanet_with_compressing.csv"
    );
    assert_eq!(
        sink_path("../benchmark_outputs/", "fib", Backend::FoldingWasm, false),
        "../benchmark_outputs/fib_novanet_without_compressing.csv"
    );
    assert_eq!(sink_path("", "sha", Backend::StarkZkvm, false), "sha_openvm_without_compressing.csv");
    assert_eq!(sink_path("out/", "", Backend::StarkZkvm, true), "out/_openvm_with_compressing.csv");
}

#[test]
fn sink_paths_of_different_sessions_differ() {
    let mut paths = Vec::new();
    for guest in ["fib", "fib_novanet", "fib_openvm_with"] {
        for backend in [Backend::FoldingWasm, Backend::StarkZkvm] {
            for compressed in [true, false] {
                paths.push(sink_path("", guest, backend, compressed));
            }
        }
    }
    for i in 0..paths.len() {
        for j in 0..i {
            assert_ne!(paths[i], paths[j]);
        }
    }
}

#[test]
fn labels_and_columns() {
    assert_eq!(compression_label(true), "with");
    assert_eq!(compression_label(false), "without");
    assert_eq!(parameter_column("fib"), "fib_arg");
    assert_eq!(parameter_column(""), "_arg");
    assert_eq!(Backend::FoldingWasm.label(), "novanet");
    assert_eq!(Backend::StarkZkvm.label(), "openvm");
}

#[test]
fn backend_capabilities() {
    assert!(Backend::FoldingWasm.supports_compression());
    assert!(Backend::FoldingWasm.reports_trace_length());
    assert!(Backend::FoldingWasm.converts_guest());
    assert!(!Backend::StarkZkvm.supports_compression());
    assert!(!Backend::StarkZkvm.reports_trace_length());
    assert!(!Backend::StarkZkvm.converts_guest());
}

#[test]
fn artifact_paths_lie_under_the_release_directory() {
    assert_eq!(artifact_path("target", "fib", "wat"), "target/wasm32-unknown-unknown/release/fib.wat");
    assert_eq!(artifact_path("target", "fib", "wasm"), "target/wasm32-unknown-unknown/release/fib.wasm");
    assert_eq!(artifact_path("/tmp/out", "a-b", "wasm"), "/tmp/out/wasm32-unknown-unknown/release/a-b.wasm");
}

#[test]
fn compile_command_builds_the_package_for_wasm() {
    let command = compile_command("fib");
    assert_eq!(command.program, "cargo");
    assert_eq!(command.environment, vec![(String::from("MODEL"), String::from("e5small"))]);
    assert_eq!(
        command.arguments,
        vec!["build", "--release", "--target", "wasm32-unknown-unknown", "--package", "fib"]
    );
}

#[test]
fn convert_command_reads_the_compiled_package() {
    let command = convert_command("target", "fib");
    assert_eq!(command.program, "wasm2wat");
    assert!(command.environment.is_empty());
    assert_eq!(command.arguments, vec!["target/wasm32-unknown-unknown/release/fib.wasm"]);
}

#[test]
fn step_passes_only_if_everything_went_well() {
    let report =
        StepReport { launched: true, succeeded: true, diagnostics: String::from("warning: unused variable") };
    assert_eq!(BuildStep::Compile.judge(&report, true), Ok(()));
    assert_eq!(BuildStep::Convert.judge(&report, true), Ok(()));
}

#[test]
fn step_that_could_not_start_fails() {
    let report = StepReport { launched: false, succeeded: true, diagnostics: String::from("ignored") };
    assert_eq!(BuildStep::Compile.judge(&report, true), Err(String::from("Failed to run the guest build")));
    assert_eq!(
        BuildStep::Convert.judge(&report, true),
        Err(String::from("Failed to run the guest conversion"))
    );
}

#[test]
fn step_that_reported_failure_carries_the_diagnostics() {
    let report = StepReport {
        launched: true,
        succeeded: false,
        diagnostics: String::from("error[E0425]: cannot find value"),
    };
    assert_eq!(
        BuildStep::Compile.judge(&report, true),
        Err(String::from("Building the guest failed:\nerror[E0425]: cannot find value"))
    );
    assert_eq!(
        BuildStep::Convert.judge(&report, false),
        Err(String::from("Converting the guest failed:\nerror[E0425]: cannot find value"))
    );
}

#[test]
fn step_that_left_no_artifact_fails() {
    let report = StepReport { launched: true, succeeded: true, diagnostics: String::from("nothing") };
    assert_eq!(
        BuildStep::Compile.judge(&report, false),
        Err(String::from("The guest build left no artifact:\nnothing"))
    );
    assert_eq!(
        BuildStep::Convert.judge(&report, false),
        Err(String::from("The guest conversion left no artifact:\nnothing"))
    );
}

#[test]
fn errors_describe_themselves() {
    assert_eq!(BenchError::Build(String::from("no toolchain")).describe(), "build: no toolchain");
    assert_eq!(BenchError::Report(String::from("disk full")).describe(), "report: disk full");
    let error = PipelineError { stage: Stage::Load, message: String::from("bad entry point") };
    assert_eq!(error.describe(), "Failed in load: bad entry point");
    assert_eq!(Stage::Load.name(), "load");
    assert_eq!(Stage::Prove.name(), "prove");
    assert_eq!(Stage::Compress.name(), "compress");
    assert_eq!(Stage::Verify.name(), "verify");
}
