use scoped_instrumenter::isa::Instruction;
use scoped_instrumenter::registry::RecordOutcome;
use scoped_instrumenter::registry::Registry;
use scoped_instrumenter::rowfmt::header_line;
use scoped_instrumenter::sink::recovered_entry_count;
use scoped_instrumenter::sink::Sink;
use scoped_instrumenter::timer::ScopedInstrumenter;

/// Replays `samples` into a fresh or resumed in-memory log and returns the
/// log text, as the unverified caller would write it to disk.
fn run(contents: Option<String>, samples: &[(Vec<String>, u64)], cap: usize) -> String {
    let (mut text, sink) = match contents {
        None => (header_line().to_string(), Sink::created(cap)),
        Some(text) => {
            assert!(!text.is_empty());
            let recovered = recovered_entry_count(&text);
            (text, Sink::resumed(cap, recovered))
        }
    };
    let mut registry = Registry::new();
    let kind = "I32Add".to_string();
    registry.install_sink(kind.clone(), sink);
    for (properties, nanos) in samples {
        match registry.record_sample(&kind, properties, *nanos) {
            RecordOutcome::Appended(row) => text.push_str(&row),
            RecordOutcome::AtCapacity => {}
            RecordOutcome::NeedsSink => panic!("the sink was installed above"),
        }
    }
    text
}

#[test]
fn resume_is_idempotent() {
    let cap = 10;
    let all: Vec<(Vec<String>, u64)> = (0..5u64)
        .map(|n| (Vec::new(), 1000 * n + 3))
        .collect();
    let (first, second) = all.split_at(3);

    let one_run = run(None, &all, cap);

    let interrupted = run(None, first, cap);
    assert_eq!(recovered_entry_count(&interrupted), 3);
    let resumed = run(Some(interrupted), second, cap);

    assert_eq!(resumed, one_run);
    assert_eq!(resumed.lines().count(), 1 + 5);
}

#[test]
fn fresh_file_for_an_instrumented_kind() {
    let handle = ScopedInstrumenter::new(&Instruction::I32Add).unwrap();
    assert_eq!(handle.kind, "I32Add");
    let text = run(None, &[(handle.properties.clone(), 123400)], 10);
    let mut lines = text.lines();
    assert_eq!(lines.next().unwrap(), "args,n_exec,total_elapsed_time");
    assert_eq!(lines.next().unwrap(), "\"()\",1,1.234000e-4");
    assert!(lines.next().is_none());
}

#[test]
fn three_records_then_cap() {
    let cap = 3;
    let samples: Vec<(Vec<String>, u64)> =
        (0..7u64).map(|n| (vec![n.to_string()], n)).collect();
    let text = run(None, &samples, cap);
    // only the first three samples made it in
    assert_eq!(text.lines().count(), 1 + 3);
    assert_eq!(recovered_entry_count(&text), 3);
}
