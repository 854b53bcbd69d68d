use scoped_instrumenter::registry::RecordOutcome;
use scoped_instrumenter::registry::Registry;
use scoped_instrumenter::rowfmt::format_row;
use scoped_instrumenter::sink::Sink;
use scoped_instrumenter::sink::TARGET_ENTRY_COUNT;

#[test]
fn sink_appends_until_the_cap() {
    let mut sink = Sink::created(2);
    let first = sink.append(&vec!["1".to_string()], 10);
    assert_eq!(first.unwrap(), "\"(1,)\",1,1.000000e-8\n");
    assert_eq!(sink.entry_count, 1);
    let second = sink.append(&vec![], 20);
    assert!(second.is_some());
    assert_eq!(sink.entry_count, 2);
    let third = sink.append(&vec![], 30);
    assert!(third.is_none());
    assert_eq!(sink.entry_count, 2);
}

#[test]
fn cap_enforcement_at_the_default_cap() {
    assert_eq!(TARGET_ENTRY_COUNT, 10000);
    let mut sink = Sink::created(TARGET_ENTRY_COUNT);
    for _ in 0..TARGET_ENTRY_COUNT {
        assert!(sink.append(&vec![], 5).is_some());
    }
    assert_eq!(sink.entry_count, TARGET_ENTRY_COUNT);
    for _ in 0..25 {
        assert!(sink.append(&vec![], 5).is_none());
        assert_eq!(sink.entry_count, TARGET_ENTRY_COUNT);
    }
}

#[test]
fn resumed_sink_at_the_cap_stays_full() {
    let mut sink = Sink::resumed(3, 3);
    assert!(sink.append(&vec![], 1).is_none());
    assert_eq!(sink.entry_count, 3);
    // a log that somehow holds more rows than the cap also accepts nothing
    let mut overfull = Sink::resumed(3, 5);
    assert!(overfull.append(&vec![], 1).is_none());
    assert_eq!(overfull.entry_count, 5);
}

#[test]
fn registry_asks_for_a_sink_once_and_then_appends() {
    let mut registry = Registry::new();
    let kind = "I32Add".to_string();
    assert!(!registry.has_sink(&kind));
    let outcome = registry.record_sample(&kind, &vec![], 100);
    assert!(matches!(outcome, RecordOutcome::NeedsSink));
    registry.install_sink(kind.clone(), Sink::created(TARGET_ENTRY_COUNT));
    assert!(registry.has_sink(&kind));
    let outcome = registry.record_sample(&kind, &vec![], 100);
    match outcome {
        RecordOutcome::Appended(row) => assert_eq!(row, format_row(&vec![], 100)),
        _ => panic!("expected an appended row"),
    }
}

#[test]
fn registry_keeps_kinds_independent() {
    let mut registry = Registry::new();
    let add = "I32Add".to_string();
    let br = "Br".to_string();
    registry.install_sink(add.clone(), Sink::created(1));
    registry.install_sink(br.clone(), Sink::created(2));
    assert!(matches!(
        registry.record_sample(&add, &vec![], 1),
        RecordOutcome::Appended(_)
    ));
    assert!(matches!(
        registry.record_sample(&add, &vec![], 2),
        RecordOutcome::AtCapacity
    ));
    // the other kind still has room
    assert!(matches!(
        registry.record_sample(&br, &vec![], 3),
        RecordOutcome::Appended(_)
    ));
    assert!(matches!(
        registry.record_sample(&br, &vec![], 4),
        RecordOutcome::Appended(_)
    ));
    assert!(matches!(
        registry.record_sample(&br, &vec![], 5),
        RecordOutcome::AtCapacity
    ));
}

#[test]
fn one_row_per_accepted_sample() {
    // each of `threads` submissions below the cap yields exactly one row
    let threads = 16;
    let mut registry = Registry::new();
    let kind = "Call".to_string();
    registry.install_sink(kind.clone(), Sink::created(TARGET_ENTRY_COUNT));
    let mut rows = Vec::new();
    for n in 0..threads {
        match registry.record_sample(&kind, &vec![], n) {
            RecordOutcome::Appended(row) => rows.push(row),
            _ => panic!("expected an appended row"),
        }
    }
    assert_eq!(rows.len(), threads as usize);
    assert!(matches!(
        registry.record_sample(&"Br".to_string(), &vec![], 0),
        RecordOutcome::NeedsSink
    ));
}
