use supervise::events::Event;
use supervise::events::Payload;
use supervise::monitor::Monitor;

fn run(m: &mut Monitor, samples: &[u64]) -> Vec<Event> {
    let mut warnings = Vec::new();
    for s in samples {
        if let Some(e) = m.step(Some(*s)) {
            warnings.push(e);
        }
    }
    warnings
}

#[test]
fn hysteresis_one_warning_per_excursion() {
    let mut m = Monitor::new(100, 90).unwrap();
    let warnings = run(&mut m, &[50, 105, 95, 105, 80, 105]);
    assert_eq!(warnings.len(), 2);
    assert_eq!(warnings[0].name, "memory-warning");
    assert_eq!(warnings[0].payload, Payload::Amount(105));
    assert_eq!(warnings[1].name, "memory-warning");
    assert_eq!(warnings[1].payload, Payload::Amount(105));
}

#[test]
fn no_trigger_below_threshold() {
    let mut m = Monitor::new(100, 90).unwrap();
    let warnings = run(&mut m, &[0, 42, 90, 99, 100, 100, 1]);
    assert_eq!(warnings.len(), 0);
}

#[test]
fn watermark_equality_does_not_move_the_machine() {
    let mut m = Monitor::new(100, 90).unwrap();
    // Equal to the high watermark: no trigger.
    assert!(m.step(Some(100)).is_none());
    // Strictly above: exactly one warning.
    assert!(m.step(Some(101)).is_some());
    // Equal to the low watermark: still triggered, still silent.
    assert!(m.step(Some(90)).is_none());
    assert!(m.step(Some(150)).is_none());
    // Strictly below the low watermark: re-arms silently.
    assert!(m.step(Some(89)).is_none());
    assert!(m.step(Some(101)).is_some());
}

#[test]
fn failed_sample_is_skipped() {
    let mut m = Monitor::new(100, 90).unwrap();
    assert!(m.step(None).is_none());
    assert!(m.step(Some(120)).is_some());
    // A failed sample neither re-arms nor fires.
    assert!(m.step(None).is_none());
    assert!(m.step(Some(120)).is_none());
}

#[test]
fn degenerate_band_is_refused() {
    assert!(Monitor::new(100, 100).is_none());
    assert!(Monitor::new(90, 100).is_none());
    assert!(Monitor::new(100, 99).is_some());
}
