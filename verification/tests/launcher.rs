use supervise::launcher::LaunchSpec;
use supervise::launcher::attempt_order;
use supervise::launcher::first_success;

fn spec(program: &str) -> LaunchSpec {
    LaunchSpec { program: program.to_string(), args: Vec::new(), cwd: None }
}

#[test]
fn launcher_independence() {
    // Three specs, the second invalid (empty executable path): the
    // first and third still get their own attempts, in order.
    let specs = vec![spec("ollama"), spec(""), spec("meilisearch")];
    let attempts = attempt_order(&specs);
    assert_eq!(attempts, vec![0, 1, 2]);
    assert!(specs[0].viable());
    assert!(!specs[1].viable());
    assert!(specs[2].viable());
}

#[test]
fn attempt_order_is_the_identity_whatever_the_specs_hold() {
    assert_eq!(attempt_order(&Vec::new()).len(), 0);
    let specs = vec![spec(""), spec("")];
    assert_eq!(attempt_order(&specs), vec![0, 1]);
}

#[test]
fn first_success_takes_the_least_winning_index() {
    assert_eq!(first_success(&vec![false, false, true, true]), Some(2));
    assert_eq!(first_success(&vec![true, true]), Some(0));
    assert_eq!(first_success(&vec![false, false]), None);
    assert_eq!(first_success(&Vec::new()), None);
}
