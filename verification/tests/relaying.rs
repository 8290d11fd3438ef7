use eludris_bridge::event::Platform;
use eludris_bridge::relay::outcome_continues;
use eludris_bridge::relay::plan_subscriptions;
use eludris_bridge::relay::relay_batch;
use eludris_bridge::relay::relay_step;
use eludris_bridge::relay::ChannelConfig;
use eludris_bridge::relay::RelayInput;
use eludris_bridge::relay::StepOutcome;
use eludris_bridge::resolve::resolve;
use eludris_bridge::resolve::ResolveError;

fn strings(xs: &[&str]) -> Vec<String> {
    xs.iter().map(|x| x.to_string()).collect()
}

#[test]
fn resolve_suppresses_the_origin() {
    let members = strings(&["node-x", "node-y", "node-z"]);
    let registered = strings(&["node-x", "node-y", "node-z"]);
    let id = "node-x".to_string();
    let ixs = resolve(&members, Platform::Eludris, &id, &registered).unwrap();
    assert_eq!(ixs, vec![1, 2]);
}

#[test]
fn resolve_keeps_everyone_for_the_bridged_network() {
    let members = strings(&["node-x", "node-y"]);
    let registered = strings(&["node-x", "node-y"]);
    let id = "node-x".to_string();
    let ixs = resolve(&members, Platform::Discord, &id, &registered).unwrap();
    assert_eq!(ixs, vec![0, 1]);
}

#[test]
fn resolve_missing_client_is_an_error() {
    let members = strings(&["node-q"]);
    let registered = strings(&["node-a"]);
    let id = String::new();
    let err = resolve(&members, Platform::Discord, &id, &registered).unwrap_err();
    assert_eq!(err, ResolveError::MissingClient("node-q".to_string()));
}

#[test]
fn plan_subscriptions_keeps_participating_channels_in_order() {
    let config = vec![
        ChannelConfig { name: "general".to_string(), eludris: true },
        ChannelConfig { name: "private".to_string(), eludris: false },
        ChannelConfig { name: "misc".to_string(), eludris: true },
    ];
    assert_eq!(plan_subscriptions(&config), strings(&["general", "misc"]));
}

#[test]
fn relay_step_dispatches_a_message() {
    let raw = br#"{"platform":"discord","t":"MessageCreate","d":{"author":"alice","content":"hi","replies":[],"attachments":[]}}"#.to_vec();
    let members = Some(strings(&["node-a"]));
    let registered = strings(&["node-a"]);
    match relay_step(&raw, &members, &registered) {
        StepOutcome::Send { name, body, destinations } => {
            assert_eq!(name, "Bridge-alice");
            assert_eq!(body, "hi");
            assert_eq!(destinations, vec![0]);
        }
        other => panic!("expected a dispatch, got {:?}", other),
    }
}

#[test]
fn relay_step_inlines_attachments_for_empty_content() {
    let raw = br#"{"platform":"discord","t":"MessageCreate","d":{"author":"alice","content":"","replies":[],"attachments":["http://x/img.png"]}}"#.to_vec();
    let members = Some(strings(&["node-a"]));
    let registered = strings(&["node-a"]);
    match relay_step(&raw, &members, &registered) {
        StepOutcome::Send { name, body, .. } => {
            assert_eq!(name, "Bridge-alice");
            assert_eq!(body, "http://x/img.png");
        }
        other => panic!("expected a dispatch, got {:?}", other),
    }
}

#[test]
fn relay_step_quotes_the_first_reply() {
    let raw = br#"{"platform":"discord","t":"MessageCreate","d":{"author":"alice","content":"reply text","replies":[{"author":"bob","content":"l1\nl2"}],"attachments":[]}}"#.to_vec();
    let members = Some(strings(&["node-a"]));
    let registered = strings(&["node-a"]);
    match relay_step(&raw, &members, &registered) {
        StepOutcome::Send { body, .. } => {
            assert_eq!(body, "\n> l1\n> l2\n@bob\nreply text");
        }
        other => panic!("expected a dispatch, got {:?}", other),
    }
}

#[test]
fn relay_step_skips_on_directory_miss() {
    let raw = br#"{"platform":"discord","t":"MessageCreate","d":{"author":"alice","content":"hi","replies":[],"attachments":[]}}"#.to_vec();
    let registered = strings(&["node-a"]);
    let outcome = relay_step(&raw, &None, &registered);
    assert_eq!(outcome, StepOutcome::NoDirectory);
    assert!(outcome_continues(&outcome));
}

#[test]
fn relay_step_skips_ignored_kinds() {
    let raw = br#"{"platform":"discord","t":"MessageDelete","d":{"id":1}}"#.to_vec();
    let members = Some(strings(&["node-a"]));
    let registered = strings(&["node-a"]);
    let outcome = relay_step(&raw, &members, &registered);
    assert_eq!(outcome, StepOutcome::Ignored);
    assert!(outcome_continues(&outcome));
}

#[test]
fn relay_step_suppresses_the_echoing_destination() {
    let raw = br#"{"platform":"eludris","identifier":"node-a","t":"MessageCreate","d":{"author":"alice","content":"hi","replies":[],"attachments":[]}}"#.to_vec();
    let members = Some(strings(&["node-a", "node-b"]));
    let registered = strings(&["node-a", "node-b"]);
    match relay_step(&raw, &members, &registered) {
        StepOutcome::Send { destinations, .. } => assert_eq!(destinations, vec![1]),
        other => panic!("expected a dispatch, got {:?}", other),
    }
}

#[test]
fn relay_step_missing_client_is_fatal() {
    let raw = br#"{"platform":"discord","t":"MessageCreate","d":{"author":"alice","content":"hi","replies":[],"attachments":[]}}"#.to_vec();
    let members = Some(strings(&["node-q"]));
    let registered = strings(&["node-a"]);
    let outcome = relay_step(&raw, &members, &registered);
    assert_eq!(outcome, StepOutcome::MissingClient("node-q".to_string()));
    assert!(!outcome_continues(&outcome));
}

#[test]
fn relay_batch_goes_on_after_bad_payloads_and_directory_misses() {
    let good = br#"{"platform":"discord","t":"MessageCreate","d":{"author":"alice","content":"hi","replies":[],"attachments":[]}}"#.to_vec();
    let inputs = vec![
        RelayInput { payload: b"not a document".to_vec(), members: Some(strings(&["node-a"])) },
        RelayInput { payload: vec![0xff, 0xfe], members: Some(strings(&["node-a"])) },
        RelayInput { payload: good.clone(), members: None },
        RelayInput { payload: good, members: Some(strings(&["node-a"])) },
    ];
    let registered = strings(&["node-a"]);
    let (outs, exit) = relay_batch(&inputs, &registered);
    assert!(exit.is_none());
    assert_eq!(outs.len(), 1);
    assert_eq!(outs[0].name, "Bridge-alice");
    assert_eq!(outs[0].body, "hi");
    assert_eq!(outs[0].destinations, vec![0]);
}

#[test]
fn relay_batch_stops_at_a_missing_client() {
    let good = br#"{"platform":"discord","t":"MessageCreate","d":{"author":"alice","content":"hi","replies":[],"attachments":[]}}"#.to_vec();
    let inputs = vec![
        RelayInput { payload: good.clone(), members: Some(strings(&["node-q"])) },
        RelayInput { payload: good, members: Some(strings(&["node-a"])) },
    ];
    let registered = strings(&["node-a"]);
    let (outs, exit) = relay_batch(&inputs, &registered);
    assert!(outs.is_empty());
    assert_eq!(exit, Some("node-q".to_string()));
}

#[test]
fn relay_step_skips_an_empty_transformed_message() {
    let raw = br#"{"platform":"discord","t":"MessageCreate","d":{"author":"alice","content":"","replies":[],"attachments":[]}}"#.to_vec();
    let members = Some(strings(&["node-a"]));
    let registered = strings(&["node-a"]);
    let outcome = relay_step(&raw, &members, &registered);
    assert_eq!(outcome, StepOutcome::EmptyMessage);
    assert!(outcome_continues(&outcome));
}
