use spacestate::config::{credentials, default_directory, default_mqtt_port, default_polling_rate};
use spacestate::normalize::to_safe_entity_name;
use spacestate::poller::poll_round;
use spacestate::registry::{
    build_registry, find_endpoint, parse_directory, plan_registry, split_space_list,
    RegistryError,
};
use spacestate::space::Space;
use spacestate::status::{observed_state, parse_status, FetchError};

fn directory(entries: &[(&str, &str)]) -> Vec<(String, String)> {
    entries.iter().map(|(k, v)| (k.to_string(), v.to_string())).collect()
}

fn status_body(state: &str) -> String {
    format!(
        "{{\"space\":\"S\",\"logo\":\"l\",\"url\":\"u\",\"location\":{{\"lat\":1.0,\"lon\":2.0}},\"contact\":{{}}{}}}",
        state
    )
}

#[test]
fn normalizes_plain_label() {
    assert_eq!(
        to_safe_entity_name("Chaos Computer Club Spacestate"),
        "chaos_computer_club_spacestate"
    );
}

#[test]
fn normalizes_leading_digit_and_punctuation_run() {
    assert_eq!(to_safe_entity_name("3rd Floor!!Lab"), "_rd_floor_lab");
}

#[test]
fn normalizes_empty_label() {
    assert_eq!(to_safe_entity_name(""), "");
}

#[test]
fn normalizes_alphanumeric_label_to_lowercase() {
    assert_eq!(to_safe_entity_name("AbC123xYz"), "abc123xyz");
}

#[test]
fn normalizer_keeps_leading_and_trailing_underscore() {
    assert_eq!(to_safe_entity_name("-Hello World!"), "_hello_world_");
    assert_eq!(to_safe_entity_name("__a__b__"), "_a_b_");
}

#[test]
fn normalizer_output_charset() {
    for input in ["Ünïcödé Späce", "a--b  c", "X_Y_Z", "!!!", "Ω9"] {
        let out = to_safe_entity_name(input);
        assert!(out
            .chars()
            .all(|c| c.is_ascii_lowercase() || c.is_ascii_digit() || c == '_'));
        assert!(!out.contains("__"));
    }
}

#[test]
fn splits_space_list() {
    assert_eq!(split_space_list("A;C"), vec!["A".to_string(), "C".to_string()]);
    assert_eq!(split_space_list(""), vec!["".to_string()]);
    assert_eq!(split_space_list("A;"), vec!["A".to_string(), "".to_string()]);
    assert_eq!(split_space_list("one"), vec!["one".to_string()]);
}

#[test]
fn finds_first_endpoint() {
    let dir = directory(&[("A", "http://x"), ("B", "http://y"), ("A", "http://z")]);
    assert_eq!(find_endpoint(&dir, &"A".to_string()), Some("http://x".to_string()));
    assert_eq!(find_endpoint(&dir, &"B".to_string()), Some("http://y".to_string()));
    assert_eq!(find_endpoint(&dir, &"C".to_string()), None);
}

#[test]
fn parses_directory_document() {
    let parsed = parse_directory("{\"B\":\"http://y\",\"A\":\"http://x\"}").unwrap();
    assert_eq!(parsed, directory(&[("A", "http://x"), ("B", "http://y")]));
}

#[test]
fn rejects_malformed_directory() {
    assert_eq!(parse_directory("not json").unwrap_err(), RegistryError::DirectoryParse);
    assert_eq!(parse_directory("[1,2]").unwrap_err(), RegistryError::DirectoryParse);
}

#[test]
fn parses_open_status() {
    assert_eq!(parse_status(&status_body(",\"state\":{\"open\":true}")), Ok(true));
    assert_eq!(parse_status(&status_body(",\"state\":{\"open\":false}")), Ok(false));
}

#[test]
fn absent_open_field_counts_as_closed() {
    assert_eq!(parse_status(&status_body("")), Ok(false));
    assert_eq!(parse_status(&status_body(",\"state\":{}")), Ok(false));
    assert!(!observed_state(None));
    assert!(observed_state(Some(true)));
}

#[test]
fn malformed_status_is_reported() {
    assert_eq!(parse_status("<html>"), Err(FetchError::Malformed));
    assert_eq!(parse_status("{\"state\":{\"open\":true}}"), Err(FetchError::Malformed));
}

#[test]
fn registry_drops_space_absent_from_directory() {
    let dir = directory(&[("A", "http://x"), ("B", "http://y")]);
    let plan = plan_registry("A;C", &dir);
    assert_eq!(
        plan,
        vec![
            ("A".to_string(), Some("http://x".to_string())),
            ("C".to_string(), None)
        ]
    );
    let spaces = build_registry(&plan, &vec![Some(Ok(true)), None]).unwrap();
    assert_eq!(spaces.len(), 1);
    assert_eq!(spaces[0].name, "A");
    assert_eq!(spaces[0].endpoint, "http://x");
    assert_eq!(spaces[0].entity_name, "a_spacestate");
    assert!(spaces[0].state);
}

#[test]
fn registry_without_eligible_space_fails() {
    let dir = directory(&[]);
    let plan = plan_registry("Z", &dir);
    assert_eq!(plan, vec![("Z".to_string(), None)]);
    assert_eq!(build_registry(&plan, &vec![None]).unwrap_err(), RegistryError::NoEligibleSpace);
    let other = directory(&[("Q", "http://q")]);
    let plan = plan_registry("Z", &other);
    assert_eq!(build_registry(&plan, &vec![None]).unwrap_err(), RegistryError::NoEligibleSpace);
}

#[test]
fn registry_drops_unreachable_space() {
    let dir = directory(&[("A", "http://x"), ("B", "http://y")]);
    let plan = plan_registry("A;B", &dir);
    let probes = vec![Some(Err(FetchError::Unreachable)), Some(Ok(false))];
    let spaces = build_registry(&plan, &probes).unwrap();
    assert_eq!(spaces.len(), 1);
    assert_eq!(spaces[0].name, "B");
    assert!(!spaces[0].state);
    let all_down = vec![Some(Err(FetchError::Unreachable)), Some(Err(FetchError::Malformed))];
    assert_eq!(build_registry(&plan, &all_down).unwrap_err(), RegistryError::NoEligibleSpace);
}

#[test]
fn space_entity_name_from_label() {
    let space = Space::new("Chaos Computer Club", "http://c", false);
    assert_eq!(space.entity_name, "chaos_computer_club_spacestate");
}

#[test]
fn state_packets() {
    let mut space = Space::new("Foo Bar", "http://f", false);
    assert_eq!(
        space.build_state_packet(),
        ("spacestate/foo_bar_spacestate/state".to_string(), "CLOSED".to_string())
    );
    space.state = true;
    assert_eq!(space.build_state_packet().1, "OPEN");
}

#[test]
fn discovery_packet() {
    let space = Space::new("Foo", "http://f", true);
    let (topic, d) = space.build_discovery_packet();
    assert_eq!(topic, "homeassistant/binary_sensor/spacestate/foo_spacestate/config");
    assert_eq!(d.name, "Foo Spacestate");
    assert_eq!(d.unique_id, "foo_spacestate");
    assert_eq!(d.state_topic, "spacestate/foo_spacestate/state");
    assert_eq!(d.payload_on, "OPEN");
    assert_eq!(d.payload_off, "CLOSED");
}

#[test]
fn steady_closed_state_publishes_nothing() {
    let mut space = Space::new("A", "http://x", false);
    assert_eq!(space.observe(Ok(false)), None);
    assert!(!space.state);
}

#[test]
fn opening_publishes_once() {
    let mut space = Space::new("A", "http://x", false);
    assert_eq!(
        space.observe(Ok(true)),
        Some(("spacestate/a_spacestate/state".to_string(), "OPEN".to_string()))
    );
    assert!(space.state);
}

#[test]
fn failed_fetch_changes_nothing() {
    let mut space = Space::new("A", "http://x", false);
    assert_eq!(space.observe(Err(FetchError::Unreachable)), None);
    assert_eq!(space.observe(Err(FetchError::Malformed)), None);
    assert!(!space.state);
    let mut spaces = vec![Space::new("A", "http://x", true), Space::new("B", "http://y", false)];
    let sent = poll_round(&mut spaces, &vec![Err(FetchError::Unreachable), Ok(false)]);
    assert!(sent.is_empty());
    assert!(spaces[0].state);
    assert!(!spaces[1].state);
}

#[test]
fn repeated_rounds_publish_only_transitions() {
    let mut spaces = vec![Space::new("A", "http://x", false), Space::new("B", "http://y", true)];
    let round = vec![Ok(true), Ok(false)];
    let sent = poll_round(&mut spaces, &round);
    assert_eq!(
        sent,
        vec![
            ("spacestate/a_spacestate/state".to_string(), "OPEN".to_string()),
            ("spacestate/b_spacestate/state".to_string(), "CLOSED".to_string())
        ]
    );
    for _ in 0..5 {
        assert!(poll_round(&mut spaces, &round).is_empty());
    }
    assert!(spaces[0].state);
    assert!(!spaces[1].state);
    let sent = poll_round(&mut spaces, &vec![Ok(false), Err(FetchError::Unreachable)]);
    assert_eq!(sent, vec![("spacestate/a_spacestate/state".to_string(), "CLOSED".to_string())]);
}

#[test]
fn configuration_defaults() {
    assert_eq!(default_polling_rate(), 600);
    assert_eq!(default_mqtt_port(), 1883);
    assert_eq!(default_directory(), "https://directory.spaceapi.io");
}

#[test]
fn credentials_need_both_parts() {
    assert_eq!(
        credentials(Some("u".to_string()), Some("p".to_string())),
        Some(("u".to_string(), "p".to_string()))
    );
    assert_eq!(credentials(Some("u".to_string()), None), None);
    assert_eq!(credentials(None, Some("p".to_string())), None);
    assert_eq!(credentials(None, None), None);
}
