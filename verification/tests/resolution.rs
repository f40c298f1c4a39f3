use hardware_id::Platform;
use hardware_id::ResolutionFailure;
use hardware_id::Strategy;
use hardware_id::UuidQueryOutcome;
use hardware_id::get_hardware_id;
use hardware_id::outcome::Identifier;
use hardware_id::platform::requires_uuid_query;
use hardware_id::platform::selected_strategy;
use hardware_id::query::parse_uuid_query_output;

#[test]
fn no_uuid_query_requested_off_windows() {
    assert!(!requires_uuid_query(Platform::MacOs));
    assert!(!requires_uuid_query(Platform::Linux));
    assert!(!requires_uuid_query(Platform::Other));
    assert!(requires_uuid_query(Platform::Windows));
    assert_ne!(selected_strategy(Platform::MacOs), Strategy::PlatformProductUuid);
    assert_ne!(selected_strategy(Platform::Linux), Strategy::PlatformProductUuid);
    assert_ne!(selected_strategy(Platform::Other), Strategy::PlatformProductUuid);
    assert_eq!(selected_strategy(Platform::Windows), Strategy::PlatformProductUuid);
}

#[test]
fn strategy_order_and_applicability() {
    assert_eq!(Strategy::PlatformProductUuid.priority(), 0);
    assert_eq!(Strategy::PrimaryNetworkMac.priority(), 1);
    assert_eq!(Strategy::UnknownSentinel.priority(), 2);
    assert!(!Strategy::PlatformProductUuid.applicable_on(Platform::Linux));
    assert!(Strategy::PlatformProductUuid.applicable_on(Platform::Windows));
    assert!(Strategy::PrimaryNetworkMac.applicable_on(Platform::Other));
    assert!(Strategy::UnknownSentinel.applicable_on(Platform::Other));
}

#[test]
fn two_line_output_returns_trimmed_second_line() {
    let lines = vec!["UUID".to_string(), "1234-5678".to_string()];
    let r = parse_uuid_query_output(&lines);
    assert_eq!(r.unwrap().as_str(), "1234-5678");
}

#[test]
fn single_line_output_is_malformed() {
    let lines = vec!["UUID".to_string()];
    let r = parse_uuid_query_output(&lines);
    assert_eq!(r.unwrap_err(), ResolutionFailure::MalformedOutput);
}

#[test]
fn empty_output_is_malformed() {
    let lines: Vec<String> = vec![];
    let r = parse_uuid_query_output(&lines);
    assert_eq!(r.unwrap_err(), ResolutionFailure::MalformedOutput);
}

#[test]
fn blank_second_line_is_malformed() {
    let lines = vec!["UUID".to_string(), "   \t ".to_string()];
    let r = parse_uuid_query_output(&lines);
    assert_eq!(r.unwrap_err(), ResolutionFailure::MalformedOutput);
}

#[test]
fn surrounding_whitespace_is_trimmed() {
    let lines = vec!["UUID".to_string(), "\t 1234 \r".to_string()];
    let r = parse_uuid_query_output(&lines);
    assert_eq!(r.unwrap().as_str(), "1234");
}

#[test]
fn end_to_end_uuid_scenario() {
    let lines = vec![
        "UUID".to_string(),
        "  3F2504E0-4F89-11D3-9A0C-0305E82C3301  ".to_string(),
    ];
    let r = get_hardware_id(Platform::Windows, Some(UuidQueryOutcome::Produced(lines)));
    assert_eq!(r.unwrap().as_str(), "3F2504E0-4F89-11D3-9A0C-0305E82C3301");
}

#[test]
fn unavailable_query_is_terminal_on_windows() {
    let r = get_hardware_id(Platform::Windows, Some(UuidQueryOutcome::Unavailable));
    assert_eq!(r.unwrap_err(), ResolutionFailure::QueryUnavailable);
}

#[test]
fn malformed_query_output_is_terminal_on_windows() {
    let lines = vec!["UUID".to_string()];
    let r = get_hardware_id(Platform::Windows, Some(UuidQueryOutcome::Produced(lines)));
    assert_eq!(r.unwrap_err(), ResolutionFailure::MalformedOutput);
}

#[test]
fn mac_path_never_errors() {
    let r = get_hardware_id(Platform::Linux, None);
    let id = r.unwrap();
    assert!(id.as_str().starts_with("MAC-"));
    assert!(!id.as_str().is_empty());
}

#[test]
fn resolution_is_idempotent_for_one_machine_state() {
    let mk = || {
        vec![
            "UUID".to_string(),
            " 3F2504E0-4F89-11D3-9A0C-0305E82C3301 ".to_string(),
        ]
    };
    let r1 = get_hardware_id(Platform::Windows, Some(UuidQueryOutcome::Produced(mk())));
    let r2 = get_hardware_id(Platform::Windows, Some(UuidQueryOutcome::Produced(mk())));
    assert_eq!(r1.unwrap().as_str(), r2.unwrap().as_str());

    let m1 = get_hardware_id(Platform::MacOs, None);
    let m2 = get_hardware_id(Platform::MacOs, None);
    assert_eq!(m1.unwrap().as_str(), m2.unwrap().as_str());
}

#[test]
fn failure_messages_are_stable() {
    assert_eq!(
        ResolutionFailure::QueryUnavailable.message(),
        "the system information query process could not be started"
    );
    assert_eq!(
        ResolutionFailure::MalformedOutput.message(),
        "the system information query produced unexpected output"
    );
    assert_eq!(
        ResolutionFailure::NoIdentifierFound.message(),
        "no strategy produced a usable hardware identifier"
    );
}

#[test]
fn identifier_round_trip() {
    let id = Identifier::new("abc".to_string());
    assert_eq!(id.as_str(), "abc");
    assert_eq!(id.into_string(), "abc".to_string());
}
