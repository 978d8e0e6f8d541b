use source_listener::cache::Sources;
use source_listener::connection::{
    connection_step, ConnectionDecision, ConnectionError, ConnectionState,
};
use source_listener::events::{translate, DomainEvent, Facility, Operation};
use source_listener::listing::{refresh_one, reload_all, FetchError, ListEvent};
use source_listener::report::{line_text, report, ReportLine};
use source_listener::source::{reported_name, SourceDatum};

fn datum(name: &str, mute: bool) -> SourceDatum {
    SourceDatum::new(name.to_string(), mute)
}

#[test]
fn source_datum_new_keeps_fields() {
    let d = SourceDatum::new("mic0".to_string(), true);
    assert_eq!(d.name, "mic0");
    assert!(d.mute);
}

#[test]
fn reported_name_defaults_to_unknown() {
    assert_eq!(reported_name(None), "unknown");
    assert_eq!(reported_name(Some("front-mic".to_string())), "front-mic");
}

#[test]
fn report_prints_only_on_change() {
    assert_eq!(report(None, None), None);
    assert_eq!(report(None, Some(true)), Some(ReportLine::Muted));
    assert_eq!(report(None, Some(false)), Some(ReportLine::Unmuted));
    assert_eq!(report(Some(true), None), Some(ReportLine::NoDefault));
    assert_eq!(report(Some(true), Some(true)), None);
    assert_eq!(report(Some(true), Some(false)), Some(ReportLine::Unmuted));
    assert_eq!(report(Some(false), None), Some(ReportLine::NoDefault));
    assert_eq!(report(Some(false), Some(true)), Some(ReportLine::Muted));
    assert_eq!(report(Some(false), Some(false)), None);
}

#[test]
fn report_lines_have_exact_text() {
    assert_eq!(line_text(ReportLine::Muted), "MUTED");
    assert_eq!(line_text(ReportLine::Unmuted), "UNMUTED");
    assert_eq!(line_text(ReportLine::NoDefault), "No default source");
}

#[test]
fn translate_follows_the_table() {
    assert_eq!(
        translate(Facility::Source, Operation::Changed, 4),
        Some(DomainEvent::SourceChanged(4))
    );
    assert_eq!(
        translate(Facility::Source, Operation::New, 5),
        Some(DomainEvent::SourceAdded(5))
    );
    assert_eq!(
        translate(Facility::Source, Operation::Removed, 6),
        Some(DomainEvent::SourceRemoved(6))
    );
    assert_eq!(
        translate(Facility::Server, Operation::New, 7),
        Some(DomainEvent::ServerChanged)
    );
    assert_eq!(
        translate(Facility::Server, Operation::Changed, 0),
        Some(DomainEvent::ServerChanged)
    );
    assert_eq!(
        translate(Facility::Server, Operation::Removed, 1),
        Some(DomainEvent::ServerChanged)
    );
    assert_eq!(translate(Facility::Other, Operation::New, 8), None);
    assert_eq!(translate(Facility::Other, Operation::Changed, 9), None);
    assert_eq!(translate(Facility::Other, Operation::Removed, 10), None);
}

#[test]
fn connection_step_decides_per_state() {
    assert_eq!(
        connection_step(ConnectionState::Unconnected),
        ConnectionDecision::Wait
    );
    assert_eq!(
        connection_step(ConnectionState::Connecting),
        ConnectionDecision::Wait
    );
    assert_eq!(
        connection_step(ConnectionState::Authorizing),
        ConnectionDecision::Wait
    );
    assert_eq!(
        connection_step(ConnectionState::SettingName),
        ConnectionDecision::Wait
    );
    assert_eq!(
        connection_step(ConnectionState::Ready),
        ConnectionDecision::Connected
    );
    assert_eq!(
        connection_step(ConnectionState::Failed),
        ConnectionDecision::Fail(ConnectionError::Failed)
    );
    assert_eq!(
        connection_step(ConnectionState::Terminated),
        ConnectionDecision::Fail(ConnectionError::Terminated)
    );
}

#[test]
fn cache_insert_get_remove() {
    let mut cache = Sources::new();
    assert_eq!(cache.len(), 0);
    assert!(cache.get(3).is_none());

    cache.insert(3, datum("mic0", false));
    cache.insert(5, datum("usb", true));
    assert_eq!(cache.len(), 2);
    let got = cache.get(3).expect("id 3 cached");
    assert_eq!(got.name, "mic0");
    assert!(!got.mute);

    cache.insert(3, datum("mic0", true));
    assert_eq!(cache.len(), 2);
    assert!(cache.get(3).expect("id 3 cached").mute);

    let removed = cache.remove(3).expect("id 3 was cached");
    assert_eq!(removed.name, "mic0");
    assert!(cache.get(3).is_none());
    assert_eq!(cache.len(), 1);
    assert!(cache.remove(3).is_none());
}

#[test]
fn resolve_matches_names_exactly() {
    let mut cache = Sources::new();
    cache.insert(1, datum("internal", false));
    cache.insert(2, datum("usb", true));
    assert_eq!(cache.resolve(&Some("usb".to_string())), Some(2));
    assert_eq!(cache.resolve(&Some("USB".to_string())), None);
    assert_eq!(cache.resolve(&Some("usb ".to_string())), None);
    assert_eq!(cache.resolve(&None), None);
}

#[test]
fn resolve_takes_the_first_match_in_entry_order() {
    let mut cache = Sources::new();
    cache.insert(8, datum("twin", false));
    cache.insert(9, datum("twin", true));
    assert_eq!(cache.resolve(&Some("twin".to_string())), Some(8));
}

#[test]
fn resolve_on_empty_cache() {
    let cache = Sources::new();
    assert_eq!(cache.resolve(&Some("anything".to_string())), None);
    assert_eq!(cache.resolve(&None), None);
}

#[test]
fn reload_all_collects_until_end() {
    let events = vec![
        ListEvent::Item(3, datum("mic0", false)),
        ListEvent::Item(5, datum("usb", true)),
        ListEvent::End,
    ];
    let cache = reload_all(&events).expect("list run ended normally");
    assert_eq!(cache.len(), 2);
    assert_eq!(cache.get(3).expect("id 3").name, "mic0");
    assert!(cache.get(5).expect("id 5").mute);
}

#[test]
fn reload_all_keeps_the_last_item_per_id() {
    let events = vec![
        ListEvent::Item(3, datum("mic0", false)),
        ListEvent::Item(3, datum("mic0", true)),
        ListEvent::End,
    ];
    let cache = reload_all(&events).expect("list run ended normally");
    assert_eq!(cache.len(), 1);
    assert!(cache.get(3).expect("id 3").mute);
}

#[test]
fn reload_all_empty_list() {
    let events = vec![ListEvent::End];
    let cache = reload_all(&events).expect("list run ended normally");
    assert_eq!(cache.len(), 0);
}

#[test]
fn reload_all_mid_list_error_discards_everything() {
    let events = vec![
        ListEvent::Item(3, datum("mic0", false)),
        ListEvent::Error,
        ListEvent::End,
    ];
    assert_eq!(reload_all(&events).unwrap_err(), FetchError::ListFailed);
}

#[test]
fn refresh_one_returns_the_last_described_record() {
    let events = vec![
        ListEvent::Item(7, datum("usb", false)),
        ListEvent::Item(7, datum("usb", true)),
        ListEvent::End,
    ];
    let got = refresh_one(&events)
        .expect("describe run ended normally")
        .expect("a record was delivered");
    assert_eq!(got.name, "usb");
    assert!(got.mute);
}

#[test]
fn refresh_one_vanished_source_is_none_not_an_error() {
    let events = vec![ListEvent::End];
    assert!(refresh_one(&events).expect("run ended normally").is_none());
}

#[test]
fn refresh_one_error_is_reported() {
    let events = vec![ListEvent::Error];
    assert_eq!(refresh_one(&events).unwrap_err(), FetchError::ListFailed);
}
