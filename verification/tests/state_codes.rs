use goobie_mysql::state::State;

#[test]
fn state_numbers_are_stable() {
    assert_eq!(State::Connected.to_usize(), 0);
    assert_eq!(State::Connecting.to_usize(), 1);
    assert_eq!(State::NotConnected.to_usize(), 2);
    assert_eq!(State::Disconnected.to_usize(), 3);
    assert_eq!(State::Error.to_usize(), 4);
}

#[test]
fn state_numbers_are_distinct() {
    let all = [
        State::Connected,
        State::Connecting,
        State::NotConnected,
        State::Disconnected,
        State::Error,
    ];
    for a in all {
        for b in all {
            assert_eq!(a.to_usize() == b.to_usize(), a == b);
        }
    }
}

#[test]
fn state_names_in_words() {
    assert_eq!(State::Connected.name(), "Connected");
    assert_eq!(State::Connecting.name(), "Connecting");
    assert_eq!(State::NotConnected.name(), "Not Connected");
    assert_eq!(State::Disconnected.name(), "Disconnected");
    assert_eq!(State::Error.name(), "Error");
}

#[test]
fn state_names_for_the_host() {
    assert_eq!(State::Connected.export_name(), "CONNECTED");
    assert_eq!(State::Connecting.export_name(), "CONNECTING");
    assert_eq!(State::NotConnected.export_name(), "NOT_CONNECTED");
    assert_eq!(State::Disconnected.export_name(), "DISCONNECTED");
    assert_eq!(State::Error.export_name(), "ERROR");
}
