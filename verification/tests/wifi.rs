use plant_station::utils::wifi::{
    delivery_plan, ConnectionState, DeliveryStep, WifiRelay, SETTLE_SECONDS,
};

#[test]
fn a_new_relay_is_down() {
    let relay = WifiRelay::new();
    assert_eq!(relay.state(), ConnectionState::Disconnected);
    assert!(!relay.is_connected());
    assert!(!relay.get_reciver());
}

#[test]
fn after_disconnect_the_link_is_down() {
    let mut relay = WifiRelay::new();
    relay.begin_connect();
    relay.connect(Ok(())).unwrap();
    assert!(relay.is_connected());
    assert_eq!(relay.disconnect(Ok(())), Ok(false));
    assert!(!relay.is_connected());
    assert_eq!(relay.state(), ConnectionState::Disconnected);
}

#[test]
fn after_a_reconnect_that_succeeds_the_link_is_up_and_both_changes_went_out() {
    let mut relay = WifiRelay::new();
    relay.begin_connect();
    relay.connect(Ok(())).unwrap();
    let mut stream = Vec::new();
    stream.push(relay.disconnect(Ok(())).unwrap());
    assert!(!relay.is_connected());
    if let Some(status) = relay.begin_reconnect() {
        stream.push(status);
    }
    assert_eq!(relay.state(), ConnectionState::Reconnecting);
    stream.push(relay.reconnect(Ok(())).unwrap());
    assert!(relay.is_connected());
    assert_eq!(stream, vec![false, true]);
    assert!(relay.get_reciver());
}

#[test]
fn a_reconnect_that_fails_hands_the_error_on_and_leaves_the_link_down() {
    let mut relay = WifiRelay::new();
    assert_eq!(relay.begin_reconnect(), None);
    assert_eq!(relay.reconnect(Err(-7)), Err(-7));
    assert_eq!(relay.state(), ConnectionState::Disconnected);
    assert!(!relay.is_connected());
}

#[test]
fn a_disconnect_that_fails_changes_nothing() {
    let mut relay = WifiRelay::new();
    relay.begin_connect();
    assert_eq!(relay.state(), ConnectionState::Connecting);
    assert_eq!(relay.connect(Ok(())), Ok(true));
    assert_eq!(relay.disconnect(Err(12)), Err(12));
    assert!(relay.is_connected());
    assert_eq!(relay.state(), ConnectionState::Connected);
}

#[test]
fn losing_a_link_that_was_up_is_told_to_the_stream() {
    let mut relay = WifiRelay::new();
    relay.begin_connect();
    relay.connect(Ok(())).unwrap();
    assert_eq!(relay.begin_reconnect(), Some(false));
    assert!(!relay.is_connected());
    assert_eq!(relay.reconnect(Ok(())), Ok(true));
    assert_eq!(relay.begin_connect(), Some(false));
    assert_eq!(relay.connect(Err(3)), Err(3));
    assert_eq!(relay.begin_connect(), None);
}

#[test]
fn a_message_over_a_link_that_is_up_is_just_sent() {
    assert_eq!(delivery_plan(Some(true)), vec![DeliveryStep::Send]);
}

#[test]
fn a_message_over_a_link_that_is_down_brings_it_up_and_lets_it_go() {
    assert_eq!(
        delivery_plan(Some(false)),
        vec![
            DeliveryStep::Reconnect,
            DeliveryStep::Settle(3),
            DeliveryStep::Send,
            DeliveryStep::Disconnect,
        ]
    );
    assert_eq!(SETTLE_SECONDS, 3);
}

#[test]
fn a_link_that_cannot_say_how_it_is_gets_nothing_to_do() {
    assert_eq!(delivery_plan(None), vec![]);
}
