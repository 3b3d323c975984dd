use session_engine::connection::{
    chat_heartbeat, coinflip_heartbeat, crash_heartbeat, jackpot_heartbeat, silent_for,
    HeartbeatAction,
};

#[test]
fn silence_is_the_time_since_the_last_sign_of_life() {
    assert_eq!(silent_for(1000, 1000), 0);
    assert_eq!(silent_for(1000, 11_000), 10_000);
    assert_eq!(silent_for(1000, 999), 0);
    assert_eq!(silent_for(0, u64::MAX), u64::MAX);
}

#[test]
fn crash_connection_stops_at_ten_seconds() {
    assert_eq!(crash_heartbeat(0), HeartbeatAction::Ping);
    assert_eq!(crash_heartbeat(9_999), HeartbeatAction::Ping);
    assert_eq!(crash_heartbeat(10_000), HeartbeatAction::Stop);
}

#[test]
fn jackpot_connection_stops_beyond_fifteen_seconds() {
    assert_eq!(jackpot_heartbeat(15_000), HeartbeatAction::Ping);
    assert_eq!(jackpot_heartbeat(15_001), HeartbeatAction::Stop);
}

#[test]
fn coinflip_and_chat_connections_stop_beyond_ten_seconds() {
    assert_eq!(coinflip_heartbeat(10_000), HeartbeatAction::Ping);
    assert_eq!(coinflip_heartbeat(10_001), HeartbeatAction::Stop);
    assert_eq!(chat_heartbeat(10_000), HeartbeatAction::Ping);
    assert_eq!(chat_heartbeat(10_001), HeartbeatAction::Stop);
}
