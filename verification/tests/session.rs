use bevymmo::session::{
    accepts_spell_keys, connection_started, on_connected, on_disconnected, take_connect_intent,
    take_disconnect_intent, ClientSession, ConnectionIntent, Screen,
};

fn connecting_session() -> ClientSession {
    let mut s = ClientSession::new();
    s.request = Some(ConnectionIntent::Connect { player_name: "Ada".to_string() });
    s.failure = Some("old failure".to_string());
    s
}

#[test]
fn a_connect_intent_starts_one_connection() {
    let mut s = connecting_session();
    let name = take_connect_intent(&mut s, false).unwrap();
    assert_eq!(name, "Ada");
    assert!(s.request.is_none());
    assert!(s.failure.is_none());
    connection_started(&mut s, name, true);
    assert_eq!(s.screen, Screen::Connecting);
    assert_eq!(s.pending_name.as_deref(), Some("Ada"));
}

#[test]
fn a_second_click_does_not_open_a_second_link() {
    let mut s = connecting_session();
    assert_eq!(take_connect_intent(&mut s, true), None);
    assert!(s.request.is_none());
    assert_eq!(s.screen, Screen::MainMenu);
}

#[test]
fn a_client_that_cannot_start_reports_it() {
    let mut s = connecting_session();
    let name = take_connect_intent(&mut s, false).unwrap();
    connection_started(&mut s, name, false);
    assert_eq!(s.screen, Screen::MainMenu);
    assert_eq!(s.failure.as_deref(), Some("Unable to start the network client."));
    assert!(s.pending_name.is_none());
}

#[test]
fn connecting_sends_the_waiting_name() {
    let mut s = ClientSession::new();
    assert_eq!(on_connected(&mut s, true), None);
    s.pending_name = Some("Ada".to_string());
    assert_eq!(on_connected(&mut s, false), None);
    assert_eq!(s.screen, Screen::MainMenu);
    assert_eq!(on_connected(&mut s, true).as_deref(), Some("Ada"));
    assert_eq!(s.screen, Screen::InGame);
}

#[test]
fn the_first_reasonless_disconnect_of_a_new_link_is_ignored() {
    let mut s = ClientSession::new();
    s.pending_name = Some("Ada".to_string());
    s.screen = Screen::Connecting;
    assert!(!on_disconnected(&mut s, None, false));
    assert_eq!(s.screen, Screen::Connecting);
    assert!(on_disconnected(&mut s, Some("timed out".to_string()), false));
    assert_eq!(s.screen, Screen::MainMenu);
    assert_eq!(s.failure.as_deref(), Some("timed out"));
    assert!(s.pending_name.is_none());
}

#[test]
fn a_requested_disconnect_returns_to_the_menu() {
    let mut s = ClientSession::new();
    s.screen = Screen::InGame;
    s.request = Some(ConnectionIntent::Disconnect);
    assert!(take_disconnect_intent(&mut s, true));
    assert!(s.request.is_none());
    assert!(!take_disconnect_intent(&mut s, true));
    assert!(on_disconnected(&mut s, None, true));
    assert_eq!(s.screen, Screen::MainMenu);
    assert!(s.failure.is_none());
}

#[test]
fn spell_keys_act_only_in_game() {
    assert!(accepts_spell_keys(Screen::InGame));
    assert!(accepts_spell_keys(Screen::Paused));
    assert!(!accepts_spell_keys(Screen::MainMenu));
    assert!(!accepts_spell_keys(Screen::Connecting));
    assert!(!accepts_spell_keys(Screen::Settings));
}
