use bevymmo::mode::{choose_client_id, generated_client_id, AppMode};

#[test]
fn capabilities_match_each_application_mode() {
    assert!(AppMode::Client.has_client());
    assert!(!AppMode::Client.has_server());
    assert!(!AppMode::Server.has_client());
    assert!(AppMode::Server.has_server());
    assert!(AppMode::HostClient.has_client());
    assert!(AppMode::HostClient.has_server());
}

#[test]
fn generated_client_ids_are_non_zero_and_distinct() {
    let first = choose_client_id(None, generated_client_id(4321, 1_700_000_000_000_000_000, 1));
    let second = choose_client_id(None, generated_client_id(4321, 1_700_000_000_000_000_000, 2));

    assert_ne!(first, 0);
    assert_ne!(second, 0);
    assert_ne!(first, second);
}

#[test]
fn explicit_non_zero_client_id_is_preserved() {
    assert_eq!(choose_client_id(Some(42), generated_client_id(1, 2, 3)), 42);
}

#[test]
fn zero_client_id_is_replaced_with_a_generated_value() {
    assert_ne!(choose_client_id(Some(0), generated_client_id(1, 2, 3)), 0);
}

#[test]
fn the_generated_id_mixes_process_time_and_sequence() {
    assert_eq!(generated_client_id(1, 0, 0), 1u64 << 32);
    assert_eq!(generated_client_id(1, 5, 3), (1u64 << 32) ^ 5 ^ 3);
    assert_eq!(generated_client_id(0, 7, 7), 1);
    assert_eq!(choose_client_id(Some(0), 99), 99);
    assert_eq!(choose_client_id(None, 0), 1);
}

#[test]
fn default_mode_is_host_client() {
    assert_eq!(AppMode::default_mode(), AppMode::HostClient);
}

use bevymmo::mode::server_address;

#[test]
fn each_mode_uses_its_configured_address() {
    let client = "127.0.0.1:5000".to_string();
    let bind = "0.0.0.0:5000".to_string();
    assert_eq!(server_address(AppMode::Server, None, client.clone(), bind.clone()), bind);
    assert_eq!(server_address(AppMode::Client, None, client.clone(), bind.clone()), client);
    assert_eq!(server_address(AppMode::HostClient, None, client.clone(), bind.clone()), client);
    assert_eq!(
        server_address(AppMode::Server, Some("1.2.3.4:9".to_string()), client, bind),
        "1.2.3.4:9"
    );
}
