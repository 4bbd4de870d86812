//! Lifecycle tests: start and stop, status snapshots, settings.

use suiperchat_core::lifecycle::{LifecycleError, LifecycleManager};
use suiperchat_core::wallet::is_valid_wallet_address;

fn wallet64(fill: char) -> String {
    let mut s = String::from("0x");
    for _ in 0..64 {
        s.push(fill);
    }
    s
}

#[test]
fn stop_when_not_running_reports_and_still_emits_not_running() {
    let mut m = LifecycleManager::new();
    let (result, status) = m.stop();
    match result {
        Err(LifecycleError::NotRunning) => {},
        _ => panic!("stopping a stopped server must report NotRunning"),
    }
    // the status event is still emitted, showing the truth
    assert!(!status.is_running);
    assert_eq!(status.tunnel_status, "Stopped");
    assert!(status.ws_url.is_none());
}

#[test]
fn starting_twice_leaves_the_first_session_untouched() {
    let mut m = LifecycleManager::new();
    let session = m.begin_start().expect("a stopped server starts");
    let sid = session.id.clone();
    assert!(session.ended_at.is_none());
    assert_eq!(m.current_session_id(), Some(sid.clone()));

    match m.begin_start() {
        Err(LifecycleError::AlreadyRunning) => {},
        _ => panic!("a second start must report AlreadyRunning"),
    }
    assert_eq!(m.current_session_id(), Some(sid));
}

#[test]
fn full_start_stop_cycle() {
    let mut m = LifecycleManager::new();
    let session = m.begin_start().expect("start");
    m.on_bound("127.0.0.1".to_string(), 8082, 8081).expect("bound");

    let status = m.status();
    assert!(status.is_running);
    assert_eq!(status.ws_url.as_deref(), Some("ws://127.0.0.1:8082/ws"));
    assert_eq!(status.obs_url.as_deref(), Some("http://127.0.0.1:8081/obs/"));
    assert_eq!(status.tunnel_status, "Starting");

    m.on_tunnel_running("https://lucky-otter.trycloudflare.com".to_string());
    let status = m.status();
    assert_eq!(status.tunnel_status, "Running");
    assert_eq!(
        status.ws_url.as_deref(),
        Some("wss://lucky-otter.trycloudflare.com/ws")
    );
    assert_eq!(
        status.cloudflare_http_url.as_deref(),
        Some("https://lucky-otter.trycloudflare.com")
    );

    let (result, status) = m.stop();
    assert_eq!(result.expect("a running server stops"), Some(session.id));
    assert!(!status.is_running);
    assert_eq!(status.tunnel_status, "Stopped");
    assert_eq!(m.current_session_id(), None);
}

#[test]
fn a_failed_tunnel_degrades_but_keeps_the_server() {
    let mut m = LifecycleManager::new();
    m.begin_start().expect("start");
    m.on_bound("127.0.0.1".to_string(), 8082, 8081).expect("bound");
    m.on_tunnel_failed("Timed out waiting for cloudflared URL".to_string());
    let status = m.status();
    assert!(status.is_running);
    assert_eq!(status.tunnel_status, "Failed");
    assert_eq!(
        status.tunnel_error.as_deref(),
        Some("Timed out waiting for cloudflared URL")
    );
    assert_eq!(status.ws_url.as_deref(), Some("ws://127.0.0.1:8082/ws"));
}

#[test]
fn bind_failure_leaves_nothing_running() {
    let mut m = LifecycleManager::new();
    m.begin_start().expect("start");
    let err = m.on_bind_failed("port in use".to_string());
    match err {
        LifecycleError::BindFailed(reason) => assert_eq!(reason, "port in use"),
        _ => panic!("a bind failure must report BindFailed"),
    }
    assert!(!m.status().is_running);
    assert_eq!(m.current_session_id(), None);
    // after the failed start a new start is possible again
    assert!(m.begin_start().is_ok());
}

#[test]
fn probe_results_show_in_the_status() {
    let mut m = LifecycleManager::new();
    m.set_probe_results(true, true);
    let status = m.status();
    assert!(status.cgnat_detected);
    assert!(status.global_ip_fetch_failed);
}

#[test]
fn wallet_addresses_are_validated_exactly() {
    // the format: `0x` and then exactly 64 hex digits
    let good = wallet64('a');
    assert_eq!(good.len(), 66);
    assert!(is_valid_wallet_address(&good));
    assert!(is_valid_wallet_address(&wallet64('F')));
    assert!(is_valid_wallet_address(&wallet64('0')));

    // one character short, one long, bad characters, missing prefix
    assert!(!is_valid_wallet_address(&good[..65]));
    let mut long = good.clone();
    long.push('a');
    assert!(!is_valid_wallet_address(&long));
    assert!(!is_valid_wallet_address(&wallet64('g')));
    let mut noprefix = String::from("00");
    for _ in 0..64 {
        noprefix.push('a');
    }
    assert!(!is_valid_wallet_address(&noprefix));
    assert!(!is_valid_wallet_address(""));
    assert!(!is_valid_wallet_address("0x"));
}

#[test]
fn set_wallet_address_trims_and_reports_each_malformation() {
    let mut m = LifecycleManager::new();

    let good = wallet64('b');
    let padded = format!("  {}\n", good);
    m.set_wallet_address(&padded).expect("a valid address is accepted");
    assert_eq!(m.get_wallet_address(), Some(good));

    match m.set_wallet_address("1234") {
        Err(e) => assert_eq!(e, "Invalid SUI wallet address: Must start with '0x'."),
        Ok(_) => panic!("an address without the prefix must be refused"),
    }
    match m.set_wallet_address("0xabc") {
        Err(e) => assert_eq!(e, "Invalid SUI wallet address: Expected length 66, got 5."),
        Ok(_) => panic!("a short address must be refused"),
    }
    match m.set_wallet_address(&wallet64('z')) {
        Err(e) => assert_eq!(
            e,
            "Invalid SUI wallet address: Contains non-hexadecimal characters after '0x'."
        ),
        Ok(_) => panic!("a non-hex address must be refused"),
    }
}

#[test]
fn youtube_ids_are_validated() {
    let mut m = LifecycleManager::new();
    m.set_youtube_video_id(" dQw4w9WgXcQ ").expect("a plain eleven-character id is accepted");
    assert_eq!(m.get_youtube_video_id(), Some("dQw4w9WgXcQ".to_string()));

    match m.set_youtube_video_id("   ") {
        Err(e) => assert_eq!(e, "YouTube video ID cannot be empty."),
        Ok(_) => panic!("an empty id must be refused"),
    }
    match m.set_youtube_video_id("short") {
        Err(e) => assert_eq!(
            e,
            "Invalid YouTube video ID length: Expected around 11 characters, got 5."
        ),
        Ok(_) => panic!("a short id must be refused"),
    }
    match m.set_youtube_video_id("bad id 1234") {
        Err(e) => assert_eq!(e, "Invalid YouTube video ID: Contains invalid characters."),
        Ok(_) => panic!("an id with spaces must be refused"),
    }
}

#[test]
fn streamer_info_names_what_is_missing() {
    let mut m = LifecycleManager::new();
    match m.get_streamer_info() {
        Err(e) => assert_eq!(e, "Wallet address is not set. Please configure it first."),
        Ok(_) => panic!("without a wallet there is no streamer info"),
    }

    m.set_wallet_address(&wallet64('c')).expect("wallet accepted");
    match m.get_streamer_info() {
        Err(e) => assert_eq!(e, "WebSocket server host is not available (server not running?)."),
        Ok(_) => panic!("without a running server there is no streamer info"),
    }

    m.begin_start().expect("start");
    m.on_bound("127.0.0.1".to_string(), 8082, 8081).expect("bound");
    let info = m.get_streamer_info().expect("all data is available now");
    assert_eq!(info.ws_url, "ws://127.0.0.1:8082/ws");
    assert_eq!(info.obs_url, "http://127.0.0.1:8081/obs/");
    assert_eq!(info.wallet_address, wallet64('c'));
    assert_eq!(info.youtube_video_id, None);
}
