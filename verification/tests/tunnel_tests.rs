//! Tunnel supervisor tests: restart budget, URL extraction, errors.

use suiperchat_core::tunnel::{CloudflaredManagerError, HealthAction, ProcessManager, TunnelError,
    build_cloudflared_args, find_tunnel_url, startup_result, MAX_RESTART_ATTEMPTS};

#[test]
fn four_exits_grant_three_restarts_then_fail() {
    let mut pm = ProcessManager::new(8082);
    let mut restarts = 0;
    let mut last = HealthAction::Continue;
    for _ in 0..4 {
        last = pm.health_step(false);
        if last == HealthAction::Restart {
            restarts += 1;
        }
    }
    assert_eq!(restarts, 3);
    assert_eq!(last, HealthAction::GiveUp);
    assert_eq!(pm.restart_attempts, MAX_RESTART_ATTEMPTS);

    // once given up, further dead polls never restart again
    assert_eq!(pm.health_step(false), HealthAction::GiveUp);
    assert_eq!(pm.restart_attempts, MAX_RESTART_ATTEMPTS);
}

#[test]
fn a_live_process_costs_no_attempts() {
    let mut pm = ProcessManager::new(8082);
    assert_eq!(pm.health_step(true), HealthAction::Continue);
    assert_eq!(pm.restart_attempts, 0);
}

#[test]
fn a_stable_interval_restores_the_budget() {
    let mut pm = ProcessManager::new(8082);
    assert_eq!(pm.health_step(false), HealthAction::Restart);
    assert_eq!(pm.health_step(false), HealthAction::Restart);
    pm.on_interval_survived();
    assert_eq!(pm.restart_attempts, 0);
    assert!(pm.can_restart());
    assert_eq!(pm.health_step(false), HealthAction::Restart);
}

#[test]
fn the_public_url_is_extracted_from_log_lines() {
    let line = "2024-01-01T00:00:00Z INF +  https://lucky-otter-1234.trycloudflare.com  +";
    assert_eq!(
        find_tunnel_url(line),
        Some("https://lucky-otter-1234.trycloudflare.com".to_string())
    );

    assert_eq!(
        find_tunnel_url("plain http://abc.trycloudflare.com here"),
        Some("http://abc.trycloudflare.com".to_string())
    );

    assert_eq!(find_tunnel_url("nothing to see"), None);
    assert_eq!(find_tunnel_url("https://.trycloudflare.com"), None);
    assert_eq!(find_tunnel_url("https://other-provider.example.com"), None);
}

#[test]
fn startup_outcomes_map_to_the_error_taxonomy() {
    let ok = startup_result(Some("https://x.trycloudflare.com".to_string()), false);
    assert_eq!(ok.unwrap(), "https://x.trycloudflare.com");

    match startup_result(None, true) {
        Err(TunnelError::Timeout) => {},
        _ => panic!("a timed-out startup must report Timeout"),
    }
    match startup_result(None, false) {
        Err(TunnelError::UrlNotFound) => {},
        _ => panic!("an early process exit must report UrlNotFound"),
    }
}

#[test]
fn error_messages_name_the_failure() {
    assert_eq!(
        TunnelError::ManagerError("boom".to_string()).message(),
        "Cloudflared manager error: boom"
    );
    assert_eq!(TunnelError::StdioError.message(), "Failed to read cloudflared stdout");
    assert_eq!(
        TunnelError::UrlNotFound.message(),
        "Cloudflare URL not found in output within timeout"
    );
    assert_eq!(TunnelError::Timeout.message(), "Timed out waiting for cloudflared URL");
    assert_eq!(
        CloudflaredManagerError::BinaryNotFound.message(),
        "Cloudflared binary not found at expected path"
    );
    assert_eq!(CloudflaredManagerError::UnsupportedPlatform.message(), "Unsupported platform");
}

#[test]
fn subprocess_arguments_forward_the_port() {
    let args = build_cloudflared_args(8082);
    assert_eq!(
        args,
        vec![
            "tunnel".to_string(),
            "--url".to_string(),
            "http://127.0.0.1:8082".to_string(),
            "--no-autoupdate".to_string(),
            "--compression-quality".to_string(),
            "0".to_string(),
        ]
    );
}
