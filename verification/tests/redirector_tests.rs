use cavin_tools::driver::{check_model_status, get_model_path, windivert_info};
use cavin_tools::handler::SockAddr;
use cavin_tools::redirector::{
    ConnectionTracker, PidTable, Redirector, RedirectorConfig, RedirectorStatus,
};
use cavin_tools::server::ProxyServer;

fn addr(a: u8, b: u8, c: u8, d: u8, port: u16) -> SockAddr {
    SockAddr { ip_a: a, ip_b: b, ip_c: c, ip_d: d, port }
}

#[test]
fn monitored_pid_set_supports_add_remove_replace_clear() {
    let mut r = Redirector::new(RedirectorConfig::default());
    assert!(!r.contains_pid(10));
    r.add_pid(10);
    r.add_pid(20);
    assert!(r.contains_pid(10) && r.contains_pid(20));
    r.remove_pid(10);
    assert!(!r.contains_pid(10) && r.contains_pid(20));
    r.set_pids(vec![1, 2, 3]);
    assert!(r.contains_pid(1) && r.contains_pid(2) && r.contains_pid(3));
    assert!(!r.contains_pid(20));
    r.clear_pids();
    assert!(!r.contains_pid(1));
}

#[test]
fn status_walks_the_lifecycle() {
    let mut r = Redirector::new(RedirectorConfig::default());
    assert!(matches!(r.status(), RedirectorStatus::Stopped));
    r.mark_starting();
    assert!(matches!(r.status(), RedirectorStatus::Starting));
    r.mark_running();
    assert!(matches!(r.status(), RedirectorStatus::Running));
    r.mark_error("driver gone".to_string());
    match r.status() {
        RedirectorStatus::Error { reason } => assert_eq!(reason, "driver gone"),
        other => panic!("expected the error status, got {:?}", status_name(&other)),
    }
    r.mark_stopped();
    assert!(matches!(r.status(), RedirectorStatus::Stopped));
}

fn status_name(s: &RedirectorStatus) -> &'static str {
    match s {
        RedirectorStatus::Stopped => "Stopped",
        RedirectorStatus::Starting => "Starting",
        RedirectorStatus::Running => "Running",
        RedirectorStatus::Error { .. } => "Error",
    }
}

#[test]
fn tracker_remembers_the_original_destination() {
    let mut t = ConnectionTracker::new();
    let src = addr(10, 0, 0, 2, 50000);
    let original = addr(93, 184, 216, 34, 443);
    assert!(t.get_original(&src).is_none());
    t.track(src, original);
    let found = t.get_original(&src).expect("tracked connection is found");
    assert_eq!(found.port, 443);
    assert_eq!((found.ip_a, found.ip_b, found.ip_c, found.ip_d), (93, 184, 216, 34));
    assert!(t.get_original(&addr(10, 0, 0, 2, 50001)).is_none());
}

#[test]
fn pid_table_attributes_flows() {
    let mut t = PidTable::new();
    let src = addr(10, 0, 0, 2, 50000);
    let dst = addr(93, 184, 216, 34, 443);
    assert!(t.lookup(&src, &dst).is_none());
    t.learn(src, dst, 777);
    assert_eq!(t.lookup(&src, &dst), Some(777));
    assert!(t.lookup(&dst, &src).is_none());
}

#[test]
fn capture_filter_excludes_the_proxy_port() {
    let r = Redirector::new(RedirectorConfig::default());
    assert_eq!(
        r.capture_filter(),
        "tcp and !loopback and (tcp.DstPort == 80 or tcp.DstPort == 443) and localPort != 9527"
    );
}

#[test]
fn default_config_is_loopback_9527() {
    let c = RedirectorConfig::default();
    assert_eq!(c.proxy_port, 9527);
    assert_eq!(c.listen_addr, "127.0.0.1");
}

#[test]
fn server_control_reports_bind_failures_and_stops_gracefully() {
    let mut s = ProxyServer::new(9527);
    assert_eq!(s.port(), 9527);
    assert!(!s.is_running());
    assert_eq!(s.bind_addr().sock_string(), "127.0.0.1:9527");

    let err = s.on_bind(false, "address in use".to_string()).unwrap_err();
    assert_eq!(err, "Failed to bind port 9527: address in use");
    assert!(!s.is_running());

    s.on_bind(true, String::new()).unwrap();
    assert!(s.is_running());
    s.stop();
    assert!(!s.is_running());
}

#[test]
fn driver_and_model_presence_reports() {
    let present = windivert_info(true, "/data/windivert".to_string());
    assert!(present.installed);
    assert_eq!(present.version.as_deref(), Some("2.2.2"));
    assert_eq!(present.path, "/data/windivert");
    let absent = windivert_info(false, "/data/windivert".to_string());
    assert!(!absent.installed);
    assert!(absent.version.is_none());

    assert_eq!(get_model_path("/data/models"), "/data/models/rmbg-1.4.onnx");
    let model = check_model_status(true, "/data/models/rmbg-1.4.onnx".to_string(), 9000);
    assert!(model.downloaded);
    assert_eq!(model.size, Some(9000));
    assert_eq!(model.version, "1.4");
    let missing = check_model_status(false, String::new(), 0);
    assert!(!missing.downloaded && missing.path.is_none() && missing.size.is_none());
}
