//! Log page selection and rendering, the local-network rule, and the
//! host configuration.

use gnomelab::{
    cert_paths, format_log_lines, is_local_ip, parse_log_index, select_log_path, CertMode,
    HostAddr, Status, SystemConfig,
};

#[test]
fn log_index_parsing() {
    assert_eq!(parse_log_index("0"), Some(0));
    assert_eq!(parse_log_index("3"), Some(3));
    assert_eq!(parse_log_index("042"), Some(42));
    assert_eq!(parse_log_index(""), None);
    assert_eq!(parse_log_index("x"), None);
    assert_eq!(parse_log_index("1a"), None);
    assert_eq!(parse_log_index("-1"), None);
    assert_eq!(parse_log_index("99999999999999999999999999"), None);
}

#[test]
fn log_path_selection() {
    let paths = vec!["/var/log/a.log".to_string(), "/var/log/b.log".to_string()];
    assert_eq!(select_log_path(&paths, Some(1)), "/var/log/b.log");
    assert_eq!(select_log_path(&paths, Some(0)), "/var/log/a.log");
    assert_eq!(select_log_path(&paths, Some(7)), "/var/log/a.log");
    assert_eq!(select_log_path(&paths, None), "/var/log/a.log");
}

#[test]
fn log_line_formatting() {
    assert_eq!(format_log_lines(&vec![]), "<ul></ul>");
    assert_eq!(
        format_log_lines(&vec!["one".to_string()]),
        "<ul><li>one</li></ul>"
    );
    assert_eq!(
        format_log_lines(&vec!["one".to_string(), "two".to_string()]),
        "<ul><li>one</li>\n<li>two</li></ul>"
    );
}

#[test]
fn local_network_rule() {
    assert!(is_local_ip(&HostAddr::V4(10, 1, 2, 3)));
    assert!(is_local_ip(&HostAddr::V4(192, 168, 0, 1)));
    assert!(is_local_ip(&HostAddr::V4(172, 16, 0, 1)));
    assert!(is_local_ip(&HostAddr::V4(172, 31, 255, 255)));
    assert!(is_local_ip(&HostAddr::V4(127, 0, 0, 1)));
    assert!(!is_local_ip(&HostAddr::V4(172, 32, 0, 1)));
    assert!(!is_local_ip(&HostAddr::V4(192, 169, 0, 1)));
    assert!(!is_local_ip(&HostAddr::V4(8, 8, 8, 8)));
    assert!(is_local_ip(&HostAddr::V6([0, 0, 0, 0, 0, 0, 0, 1])));
    assert!(!is_local_ip(&HostAddr::V6([0, 0, 0, 0, 0, 0, 0, 2])));
    assert!(!is_local_ip(&HostAddr::V6([0x2001, 0, 0, 0, 0, 0, 0, 1])));
}

#[test]
fn config_defaults_and_tls() {
    let c = SystemConfig::default();
    assert_eq!(c.http, 8080);
    assert_eq!(c.https, 8443);
    assert_eq!(c.cert_mode, CertMode::NoTls);
    assert!(!c.uses_tls());
    let tls = SystemConfig { http: 80, https: 443, cert_mode: CertMode::Manual };
    assert!(tls.uses_tls());
}

#[test]
fn certificate_paths() {
    assert_eq!(
        cert_paths(&CertMode::SelfSigned),
        Some(("self_signed_certs/cert.pem", "self_signed_certs/key.pem"))
    );
    assert_eq!(
        cert_paths(&CertMode::Manual),
        Some(("manual_certs/cert.pem", "manual_certs/key.pem"))
    );
    assert_eq!(cert_paths(&CertMode::NoTls), None);
}

/// One terminal status per concluded run, as the store records it.
#[test]
fn exit_statuses_are_terminal() {
    assert!(Status::ExitCode(-2147483648).is_terminal());
    assert!(Status::ExitCode(255).is_terminal());
}
