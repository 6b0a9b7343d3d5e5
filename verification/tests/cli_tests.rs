use military_portal::cli::{
    cli_error_text, health_text, parse_command_line, parse_role, CliCommand, ServiceRole, USAGE,
};

fn args(items: &[&str]) -> Vec<String> {
    items.iter().map(|s| s.to_string()).collect()
}

fn failure(items: &[&str]) -> String {
    match parse_command_line(&args(items)) {
        CliCommand::Fail(m) => m,
        CliCommand::Help => panic!("expected a failure, got help"),
        CliCommand::Run(_) => panic!("expected a failure, got a run"),
    }
}

#[test]
fn runs_the_named_instance() {
    match parse_command_line(&args(&["--service-instance", "citizen:8081", "--bind-host", "127.0.0.1"])) {
        CliCommand::Run(a) => {
            assert_eq!(a.service_role, ServiceRole::Citizen);
            assert_eq!(a.bind_host, "127.0.0.1");
            assert_eq!(a.port, 8081);
        }
        _ => panic!("expected a run"),
    }
}

#[test]
fn flags_in_either_order_and_later_wins() {
    match parse_command_line(&args(&[
        "--bind-host", "0.0.0.0", "--service-instance", "officer:80", "--service-instance", "admin:9000",
    ])) {
        CliCommand::Run(a) => {
            assert_eq!(a.service_role, ServiceRole::Admin);
            assert_eq!(a.bind_host, "0.0.0.0");
            assert_eq!(a.port, 9000);
        }
        _ => panic!("expected a run"),
    }
}

#[test]
fn help_wins_before_any_error() {
    assert!(matches!(parse_command_line(&args(&["-h"])), CliCommand::Help));
    assert!(matches!(parse_command_line(&args(&["--bind-host", "x", "--help", "--bogus"])), CliCommand::Help));
}

#[test]
fn a_help_flag_taken_as_a_value_is_a_value() {
    assert_eq!(failure(&["--bind-host", "--help"]), "--service-instance is required");
}

#[test]
fn missing_value_and_unknown_argument() {
    assert_eq!(failure(&["--service-instance"]), "missing value for --service-instance");
    assert_eq!(failure(&["--port", "80"]), "unknown argument: --port");
    assert_eq!(failure(&["--bind-host", "h", "--oops"]), "missing value for --oops");
}

#[test]
fn required_and_malformed_instance() {
    assert_eq!(failure(&[]), "--service-instance is required");
    assert_eq!(failure(&["--service-instance", "citizen", "--bind-host", "h"]),
        "--service-instance must be <role>:<port> (got 'citizen')");
    assert_eq!(failure(&["--service-instance", "pilot:80", "--bind-host", "h"]),
        "--service-instance role must be one of: citizen, officer, admin (got 'pilot')");
    assert_eq!(failure(&["--service-instance", "admin:70000", "--bind-host", "h"]),
        "--service-instance port must be a valid port (got '70000')");
    assert_eq!(failure(&["--service-instance", "admin:80:90", "--bind-host", "h"]),
        "--service-instance port must be a valid port (got '80:90')");
}

#[test]
fn bind_host_is_required() {
    assert_eq!(failure(&["--service-instance", "officer:8082"]), "--bind-host is required");
}

#[test]
fn error_text_carries_usage() {
    assert_eq!(cli_error_text("boom"), format!("error: boom\n\n{USAGE}"));
}

#[test]
fn roles_and_health() {
    assert_eq!(parse_role("citizen"), Some(ServiceRole::Citizen));
    assert_eq!(parse_role("officer"), Some(ServiceRole::Officer));
    assert_eq!(parse_role("admin"), Some(ServiceRole::Admin));
    assert_eq!(parse_role("Admin"), None);
    assert_eq!(ServiceRole::Officer.name(), "officer");
    assert_eq!(health_text(ServiceRole::Admin), "admin-service ok");
}
