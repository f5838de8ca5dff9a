use gateway_supervisor::AppConfig;
use gateway_supervisor::AuthMethod;
use gateway_supervisor::bool_string;
use gateway_supervisor::build_launch_spec;
use gateway_supervisor::check_credentials;
use gateway_supervisor::decimal_string;
use gateway_supervisor::development_executable;
use gateway_supervisor::executable_file_name;
use gateway_supervisor::has_credentials;
use gateway_supervisor::packaged_executable_path;

#[test]
fn default_config_values() {
    let c = AppConfig::default();
    assert!(matches!(c.auth_method, AuthMethod::RefreshToken));
    assert_eq!(c.refresh_token, None);
    assert_eq!(c.kiro_creds_file, None);
    assert_eq!(c.kiro_cli_db_file, None);
    assert_eq!(c.proxy_api_key, "");
    assert_eq!(c.server_host, "127.0.0.1");
    assert_eq!(c.server_port, 8000);
    assert_eq!(c.kiro_region, "us-east-1");
    assert_eq!(c.vpn_proxy_url, None);
    assert_eq!(c.first_token_timeout, "15");
    assert_eq!(c.streaming_read_timeout, "300");
    assert!(c.fake_reasoning);
    assert_eq!(c.fake_reasoning_max_tokens, 4000);
    assert!(c.truncation_recovery);
    assert_eq!(c.log_level, "INFO");
    assert_eq!(c.debug_mode, "off");
}

#[test]
fn env_derivation_full_config() {
    let mut c = AppConfig::default();
    c.refresh_token = Some("abc".to_string());
    c.proxy_api_key = "key123".to_string();
    c.vpn_proxy_url = Some("http://proxy:3128".to_string());

    let spec = build_launch_spec(&c, "python3".to_string());
    assert_eq!(spec.program, "python3");

    let expected: Vec<(&str, &str)> = vec![
        ("TAURI_MANAGED", "true"),
        ("PROXY_API_KEY", "key123"),
        ("SERVER_HOST", "127.0.0.1"),
        ("SERVER_PORT", "8000"),
        ("KIRO_REGION", "us-east-1"),
        ("FIRST_TOKEN_TIMEOUT", "15"),
        ("STREAMING_READ_TIMEOUT", "300"),
        ("FAKE_REASONING", "true"),
        ("FAKE_REASONING_MAX_TOKENS", "4000"),
        ("TRUNCATION_RECOVERY", "true"),
        ("LOG_LEVEL", "INFO"),
        ("DEBUG_MODE", "off"),
        ("REFRESH_TOKEN", "abc"),
        ("VPN_PROXY_URL", "http://proxy:3128"),
    ];
    let got: Vec<(String, String)> = spec.env;
    assert_eq!(got.len(), expected.len());
    for (g, e) in got.iter().zip(expected.iter()) {
        assert_eq!(g.0, e.0);
        assert_eq!(g.1, e.1);
    }
}

#[test]
fn env_omits_empty_credential() {
    let mut c = AppConfig::default();
    c.refresh_token = Some(String::new());
    let spec = build_launch_spec(&c, "python3".to_string());
    assert!(spec.env.iter().all(|p| p.0 != "REFRESH_TOKEN"));
    assert!(spec.env.iter().all(|p| p.0 != "VPN_PROXY_URL"));
}

#[test]
fn env_selects_exactly_one_credential_variable() {
    let credential_names = ["REFRESH_TOKEN", "KIRO_CREDS_FILE", "KIRO_CLI_DB_FILE"];

    let mut c = AppConfig::default();
    c.auth_method = AuthMethod::CredsFile;
    c.kiro_creds_file = Some("/home/u/.kiro/kiro-credentials.json".to_string());
    c.refresh_token = Some("ignored".to_string());
    let spec = build_launch_spec(&c, "python3".to_string());
    let set: Vec<&(String, String)> =
        spec.env.iter().filter(|p| credential_names.contains(&p.0.as_str())).collect();
    assert_eq!(set.len(), 1);
    assert_eq!(set[0].0, "KIRO_CREDS_FILE");
    assert_eq!(set[0].1, "/home/u/.kiro/kiro-credentials.json");

    let mut c = AppConfig::default();
    c.auth_method = AuthMethod::CliDb;
    c.kiro_cli_db_file = Some("/data/kiro-cli/data.sqlite3".to_string());
    let spec = build_launch_spec(&c, "python3".to_string());
    let set: Vec<&(String, String)> =
        spec.env.iter().filter(|p| credential_names.contains(&p.0.as_str())).collect();
    assert_eq!(set.len(), 1);
    assert_eq!(set[0].0, "KIRO_CLI_DB_FILE");
}

#[test]
fn decimal_text_of_numbers() {
    assert_eq!(decimal_string(0), "0");
    assert_eq!(decimal_string(7), "7");
    assert_eq!(decimal_string(100), "100");
    assert_eq!(decimal_string(8000), "8000");
    assert_eq!(decimal_string(65535), "65535");
    assert_eq!(decimal_string(4000), "4000");
}

#[test]
fn boolean_text_of_toggles() {
    assert_eq!(bool_string(true), "true");
    assert_eq!(bool_string(false), "false");
}

#[test]
fn executable_resolution_paths() {
    assert_eq!(development_executable(), "python3");
    assert_eq!(executable_file_name(true), "kiro-gateway.exe");
    assert_eq!(executable_file_name(false), "kiro-gateway");
    assert_eq!(
        packaged_executable_path("/opt/app/Contents", true, false),
        "/opt/app/Contents/Resources/resources/kiro-gateway"
    );
    assert_eq!(
        packaged_executable_path("/opt/app", false, false),
        "/opt/app/resources/kiro-gateway"
    );
    assert_eq!(
        packaged_executable_path("C:/app", false, true),
        "C:/app/resources/kiro-gateway.exe"
    );
}

#[test]
fn credential_check_before_start() {
    let mut c = AppConfig::default();
    assert!(!has_credentials(&c));
    let err = check_credentials(&c).unwrap_err();
    assert_eq!(err, "No credentials configured. Please set up authentication in Settings first.");

    c.refresh_token = Some(String::new());
    assert!(!has_credentials(&c));

    c.refresh_token = Some("tok".to_string());
    assert!(has_credentials(&c));
    assert!(check_credentials(&c).is_ok());

    c.auth_method = AuthMethod::CredsFile;
    assert!(!has_credentials(&c));
    c.kiro_creds_file = Some("/tmp/creds.json".to_string());
    assert!(has_credentials(&c));

    c.auth_method = AuthMethod::CliDb;
    assert!(!has_credentials(&c));
    c.kiro_cli_db_file = Some("/tmp/db.sqlite3".to_string());
    assert!(has_credentials(&c));
}
