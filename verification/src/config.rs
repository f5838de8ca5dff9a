//! Runtime configuration for one launch of the gateway backend, and the
//! credential check a caller performs before asking the supervisor to start.
use vstd::prelude::*;
use vstd::string::*;

verus! {

/// Which of the three mutually exclusive credential sources a launch uses.
#[derive(Clone, Copy, Debug, PartialEq, Eq, Structural)]
pub enum AuthMethod {
    RefreshToken,
    CredsFile,
    CliDb,
}

/// Immutable snapshot of everything needed to launch the backend once.
///
/// The two timeout fields hold the decimal text of a duration in seconds,
/// exactly as it is handed to the child through its environment.
pub struct AppConfig {
    pub auth_method: AuthMethod,
    pub refresh_token: Option<String>,
    pub kiro_creds_file: Option<String>,
    pub kiro_cli_db_file: Option<String>,
    pub proxy_api_key: String,
    pub server_host: String,
    pub server_port: u16,
    pub kiro_region: String,
    pub vpn_proxy_url: Option<String>,
    pub first_token_timeout: String,
    pub streaming_read_timeout: String,
    pub fake_reasoning: bool,
    pub fake_reasoning_max_tokens: u32,
    pub truncation_recovery: bool,
    pub log_level: String,
    pub debug_mode: String,
}

/// The credential field selected by `auth_method`, as a sequence of
/// characters, or `None` when that field is absent.
pub open spec fn spec_selected_credential(c: AppConfig) -> Option<Seq<char>> {
    match c.auth_method {
        AuthMethod::RefreshToken => match c.refresh_token {
            Some(t) => Some(t@),
            None => None,
        },
        AuthMethod::CredsFile => match c.kiro_creds_file {
            Some(f) => Some(f@),
            None => None,
        },
        AuthMethod::CliDb => match c.kiro_cli_db_file {
            Some(d) => Some(d@),
            None => None,
        },
    }
}

/// A configuration is ready to start only when the credential field selected
/// by its auth method is present and non-empty.
pub open spec fn spec_has_credentials(c: AppConfig) -> bool {
    match spec_selected_credential(c) {
        Some(s) => s.len() > 0,
        None => false,
    }
}

/// Whether the credential selected by the auth method is present and
/// non-empty.
pub fn has_credentials(config: &AppConfig) -> (r: bool)
    ensures
        r == spec_has_credentials(*config),
{
    match config.auth_method {
        AuthMethod::RefreshToken => match &config.refresh_token {
            Some(t) => !t.as_str().is_empty(),
            None => false,
        },
        AuthMethod::CredsFile => match &config.kiro_creds_file {
            Some(f) => !f.as_str().is_empty(),
            None => false,
        },
        AuthMethod::CliDb => match &config.kiro_cli_db_file {
            Some(d) => !d.as_str().is_empty(),
            None => false,
        },
    }
}

/// Precondition check a caller runs before `start`: succeeds exactly when the
/// selected credential is configured, and otherwise reports the missing
/// credentials without touching any supervisor state.
pub fn check_credentials(config: &AppConfig) -> (r: Result<(), String>)
    ensures
        r is Ok <==> spec_has_credentials(*config),
        r matches Err(m) ==> m@ == "No credentials configured. Please set up authentication in Settings first."@,
{
    if has_credentials(config) {
        Ok(())
    } else {
        Err(String::from_str(
            "No credentials configured. Please set up authentication in Settings first.",
        ))
    }
}

impl Default for AppConfig {
    /// The configuration used when none has been saved yet: local loopback
    /// bind on port 8000, refresh-token auth with no credential filled in,
    /// and the stock feature toggles.
    fn default() -> (c: AppConfig)
        ensures
            c.auth_method == AuthMethod::RefreshToken,
            c.refresh_token is None,
            c.kiro_creds_file is None,
            c.kiro_cli_db_file is None,
            c.proxy_api_key@ == Seq::<char>::empty(),
            c.server_host@ == "127.0.0.1"@,
            c.server_port == 8000,
            c.kiro_region@ == "us-east-1"@,
            c.vpn_proxy_url is None,
            c.first_token_timeout@ == "15"@,
            c.streaming_read_timeout@ == "300"@,
            c.fake_reasoning == true,
            c.fake_reasoning_max_tokens == 4000,
            c.truncation_recovery == true,
            c.log_level@ == "INFO"@,
            c.debug_mode@ == "off"@,
    {
        AppConfig {
            auth_method: AuthMethod::RefreshToken,
            refresh_token: None,
            kiro_creds_file: None,
            kiro_cli_db_file: None,
            proxy_api_key: String::new(),
            server_host: String::from_str("127.0.0.1"),
            server_port: 8000,
            kiro_region: String::from_str("us-east-1"),
            vpn_proxy_url: None,
            first_token_timeout: String::from_str("15"),
            streaming_read_timeout: String::from_str("300"),
            fake_reasoning: true,
            fake_reasoning_max_tokens: 4000,
            truncation_recovery: true,
            log_level: String::from_str("INFO"),
            debug_mode: String::from_str("off"),
        }
    }
}

} // verus!
