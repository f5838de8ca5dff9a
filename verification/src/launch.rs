//! Launch-specification builder: maps a configuration into a process
//! invocation — a resolved executable path plus an ordered list of
//! environment-variable assignments, derived deterministically and with no
//! side effects.
use crate::config::AppConfig;
use crate::config::AuthMethod;
use crate::config::spec_has_credentials;
use crate::config::spec_selected_credential;
use vstd::prelude::*;
use vstd::string::*;

verus! {

/// Resolved executable path plus ordered environment assignments for one
/// start attempt. Ephemeral: recomputed on every start, never persisted.
pub struct LaunchSpec {
    pub program: String,
    pub env: Vec<(String, String)>,
}

/// The decimal digit character for `d`.
pub open spec fn spec_digit(d: nat) -> char {
    if d == 0 {
        '0'
    } else if d == 1 {
        '1'
    } else if d == 2 {
        '2'
    } else if d == 3 {
        '3'
    } else if d == 4 {
        '4'
    } else if d == 5 {
        '5'
    } else if d == 6 {
        '6'
    } else if d == 7 {
        '7'
    } else if d == 8 {
        '8'
    } else {
        '9'
    }
}

/// Decimal text of `n`, without sign or leading zeros (`0` stays `"0"`).
pub open spec fn spec_decimal(n: nat) -> Seq<char>
    decreases n,
{
    if n < 10 {
        seq![spec_digit(n)]
    } else {
        spec_decimal(n / 10).push(spec_digit(n % 10))
    }
}

/// `"true"` or `"false"`, the fixed serialization of a feature toggle.
pub open spec fn spec_bool_text(b: bool) -> Seq<char> {
    if b {
        "true"@
    } else {
        "false"@
    }
}

fn digit_str(d: u64) -> (r: &'static str)
    requires
        d < 10,
    ensures
        r@ =~= seq![spec_digit(d as nat)],
{
    let r: &'static str = if d == 0 {
        "0"
    } else if d == 1 {
        "1"
    } else if d == 2 {
        "2"
    } else if d == 3 {
        "3"
    } else if d == 4 {
        "4"
    } else if d == 5 {
        "5"
    } else if d == 6 {
        "6"
    } else if d == 7 {
        "7"
    } else if d == 8 {
        "8"
    } else {
        "9"
    };
    proof {
        reveal_strlit("0");
        reveal_strlit("1");
        reveal_strlit("2");
        reveal_strlit("3");
        reveal_strlit("4");
        reveal_strlit("5");
        reveal_strlit("6");
        reveal_strlit("7");
        reveal_strlit("8");
        reveal_strlit("9");
    }
    r
}

/// Decimal text of `n`.
pub fn decimal_string(n: u64) -> (r: String)
    ensures
        r@ == spec_decimal(n as nat),
    decreases n,
{
    if n < 10 {
        String::from_str(digit_str(n))
    } else {
        let mut s = decimal_string(n / 10);
        s.append(digit_str(n % 10));
        proof {
            assert(s@ =~= spec_decimal((n / 10) as nat).push(spec_digit((n % 10) as nat)));
        }
        s
    }
}

/// `"true"` or `"false"` for a feature toggle.
pub fn bool_string(b: bool) -> (r: String)
    ensures
        r@ == spec_bool_text(b),
{
    if b {
        String::from_str("true")
    } else {
        String::from_str("false")
    }
}

/// Name of the environment variable that carries the credential selected by
/// `method`.
pub open spec fn spec_auth_var_name(method: AuthMethod) -> Seq<char> {
    match method {
        AuthMethod::RefreshToken => "REFRESH_TOKEN"@,
        AuthMethod::CredsFile => "KIRO_CREDS_FILE"@,
        AuthMethod::CliDb => "KIRO_CLI_DB_FILE"@,
    }
}

/// The single credential assignment, present exactly when the selected
/// credential field is non-empty; an empty or absent credential is not the
/// builder's error to report.
pub open spec fn spec_auth_pairs(c: AppConfig) -> Seq<(Seq<char>, Seq<char>)> {
    if spec_has_credentials(c) {
        seq![(spec_auth_var_name(c.auth_method), spec_selected_credential(c).unwrap())]
    } else {
        Seq::empty()
    }
}

/// The optional proxy assignment, present exactly when a proxy URL is set.
pub open spec fn spec_proxy_pairs(c: AppConfig) -> Seq<(Seq<char>, Seq<char>)> {
    match c.vpn_proxy_url {
        Some(u) => seq![("VPN_PROXY_URL"@, u@)],
        None => Seq::empty(),
    }
}

/// The full ordered environment for one launch: every scalar configuration
/// field under its fixed variable name, booleans as `"true"`/`"false"`,
/// numbers as decimal text, then at most one credential assignment, then the
/// optional proxy assignment.
pub open spec fn spec_env_pairs(c: AppConfig) -> Seq<(Seq<char>, Seq<char>)> {
    seq![
        ("TAURI_MANAGED"@, "true"@),
        ("PROXY_API_KEY"@, c.proxy_api_key@),
        ("SERVER_HOST"@, c.server_host@),
        ("SERVER_PORT"@, spec_decimal(c.server_port as nat)),
        ("KIRO_REGION"@, c.kiro_region@),
        ("FIRST_TOKEN_TIMEOUT"@, c.first_token_timeout@),
        ("STREAMING_READ_TIMEOUT"@, c.streaming_read_timeout@),
        ("FAKE_REASONING"@, spec_bool_text(c.fake_reasoning)),
        ("FAKE_REASONING_MAX_TOKENS"@, spec_decimal(c.fake_reasoning_max_tokens as nat)),
        ("TRUNCATION_RECOVERY"@, spec_bool_text(c.truncation_recovery)),
        ("LOG_LEVEL"@, c.log_level@),
        ("DEBUG_MODE"@, c.debug_mode@),
    ] + spec_auth_pairs(c) + spec_proxy_pairs(c)
}

/// Name of the bundled backend executable on the given platform.
pub open spec fn spec_executable_file_name(windows: bool) -> Seq<char> {
    if windows {
        "kiro-gateway.exe"@
    } else {
        "kiro-gateway"@
    }
}

/// Where a packaged install keeps the backend executable, relative to the
/// base directory: under `Resources/resources` inside an application bundle,
/// under `resources` beside the executable elsewhere.
pub open spec fn spec_packaged_executable_path(
    base_dir: Seq<char>,
    bundled: bool,
    windows: bool,
) -> Seq<char> {
    base_dir + (if bundled {
        "/Resources/resources/"@
    } else {
        "/resources/"@
    }) + spec_executable_file_name(windows)
}

/// In a development build the backend runs under the system interpreter.
pub fn development_executable() -> (r: String)
    ensures
        r@ == "python3"@,
{
    String::from_str("python3")
}

/// Name of the bundled backend executable on the given platform.
pub fn executable_file_name(windows: bool) -> (r: String)
    ensures
        r@ == spec_executable_file_name(windows),
{
    if windows {
        String::from_str("kiro-gateway.exe")
    } else {
        String::from_str("kiro-gateway")
    }
}

/// The candidate path of the bundled backend executable in a packaged
/// install. `base_dir` is the application-bundle contents directory when
/// `bundled`, otherwise the directory holding the running executable. The
/// caller must still check that the path exists; absence is fatal to the
/// start attempt.
pub fn packaged_executable_path(base_dir: &str, bundled: bool, windows: bool) -> (r: String)
    ensures
        r@ == spec_packaged_executable_path(base_dir@, bundled, windows),
{
    let mut s = String::from_str(base_dir);
    if bundled {
        s.append("/Resources/resources/");
    } else {
        s.append("/resources/");
    }
    let name = executable_file_name(windows);
    s.append(name.as_str());
    s
}

fn push_pair(env: &mut Vec<(String, String)>, name: &str, value: String)
    ensures
        final(env).deep_view() == old(env).deep_view().push((name@, value@)),
{
    env.push((String::from_str(name), value));
    proof {
        assert(env.deep_view() =~= old(env).deep_view().push((name@, value@)));
    }
}

/// Derive the launch specification for `config` with the already-resolved
/// executable `program`: a pure mapping, no process interaction.
pub fn build_launch_spec(config: &AppConfig, program: String) -> (spec: LaunchSpec)
    ensures
        spec.program == program,
        spec.env.deep_view() == spec_env_pairs(*config),
{
    let mut env: Vec<(String, String)> = Vec::new();
    push_pair(&mut env, "TAURI_MANAGED", String::from_str("true"));
    push_pair(&mut env, "PROXY_API_KEY", config.proxy_api_key.clone());
    push_pair(&mut env, "SERVER_HOST", config.server_host.clone());
    push_pair(&mut env, "SERVER_PORT", decimal_string(config.server_port as u64));
    push_pair(&mut env, "KIRO_REGION", config.kiro_region.clone());
    push_pair(&mut env, "FIRST_TOKEN_TIMEOUT", config.first_token_timeout.clone());
    push_pair(&mut env, "STREAMING_READ_TIMEOUT", config.streaming_read_timeout.clone());
    push_pair(&mut env, "FAKE_REASONING", bool_string(config.fake_reasoning));
    push_pair(
        &mut env,
        "FAKE_REASONING_MAX_TOKENS",
        decimal_string(config.fake_reasoning_max_tokens as u64),
    );
    push_pair(&mut env, "TRUNCATION_RECOVERY", bool_string(config.truncation_recovery));
    push_pair(&mut env, "LOG_LEVEL", config.log_level.clone());
    push_pair(&mut env, "DEBUG_MODE", config.debug_mode.clone());
    match config.auth_method {
        AuthMethod::RefreshToken => {
            if let Some(token) = &config.refresh_token {
                if !token.as_str().is_empty() {
                    push_pair(&mut env, "REFRESH_TOKEN", token.clone());
                }
            }
        },
        AuthMethod::CredsFile => {
            if let Some(file) = &config.kiro_creds_file {
                if !file.as_str().is_empty() {
                    push_pair(&mut env, "KIRO_CREDS_FILE", file.clone());
                }
            }
        },
        AuthMethod::CliDb => {
            if let Some(db) = &config.kiro_cli_db_file {
                if !db.as_str().is_empty() {
                    push_pair(&mut env, "KIRO_CLI_DB_FILE", db.clone());
                }
            }
        },
    }
    if let Some(proxy) = &config.vpn_proxy_url {
        push_pair(&mut env, "VPN_PROXY_URL", proxy.clone());
    }
    proof {
        assert(env.deep_view() =~= spec_env_pairs(*config));
    }
    LaunchSpec { program, env }
}

} // verus!
