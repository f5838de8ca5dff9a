use gateway_supervisor::CredentialScanResult;
use gateway_supervisor::cli_db_candidates;
use gateway_supervisor::creds_file_candidates;
use gateway_supervisor::filter_existing;
use gateway_supervisor::scan_candidate_paths;

#[test]
fn creds_file_candidate_list() {
    let got = creds_file_candidates("/home/u");
    assert_eq!(
        got,
        vec![
            "/home/u/.aws/sso/cache/kiro-auth-token.json".to_string(),
            "/home/u/.config/kiro/kiro-credentials.json".to_string(),
            "/home/u/.kiro/kiro-credentials.json".to_string(),
            "/home/u/kiro-credentials.json".to_string(),
            "/etc/kiro/kiro-credentials.json".to_string(),
        ]
    );
}

#[test]
fn cli_db_candidate_list() {
    let got = cli_db_candidates("/home/u", "/home/u/.local/share");
    assert_eq!(
        got,
        vec![
            "/home/u/.local/share/kiro-cli/data.sqlite3".to_string(),
            "/home/u/.local/share/kiro-cli/data.sqlite3".to_string(),
            "/home/u/.config/kiro-cli/data.sqlite3".to_string(),
            "/home/u/.kiro-cli/data.sqlite3".to_string(),
        ]
    );
}

#[test]
fn candidates_follow_the_auth_method() {
    let creds = scan_candidate_paths(&"creds_file".to_string(), "/h", "/d");
    assert_eq!(creds.len(), 5);
    assert_eq!(creds[0], "/h/.aws/sso/cache/kiro-auth-token.json");

    let dbs = scan_candidate_paths(&"cli_db".to_string(), "/h", "/d");
    assert_eq!(dbs.len(), 4);
    assert_eq!(dbs[0], "/d/kiro-cli/data.sqlite3");

    let none = scan_candidate_paths(&"refresh_token".to_string(), "/h", "/d");
    assert!(none.is_empty());
}

#[test]
fn existence_filter_keeps_order() {
    let paths = vec![
        "/one".to_string(),
        "/two".to_string(),
        "/three".to_string(),
        "/four".to_string(),
    ];
    let flags = vec![true, false, true, false];
    let found = filter_existing(&paths, &flags);
    assert_eq!(found, vec!["/one".to_string(), "/three".to_string()]);

    let none = filter_existing(&paths, &vec![false, false, false, false]);
    assert!(none.is_empty());

    let all = filter_existing(&paths, &vec![true, true, true, true]);
    assert_eq!(all, paths);
}

#[test]
fn recommendation_prefers_cli_db() {
    let r = CredentialScanResult::from_found(
        vec!["/creds-a".to_string()],
        vec!["/db-a".to_string(), "/db-b".to_string()],
    );
    assert_eq!(r.recommended_method, Some("cli_db".to_string()));
    assert_eq!(r.recommended_path, Some("/db-a".to_string()));
    assert_eq!(r.creds_files, vec!["/creds-a".to_string()]);
    assert_eq!(r.cli_dbs, vec!["/db-a".to_string(), "/db-b".to_string()]);
}

#[test]
fn recommendation_falls_back_to_creds_file() {
    let r = CredentialScanResult::from_found(
        vec!["/creds-a".to_string(), "/creds-b".to_string()],
        vec![],
    );
    assert_eq!(r.recommended_method, Some("creds_file".to_string()));
    assert_eq!(r.recommended_path, Some("/creds-a".to_string()));
}

#[test]
fn recommendation_absent_when_nothing_found() {
    let r = CredentialScanResult::from_found(vec![], vec![]);
    assert_eq!(r.recommended_method, None);
    assert_eq!(r.recommended_path, None);
}
