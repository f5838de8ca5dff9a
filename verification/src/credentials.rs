//! Credential-path scanning rules: the fixed candidate locations per
//! credential kind, the order-preserving selection of those that exist, and
//! the recommendation among what was found. The filesystem existence checks
//! themselves are the shell's job; the rules here are pure.
use crate::text::concat_strs;
use vstd::prelude::*;
use vstd::string::*;

verus! {

/// The fixed candidate locations of a credentials file, tried in order,
/// relative to the user's home directory except the final system-wide path.
pub open spec fn spec_creds_file_candidates(home: Seq<char>) -> Seq<Seq<char>> {
    seq![
        home + "/.aws/sso/cache/kiro-auth-token.json"@,
        home + "/.config/kiro/kiro-credentials.json"@,
        home + "/.kiro/kiro-credentials.json"@,
        home + "/kiro-credentials.json"@,
        "/etc/kiro/kiro-credentials.json"@,
    ]
}

/// The fixed candidate locations of a CLI session database, tried in order.
pub open spec fn spec_cli_db_candidates(home: Seq<char>, data_dir: Seq<char>) -> Seq<Seq<char>> {
    seq![
        data_dir + "/kiro-cli/data.sqlite3"@,
        home + "/.local/share/kiro-cli/data.sqlite3"@,
        home + "/.config/kiro-cli/data.sqlite3"@,
        home + "/.kiro-cli/data.sqlite3"@,
    ]
}

/// The candidate locations of a credentials file for the given home
/// directory.
pub fn creds_file_candidates(home: &str) -> (r: Vec<String>)
    ensures
        r.deep_view() == spec_creds_file_candidates(home@),
{
    let mut r: Vec<String> = Vec::new();
    r.push(concat_strs(home, "/.aws/sso/cache/kiro-auth-token.json"));
    r.push(concat_strs(home, "/.config/kiro/kiro-credentials.json"));
    r.push(concat_strs(home, "/.kiro/kiro-credentials.json"));
    r.push(concat_strs(home, "/kiro-credentials.json"));
    r.push(String::from_str("/etc/kiro/kiro-credentials.json"));
    proof {
        assert(r.deep_view() =~= spec_creds_file_candidates(home@));
    }
    r
}

/// The candidate locations of a CLI session database for the given home and
/// local-data directories.
pub fn cli_db_candidates(home: &str, data_dir: &str) -> (r: Vec<String>)
    ensures
        r.deep_view() == spec_cli_db_candidates(home@, data_dir@),
{
    let mut r: Vec<String> = Vec::new();
    r.push(concat_strs(data_dir, "/kiro-cli/data.sqlite3"));
    r.push(concat_strs(home, "/.local/share/kiro-cli/data.sqlite3"));
    r.push(concat_strs(home, "/.config/kiro-cli/data.sqlite3"));
    r.push(concat_strs(home, "/.kiro-cli/data.sqlite3"));
    proof {
        assert(r.deep_view() =~= spec_cli_db_candidates(home@, data_dir@));
    }
    r
}

/// The candidate paths to probe for the given auth method: credentials-file
/// locations for `creds_file`, database locations for `cli_db`, nothing for
/// any other method.
pub fn scan_candidate_paths(auth_method: &String, home: &str, data_dir: &str) -> (r: Vec<String>)
    ensures
        auth_method@ == "creds_file"@ ==> r.deep_view() == spec_creds_file_candidates(home@),
        auth_method@ == "cli_db"@ ==> r.deep_view() == spec_cli_db_candidates(home@, data_dir@),
        auth_method@ != "creds_file"@ && auth_method@ != "cli_db"@ ==> r.deep_view()
            == Seq::<Seq<char>>::empty(),
{
    proof {
        reveal_strlit("creds_file");
        reveal_strlit("cli_db");
        assert("creds_file"@.len() != "cli_db"@.len());
    }
    if auth_method.eq(&String::from_str("creds_file")) {
        creds_file_candidates(home)
    } else if auth_method.eq(&String::from_str("cli_db")) {
        cli_db_candidates(home, data_dir)
    } else {
        let r: Vec<String> = Vec::new();
        proof {
            assert(r.deep_view() =~= Seq::<Seq<char>>::empty());
        }
        r
    }
}

/// The candidates that were found to exist, in their original order:
/// `flags[i]` reports the existence check of `paths[i]`.
pub open spec fn spec_flagged(paths: Seq<Seq<char>>, flags: Seq<bool>) -> Seq<Seq<char>>
    decreases paths.len(),
{
    if paths.len() == 0 || flags.len() == 0 {
        Seq::empty()
    } else {
        let rest = spec_flagged(paths.drop_last(), flags.drop_last());
        if flags.last() {
            rest.push(paths.last())
        } else {
            rest
        }
    }
}

/// Keep the paths whose existence check succeeded, preserving order.
pub fn filter_existing(paths: &Vec<String>, exists: &Vec<bool>) -> (r: Vec<String>)
    requires
        paths@.len() == exists@.len(),
    ensures
        r.deep_view() == spec_flagged(paths.deep_view(), exists@),
{
    let n = paths.len();
    let mut r: Vec<String> = Vec::new();
    proof {
        assert(paths.deep_view().subrange(0, 0) =~= Seq::<Seq<char>>::empty());
        assert(exists@.subrange(0, 0) =~= Seq::<bool>::empty());
        assert(r.deep_view() =~= spec_flagged(
            paths.deep_view().subrange(0, 0),
            exists@.subrange(0, 0),
        ));
    }
    for i in 0..n
        invariant
            n == paths@.len(),
            paths@.len() == exists@.len(),
            paths.deep_view().len() == paths@.len(),
            r.deep_view() == spec_flagged(
                paths.deep_view().subrange(0, i as int),
                exists@.subrange(0, i as int),
            ),
    {
        let ghost pre = r.deep_view();
        if exists[i] {
            r.push(paths[i].clone());
            proof {
                assert(r.deep_view() =~= pre.push(paths.deep_view()[i as int]));
            }
        }
        proof {
            let ps = paths.deep_view().subrange(0, i + 1);
            let fs = exists@.subrange(0, i + 1);
            assert(ps.drop_last() =~= paths.deep_view().subrange(0, i as int));
            assert(fs.drop_last() =~= exists@.subrange(0, i as int));
            assert(ps.last() == paths.deep_view()[i as int]);
            assert(fs.last() == exists@[i as int]);
            assert(r.deep_view() =~= spec_flagged(ps, fs));
        }
    }
    proof {
        assert(paths.deep_view().subrange(0, paths@.len() as int) =~= paths.deep_view());
        assert(exists@.subrange(0, exists@.len() as int) =~= exists@);
    }
    r
}

/// What a scan over every credential kind found, and which find is
/// recommended.
pub struct CredentialScanResult {
    pub creds_files: Vec<String>,
    pub cli_dbs: Vec<String>,
    pub recommended_method: Option<String>,
    pub recommended_path: Option<String>,
}

impl CredentialScanResult {
    /// Assemble the scan outcome from the paths found to exist: a CLI
    /// session database is preferred over a credentials file, and within a
    /// kind the first find wins; nothing found means no recommendation.
    pub fn from_found(creds_files: Vec<String>, cli_dbs: Vec<String>) -> (r: CredentialScanResult)
        ensures
            r.creds_files == creds_files,
            r.cli_dbs == cli_dbs,
            cli_dbs@.len() > 0 ==> {
                &&& r.recommended_method matches Some(m) && m@ == "cli_db"@
                &&& r.recommended_path matches Some(p) && p@ == cli_dbs@[0]@
            },
            cli_dbs@.len() == 0 && creds_files@.len() > 0 ==> {
                &&& r.recommended_method matches Some(m) && m@ == "creds_file"@
                &&& r.recommended_path matches Some(p) && p@ == creds_files@[0]@
            },
            cli_dbs@.len() == 0 && creds_files@.len() == 0 ==> {
                &&& r.recommended_method is None
                &&& r.recommended_path is None
            },
    {
        if cli_dbs.len() > 0 {
            let path = cli_dbs[0].clone();
            CredentialScanResult {
                creds_files,
                cli_dbs,
                recommended_method: Some(String::from_str("cli_db")),
                recommended_path: Some(path),
            }
        } else if creds_files.len() > 0 {
            let path = creds_files[0].clone();
            CredentialScanResult {
                creds_files,
                cli_dbs,
                recommended_method: Some(String::from_str("creds_file")),
                recommended_path: Some(path),
            }
        } else {
            CredentialScanResult {
                creds_files,
                cli_dbs,
                recommended_method: None,
                recommended_path: None,
            }
        }
    }
}

} // verus!
