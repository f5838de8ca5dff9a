//! Verified core of a desktop gateway supervisor: launch-specification
//! building, a bounded log buffer, the supervisor state machine for a single
//! child process, credential-path scanning rules, and conversation-list
//! maintenance. Process spawning, signalling and file I/O live outside this
//! crate; the logic here is stated and proved over plain values.
pub mod config;
pub mod conversations;
pub mod credentials;
pub mod launch;
pub mod logbuf;
pub mod server;
pub mod text;

pub use config::AppConfig;
pub use config::AuthMethod;
pub use config::check_credentials;
pub use config::has_credentials;
pub use conversations::Conversation;
pub use conversations::ConversationMessage;
pub use conversations::ConversationsData;
pub use conversations::create_conversation;
pub use conversations::delete_conversation;
pub use conversations::rename_conversation;
pub use conversations::update_conversation;
pub use credentials::CredentialScanResult;
pub use credentials::cli_db_candidates;
pub use credentials::creds_file_candidates;
pub use credentials::filter_existing;
pub use credentials::scan_candidate_paths;
pub use launch::LaunchSpec;
pub use launch::bool_string;
pub use launch::build_launch_spec;
pub use launch::decimal_string;
pub use launch::development_executable;
pub use launch::executable_file_name;
pub use launch::packaged_executable_path;
pub use logbuf::LOG_CAPACITY;
pub use logbuf::LogBuffer;
pub use server::ExecutableLookup;
pub use server::ManagerView;
pub use server::ProcessHandle;
pub use server::STOP_DEADLINE_MS;
pub use server::STOP_POLL_INTERVAL_MS;
pub use server::ServerManager;
pub use server::ServerStatus;
pub use server::StatusView;
pub use server::SupervisorStep;
pub use server::WaitDirective;
pub use server::WaitEvent;
pub use server::stop_wait_decision;
pub use text::second_line;
pub use text::trimmed;
