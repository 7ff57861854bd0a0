//! Repository, inline-process and Zellij capabilities for sessions.
use vstd::prelude::*;

verus! {

/// Runs an agent process in the current terminal.
pub trait InlineSessionClient {
    fn run(&self, argv: &Vec<String>, repository: &str) -> Result<(), String>;
}

/// Answers whether a repository directory exists.
pub trait RepositorySessionClient {
    fn is_directory(&self, path: &str) -> bool;
}

/// Opens agent tabs in Zellij sessions.
pub trait ZellijSessionClient {
    fn available(&self) -> bool;

    fn new_tab_process_argv(
        &self,
        session: &str,
        repository: &str,
        tab: &str,
        argv: &Vec<String>,
    ) -> Vec<String>;

    fn open_tab(&self, session: &str, repository: &str, tab: &str, argv: &Vec<String>) -> Result<
        (),
        ZellijTabOpenError,
    >;

    fn ensure_session(&self, session: &str) -> Result<(), String>;
}

/// Why Zellij did not open a tab.
#[derive(Debug, Clone, PartialEq, Eq)]
pub enum ZellijTabOpenError {
    SessionNotFound,
    Rejected(String),
}

} // verus!
