//! Dispatches one confirmed pending-work session inline or into a Zellij tab.
use vstd::prelude::*;

use crate::pending_work::session::host::{
    InlineSessionClient, ZellijSessionClient, ZellijTabOpenError,
};
use crate::pending_work::session::model::{Agent, DispatchMode, DispatchTarget, SessionPlan};

verus! {

/// What a dispatch did.
#[derive(Debug, Clone, PartialEq, Eq)]
pub enum DispatchSessionOk {
    Inline { task_id: String },
    TabOpened { target: DispatchTarget, agent: Agent, repository: String },
    MultiplexerStartedAndTabOpened { target: DispatchTarget, agent: Agent, repository: String },
}

/// Why a dispatch failed; `E` is the failure of a write or of a provider's preparation.
#[derive(Debug)]
pub enum DispatchSessionError<E> {
    Update(E),
    InlineFailed { message: String },
    SessionEnsureFailed { session: String, message: String },
    TabOpen { session: String, tab: String, message: String },
    CodexPreparation { source: E },
    CodexBackend { thread_id: String, message: String },
}

fn copy_target(target: &DispatchTarget) -> (r: DispatchTarget)
    ensures
        r == *target,
{
    DispatchTarget { session: target.session.clone(), window: target.window.clone() }
}

/// A tab that could not be opened, named by the plan's session and window.
pub fn tab_open_error<E>(plan: &SessionPlan, message: String) -> (r: DispatchSessionError<E>)
    ensures
        r matches DispatchSessionError::TabOpen { session, tab, message: m } && session
            == plan.target.session && tab == plan.target.window && m == message,
{
    DispatchSessionError::TabOpen {
        session: plan.target.session.clone(),
        tab: plan.target.window.clone(),
        message,
    }
}

/// Opens the plan's tab with `argv`.
fn open_tab<Z: ZellijSessionClient>(argv: &Vec<String>, plan: &SessionPlan, zellij: &Z) -> (r: Result<
    (),
    ZellijTabOpenError,
>) {
    zellij.open_tab(
        plan.target.session.as_str(),
        plan.launch.repository.as_str(),
        plan.target.window.as_str(),
        argv,
    )
}

/// What a multiplexer dispatch reports: the plan's target, agent and repository when a tab
/// opened, the plan's session when it could not be started, its session and window when the
/// tab was refused.
pub open spec fn multiplexer_outcome<E>(plan: SessionPlan, r: Result<DispatchSessionOk, DispatchSessionError<E>>) -> bool {
    &&& r matches Ok(DispatchSessionOk::TabOpened { target, agent, repository }) ==> target
        == plan.target && agent == plan.launch.agent && repository == plan.launch.repository
    &&& r matches Ok(DispatchSessionOk::MultiplexerStartedAndTabOpened { target, agent, repository })
        ==> target == plan.target && agent == plan.launch.agent && repository
        == plan.launch.repository
    &&& r matches Ok(o) ==> !(o is Inline)
    &&& r matches Err(DispatchSessionError::SessionEnsureFailed { session, message: _ })
        ==> session == plan.target.session
    &&& r matches Err(DispatchSessionError::TabOpen { session, tab, message: _ }) ==> session
        == plan.target.session && tab == plan.target.window
    &&& r matches Err(e) ==> (e is SessionEnsureFailed || e is TabOpen)
}

/// What a multiplexer dispatch does after Zellij's first answer: it is finished, or it has to
/// start the plan's session and try again.
pub enum TabStep<E> {
    Finished(Result<DispatchSessionOk, DispatchSessionError<E>>),
    StartSession,
}

/// Zellij's first answer decided: an opened tab reports the plan's target, agent and
/// repository; a refusal is a `TabOpen` failure with Zellij's message; a missing session
/// calls for starting it.
pub fn after_first_open<E>(plan: &SessionPlan, answer: Result<(), ZellijTabOpenError>) -> (r: TabStep<E>)
    ensures
        match answer {
            Ok(()) => r matches TabStep::Finished(Ok(DispatchSessionOk::TabOpened { target, agent, repository }))
                && target == plan.target && agent == plan.launch.agent && repository
                == plan.launch.repository,
            Err(ZellijTabOpenError::Rejected(m)) => r matches TabStep::Finished(
                Err(DispatchSessionError::TabOpen { session, tab, message }),
            ) && session == plan.target.session && tab == plan.target.window && message == m,
            Err(ZellijTabOpenError::SessionNotFound) => r is StartSession,
        },
{
    match answer {
        Ok(()) => TabStep::Finished(
            Ok(
                DispatchSessionOk::TabOpened {
                    target: copy_target(&plan.target),
                    agent: plan.launch.agent,
                    repository: plan.launch.repository.clone(),
                },
            ),
        ),
        Err(ZellijTabOpenError::Rejected(message)) => TabStep::Finished(
            Err(tab_open_error(plan, message)),
        ),
        Err(ZellijTabOpenError::SessionNotFound) => TabStep::StartSession,
    }
}

/// Zellij's answer after the session was started decided: an opened tab reports that the
/// multiplexer was started; a refusal keeps Zellij's message, and a session still missing is
/// reported as `session not found`.
pub fn after_retry<E>(plan: &SessionPlan, answer: Result<(), ZellijTabOpenError>) -> (r: Result<
    DispatchSessionOk,
    DispatchSessionError<E>,
>)
    ensures
        match answer {
            Ok(()) => r matches Ok(DispatchSessionOk::MultiplexerStartedAndTabOpened { target, agent, repository })
                && target == plan.target && agent == plan.launch.agent && repository
                == plan.launch.repository,
            Err(ZellijTabOpenError::Rejected(m)) => r matches Err(
                DispatchSessionError::TabOpen { session, tab, message },
            ) && session == plan.target.session && tab == plan.target.window && message == m,
            Err(ZellijTabOpenError::SessionNotFound) => r matches Err(
                DispatchSessionError::TabOpen { session, tab, message },
            ) && session == plan.target.session && tab == plan.target.window && message@
                == "session not found"@,
        },
{
    match answer {
        Ok(()) => Ok(
            DispatchSessionOk::MultiplexerStartedAndTabOpened {
                target: copy_target(&plan.target),
                agent: plan.launch.agent,
                repository: plan.launch.repository.clone(),
            },
        ),
        Err(ZellijTabOpenError::SessionNotFound) => {
            let m = "session not found".to_owned();
            proof {
                reveal_strlit("session not found");
            }
            Err(tab_open_error(plan, m))
        },
        Err(ZellijTabOpenError::Rejected(message)) => Err(tab_open_error(plan, message)),
    }
}

/// Opens the plan's tab; when its session does not exist yet, starts the session and tries
/// once more.
pub fn dispatch_multiplexer<E, Z: ZellijSessionClient>(argv: &Vec<String>, plan: &SessionPlan, zellij: &Z) -> (r: Result<
    DispatchSessionOk,
    DispatchSessionError<E>,
>)
    ensures
        multiplexer_outcome(*plan, r),
{
    match after_first_open(plan, open_tab(argv, plan, zellij)) {
        TabStep::Finished(outcome) => outcome,
        TabStep::StartSession => {
            match zellij.ensure_session(plan.target.session.as_str()) {
                Ok(()) => {},
                Err(message) => {
                    return Err(
                        DispatchSessionError::SessionEnsureFailed {
                            session: plan.target.session.clone(),
                            message,
                        },
                    );
                },
            }
            after_retry(plan, open_tab(argv, plan, zellij))
        },
    }
}

/// Runs the prepared `argv` where the plan's mode says: inline in the repository, or in a
/// multiplexer tab.
pub fn dispatch_host<E, I: InlineSessionClient, Z: ZellijSessionClient>(
    argv: &Vec<String>,
    plan: &SessionPlan,
    inline: &I,
    zellij: &Z,
) -> (r: Result<DispatchSessionOk, DispatchSessionError<E>>)
    ensures
        plan.mode == DispatchMode::Inline ==> ((r matches Ok(o) ==> (o matches DispatchSessionOk::Inline { task_id }
            && task_id == plan.launch.task_id)) && (r matches Err(e) ==> e is InlineFailed)),
        plan.mode == DispatchMode::Multiplexer ==> multiplexer_outcome(*plan, r),
{
    match plan.mode {
        DispatchMode::Inline => {
            match inline.run(argv, plan.launch.repository.as_str()) {
                Ok(()) => Ok(DispatchSessionOk::Inline { task_id: plan.launch.task_id.clone() }),
                Err(message) => Err(DispatchSessionError::InlineFailed { message }),
            }
        },
        DispatchMode::Multiplexer => dispatch_multiplexer(argv, plan, zellij),
    }
}

} // verus!
