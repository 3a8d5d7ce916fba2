//! Starting and stopping the backend.
use vstd::prelude::*;

use crate::commands::error;
use crate::commands::error::{Error, Result};
use crate::json;
use crate::json::{Json, JsonView};
use crate::sidecar::supervisor;
use crate::sidecar::supervisor::SidecarError;
use crate::text;

verus! {

/// Where the backend stands.
#[derive(Debug, PartialEq, Eq)]
pub enum BackendStatus {
    Uninitialized,
    Running { warning: Option<String> },
    Error { message: String },
}

/// The backend as the user interface sees it.
#[derive(Debug, PartialEq, Eq)]
pub struct BackendState {
    pub status: BackendStatus,
    pub exit_started: bool,
}

/// How the attempt to start the backend went.
#[derive(Debug, Clone, Copy, PartialEq, Eq, Structural)]
pub struct InitOutcome {
    pub config_loaded: bool,
    pub core_built: bool,
    pub scheduler_started: bool,
}

/// What a backend warns of that runs.
pub open spec fn init_warning(outcome: InitOutcome) -> Option<Seq<char>> {
    if outcome.config_loaded && outcome.scheduler_started {
        None
    } else if outcome.scheduler_started {
        Some("Configuration could not be loaded; defaults are in use"@)
    } else if outcome.config_loaded {
        Some("Persistent scheduler is unavailable; see the application log"@)
    } else {
        Some(
            "Configuration could not be loaded; defaults are in use"@
                + "; persistent scheduler unavailable"@,
        )
    }
}

/// A backend that nobody has started.
pub fn setup() -> (r: BackendState)
    ensures
        r == (BackendState { status: BackendStatus::Uninitialized, exit_started: false }),
{
    BackendState { status: BackendStatus::Uninitialized, exit_started: false }
}

/// Takes the attempt to start the backend. A backend that runs is left alone. One without its
/// configuration or its scheduler runs with a warning, and one without its engine does not run.
pub fn perform_init_backend(state: &mut BackendState, outcome: InitOutcome)
    ensures
        final(state).exit_started == old(state).exit_started,
        if old(state).status is Running {
            *final(state) == *old(state)
        } else if outcome.core_built {
            final(state).status matches BackendStatus::Running { warning } && text::opt_view(
                warning,
            ) == init_warning(outcome)
        } else {
            final(state).status matches BackendStatus::Error { message } && message@
                == "Backend initialization failed; see the application log"@
        },
{
    if let BackendStatus::Running { .. } = &state.status {
        return ;
    }
    if !outcome.core_built {
        state.status =
        BackendStatus::Error {
            message: "Backend initialization failed; see the application log".to_owned(),
        };
        return ;
    }
    let warning = if outcome.config_loaded && outcome.scheduler_started {
        None
    } else if outcome.scheduler_started {
        Some("Configuration could not be loaded; defaults are in use".to_owned())
    } else if outcome.config_loaded {
        Some("Persistent scheduler is unavailable; see the application log".to_owned())
    } else {
        Some(
            text::join2(
                "Configuration could not be loaded; defaults are in use",
                "; persistent scheduler unavailable",
            ),
        )
    };
    state.status = BackendStatus::Running { warning };
}

impl BackendState {
    /// Takes the wish to exit: whether the shutdown has to begin. It begins once, and not for an exit
    /// that already has its code.
    pub fn request_exit(&mut self, has_code: bool) -> (r: bool)
        ensures
            final(self).status == old(self).status,
            r == (!has_code && !old(self).exit_started),
            final(self).exit_started == (old(self).exit_started || !has_code),
    {
        if has_code || self.exit_started {
            return false;
        }
        self.exit_started = true;
        true
    }

    /// Takes the outcome of the shutdown: whether the application may exit. After a shutdown that left
    /// something behind it goes on, and the wish to exit can be made again.
    pub fn after_shutdown(&mut self, degraded: bool) -> (r: bool)
        ensures
            final(self).status == old(self).status,
            r == !degraded,
            final(self).exit_started == (old(self).exit_started && !degraded),
    {
        if degraded {
            self.exit_started = false;
        }
        !degraded
    }
}

/// What came of greeting the sidecar.
#[derive(Debug)]
pub enum GreetingOutcome {
    NotFound,
    Failed(SidecarError),
    Greeted { ready: Json, capabilities: Json },
}

/// The report on a sidecar that was greeted, or what to do about it.
pub fn sidecar_diagnostics(outcome: GreetingOutcome) -> (r: Result<Json>)
    ensures
        match outcome {
            GreetingOutcome::NotFound => r matches Err(e) && error::shows(
                e,
                "Sidecar not found: set WEIBACK_COLLECTOR_CMD or place weiback-collector(.exe) next to the app"@,
            ),
            GreetingOutcome::Failed(why) => r matches Err(e) && error::shows(
                e,
                "sidecar handshake failed: "@ + supervisor::sidecar_message(why)
                    + " (set WEIBACK_COLLECTOR_CMD to the collector executable)"@,
            ),
            GreetingOutcome::Greeted { ready, capabilities } => r matches Ok(report) && report@
                == JsonView::Object(
                Map::empty().insert("ok"@, JsonView::Bool(true)).insert("ready"@, ready@).insert(
                    "capabilities"@,
                    capabilities@,
                ),
            ),
        },
{
    match outcome {
        GreetingOutcome::NotFound => Err(
            error::stable_sync_error(
                "Sidecar not found: set WEIBACK_COLLECTOR_CMD or place weiback-collector(.exe) next to the app",
            ),
        ),
        GreetingOutcome::Failed(why) => Err(
            Error(
                text::join3(
                    "sidecar handshake failed: ",
                    why.message().as_str(),
                    " (set WEIBACK_COLLECTOR_CMD to the collector executable)",
                ),
            ),
        ),
        GreetingOutcome::Greeted { ready, capabilities } => {
            let mut report = Json::empty_object();
            report.insert("ok", Json::Bool(true));
            report.insert("ready", ready);
            report.insert("capabilities", capabilities);
            Ok(report)
        },
    }
}

} // verus!
