//! What the services do when the interface asks for something.
//!
//! A command becomes a list of actions, in the order in which they are to be
//! carried out. Carrying them out, and telling the backend how it went, is the
//! caller's part.

use crate::clock::unix_time;
use crate::config::{AppConfig, AppConfigView};
use crate::events::{LogEntry, LogLevel, UiCommand};
use crate::identity::{restored, IdentityError, RingIdentity, RingIdentityView};
use vstd::prelude::*;
use vstd::string::*;

verus! {

/// What is logged when the services have started.
pub const MSG_STARTED: &'static str = "Backend started";

/// What is logged where no identity is stored.
pub const MSG_NO_IDENTITY: &'static str = "No identity found: create a ring or join one";

/// What is logged where the stored identity cannot be read.
pub const MSG_IDENTITY_CORRUPT: &'static str =
    "Stored identity cannot be read: enter the secret phrase of the ring again";

/// What is logged when the monitor is paused.
pub const MSG_PAUSED: &'static str = "Synchronisation paused";

/// What is logged when the monitor is resumed.
pub const MSG_RESUMED: &'static str = "Synchronisation active";

/// What is logged when the configuration was written.
pub const MSG_CONFIG_SAVED: &'static str = "Configuration saved";

/// What is logged when a new identity was asked for.
pub const MSG_NEW_IDENTITY: &'static str = "New identity created: restart to use it";

/// What is logged when a phrase restored an identity.
pub const MSG_JOINED: &'static str = "Ring joined: restart to use it";

/// What is logged when a phrase restored none.
pub const MSG_JOIN_FAILED: &'static str = "Ring not joined: the secret phrase is not valid";

/// One thing for the caller to do.
#[derive(Debug)]
pub enum BackendAction {
    /// Pause or resume the monitor.
    SetPaused(bool),
    /// Report whether the services are running.
    StateChanged { running: bool },
    /// Report a line of the log.
    Log(LogEntry),
    /// Write the configuration to its file, then say how it went.
    SaveConfig(AppConfig),
    /// Stop discovery and synchronisation, empty the directory, and start both
    /// again with the configuration as it now is.
    RestartServices,
    /// Make a new identity and store it.
    CreateIdentity,
    /// Store this identity.
    StoreIdentity(RingIdentity),
    /// Report the identity that the services run under.
    IdentityLoaded(RingIdentity),
    /// Give the start up: nothing is started, and what is stored stays as it
    /// is.
    Abort,
    /// Leave.
    Exit,
}

/// An action as plain values. The time of a log line is left out: it is the
/// time at which the line was made.
pub enum ActionView {
    SetPaused(bool),
    StateChanged { running: bool },
    Log { level: LogLevel, message: Seq<char> },
    SaveConfig(AppConfigView),
    RestartServices,
    CreateIdentity,
    StoreIdentity(RingIdentityView),
    IdentityLoaded(RingIdentityView),
    Abort,
    Exit,
}

impl View for BackendAction {
    type V = ActionView;

    open spec fn view(&self) -> ActionView {
        match self {
            BackendAction::SetPaused(paused) => ActionView::SetPaused(*paused),
            BackendAction::StateChanged { running } => ActionView::StateChanged {
                running: *running,
            },
            BackendAction::Log(entry) => ActionView::Log {
                level: entry.level,
                message: entry.message@,
            },
            BackendAction::SaveConfig(config) => ActionView::SaveConfig(config@),
            BackendAction::RestartServices => ActionView::RestartServices,
            BackendAction::CreateIdentity => ActionView::CreateIdentity,
            BackendAction::StoreIdentity(identity) => ActionView::StoreIdentity(identity@),
            BackendAction::IdentityLoaded(identity) => ActionView::IdentityLoaded(identity@),
            BackendAction::Abort => ActionView::Abort,
            BackendAction::Exit => ActionView::Exit,
        }
    }
}

/// A command as plain values.
pub enum CommandView {
    SetPaused(bool),
    UpdateConfig(AppConfigView),
    JoinRing(Seq<char>),
    GenerateNewIdentity,
    Quit,
}

/// The plain values of a command.
pub open spec fn command_view(command: UiCommand) -> CommandView {
    match command {
        UiCommand::SetPaused(paused) => CommandView::SetPaused(paused),
        UiCommand::UpdateConfig(config) => CommandView::UpdateConfig(config@),
        UiCommand::JoinRing(phrase) => CommandView::JoinRing(phrase@),
        UiCommand::GenerateNewIdentity => CommandView::GenerateNewIdentity,
        UiCommand::Quit => CommandView::Quit,
    }
}

/// The plain values of a list of actions.
pub open spec fn actions_view(actions: Seq<BackendAction>) -> Seq<ActionView> {
    Seq::new(actions.len(), |i: int| actions[i]@)
}

/// A line of the log, as an action.
pub open spec fn log_line(level: LogLevel, message: &str) -> ActionView {
    ActionView::Log { level: level, message: message@ }
}

/// What a command asks for, under the configuration `current`.
///
/// A pause is passed on and reported. A new configuration is saved, and where
/// it renames the device the services are restarted. A phrase that restores an
/// identity has that identity stored; one that does not is reported. A request
/// for a new identity is passed on and reported.
pub open spec fn commanded(current: AppConfigView, command: CommandView) -> Seq<ActionView> {
    match command {
        CommandView::SetPaused(paused) => seq![
            ActionView::SetPaused(paused),
            ActionView::StateChanged { running: !paused },
            log_line(
                LogLevel::Info,
                if paused {
                    MSG_PAUSED
                } else {
                    MSG_RESUMED
                },
            ),
        ],
        CommandView::UpdateConfig(next) => if next.device_name != current.device_name {
            seq![ActionView::SaveConfig(next), ActionView::RestartServices]
        } else {
            seq![ActionView::SaveConfig(next)]
        },
        CommandView::JoinRing(phrase) => match restored(phrase) {
            Ok(identity) => seq![
                ActionView::StoreIdentity(identity),
                log_line(LogLevel::Success, MSG_JOINED),
            ],
            Err(e) => seq![log_line(LogLevel::Error, MSG_JOIN_FAILED)],
        },
        CommandView::GenerateNewIdentity => seq![
            ActionView::CreateIdentity,
            log_line(LogLevel::Success, MSG_NEW_IDENTITY),
        ],
        CommandView::Quit => seq![ActionView::Exit],
    }
}

/// The configuration after a command: the new one where the command brings
/// one, else the old.
pub open spec fn configured(current: AppConfigView, command: CommandView) -> AppConfigView {
    match command {
        CommandView::UpdateConfig(next) => next,
        _ => current,
    }
}

/// What is done at the start with the stored identity: `None` where none is
/// stored, else the identity or why it was not read.
///
/// An identity that was read is reported. Where none is stored, the lack is
/// reported and a new identity is made. One that is stored and cannot be read
/// stops the start: it is reported, no identity is made in its place, and
/// nothing is written over it.
pub open spec fn at_load(outcome: Option<Result<RingIdentityView, IdentityError>>) -> Seq<
    ActionView,
> {
    match outcome {
        Some(Ok(identity)) => seq![ActionView::IdentityLoaded(identity)],
        Some(Err(e)) => seq![log_line(LogLevel::Error, MSG_IDENTITY_CORRUPT), ActionView::Abort],
        None => seq![log_line(LogLevel::Warn, MSG_NO_IDENTITY), ActionView::CreateIdentity],
    }
}

/// The outcome of reading the stored identity, as plain values.
pub open spec fn outcome_view(outcome: Option<Result<RingIdentity, IdentityError>>) -> Option<
    Result<RingIdentityView, IdentityError>,
> {
    match outcome {
        Some(Ok(identity)) => Some(Ok(identity@)),
        Some(Err(e)) => Some(Err(e)),
        None => None,
    }
}

/// A line of the log, stamped with the time of day that the clock shows.
fn log_action(level: LogLevel, message: &str) -> (r: BackendAction)
    ensures
        r@ == log_line(level, message),
{
    BackendAction::Log(LogEntry::timed(unix_time(), level, message))
}

/// The part of the services that answers the interface.
pub struct Backend {
    config: AppConfig,
}

impl View for Backend {
    type V = AppConfigView;

    closed spec fn view(&self) -> AppConfigView {
        self.config@
    }
}

impl Backend {
    /// A backend that starts from this configuration.
    pub fn new(config: AppConfig) -> (r: Self)
        ensures
            r@ == config@,
    {
        Backend { config }
    }

    /// The configuration as it now is.
    pub fn config(&self) -> (r: AppConfig)
        ensures
            r@ == self@,
    {
        self.config.clone()
    }

    /// What is reported when the services have started.
    pub fn on_started(&self) -> (r: BackendAction)
        ensures
            r@ == log_line(LogLevel::Success, MSG_STARTED),
    {
        log_action(LogLevel::Success, MSG_STARTED)
    }

    /// What is done at the start, once the stored identity was looked for.
    pub fn on_identity_load(&self, outcome: Option<Result<RingIdentity, IdentityError>>) -> (r: Vec<
        BackendAction,
    >)
        ensures
            actions_view(r@) == at_load(outcome_view(outcome)),
    {
        let mut out: Vec<BackendAction> = Vec::new();
        match outcome {
            Some(Ok(identity)) => {
                out.push(BackendAction::IdentityLoaded(identity));
            },
            Some(Err(e)) => {
                out.push(log_action(LogLevel::Error, MSG_IDENTITY_CORRUPT));
                out.push(BackendAction::Abort);
            },
            None => {
                out.push(log_action(LogLevel::Warn, MSG_NO_IDENTITY));
                out.push(BackendAction::CreateIdentity);
            },
        }
        out
    }

    /// What is reported once the configuration was written: a line where it
    /// went well, nothing where it did not.
    pub fn on_config_saved(&self, ok: bool) -> (r: Option<BackendAction>)
        ensures
            ok ==> (r matches Some(action) && action@ == log_line(LogLevel::Info, MSG_CONFIG_SAVED)),
            !ok ==> r is None,
    {
        if ok {
            Some(log_action(LogLevel::Info, MSG_CONFIG_SAVED))
        } else {
            None
        }
    }

    /// Takes a command from the interface.
    pub fn on_command(&mut self, command: UiCommand) -> (r: Vec<BackendAction>)
        ensures
            actions_view(r@) == commanded(old(self)@, command_view(command)),
            final(self)@ == configured(old(self)@, command_view(command)),
    {
        let mut out: Vec<BackendAction> = Vec::new();
        match command {
            UiCommand::SetPaused(paused) => {
                out.push(BackendAction::SetPaused(paused));
                out.push(BackendAction::StateChanged { running: !paused });
                if paused {
                    out.push(log_action(LogLevel::Info, MSG_PAUSED));
                } else {
                    out.push(log_action(LogLevel::Info, MSG_RESUMED));
                }
            },
            UiCommand::UpdateConfig(next) => {
                let restart = self.config.restart_needed(&next);
                out.push(BackendAction::SaveConfig(next.clone()));
                if restart {
                    out.push(BackendAction::RestartServices);
                }
                self.config = next;
            },
            UiCommand::JoinRing(phrase) => {
                match RingIdentity::from_mnemonic(phrase.as_str()) {
                    Ok(identity) => {
                        out.push(BackendAction::StoreIdentity(identity));
                        out.push(log_action(LogLevel::Success, MSG_JOINED));
                    },
                    Err(e) => {
                        out.push(log_action(LogLevel::Error, MSG_JOIN_FAILED));
                    },
                }
            },
            UiCommand::GenerateNewIdentity => {
                out.push(BackendAction::CreateIdentity);
                out.push(log_action(LogLevel::Success, MSG_NEW_IDENTITY));
            },
            UiCommand::Quit => {
                out.push(BackendAction::Exit);
            },
        }
        out
    }
}

} // verus!
