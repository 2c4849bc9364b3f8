//! What the window shows and allows in each state of the control center.
use crate::config;
use crate::config::ConfigProblem;
use crate::control::ControlCenter;
use crate::model::TransactionKind;
use crate::process::ServiceAction;
use crate::text;
use vstd::prelude::*;
use vstd::string::*;

verus! {

/// What stands below the save controls.
#[derive(Clone, Copy, Debug, PartialEq, Eq, Structural)]
pub enum SaveNotice {
    /// The form cannot be saved.
    Problem(ConfigProblem),
    /// No file is chosen.
    NoTarget,
    /// Saving writes a file that the service does not load.
    CustomFile,
    /// Saving writes the file of the service.
    ServiceFile,
}

/// The save controls.
#[derive(Clone, Copy, Debug, PartialEq, Eq, Structural)]
pub struct SaveBar {
    pub unsaved: bool,
    pub busy: bool,
    pub can_reload: bool,
    pub can_save: bool,
    pub can_restart: bool,
    pub notice: SaveNotice,
}

/// What must be confirmed before unsaved edits are lost.
#[derive(Clone, Copy, Debug, PartialEq, Eq, Structural)]
pub enum Confirmation {
    Close,
    Reload,
}

/// What the service card says of the service.
#[derive(Clone, Copy, Debug, PartialEq, Eq, Structural)]
pub enum ServiceNote {
    Unavailable,
    Stopped,
    Failed,
    Running,
    Checking,
}

/// The service card.
#[derive(Clone, Copy, Debug, PartialEq, Eq, Structural)]
pub struct ServiceCard {
    pub busy: bool,
    pub warning: bool,
    pub note: ServiceNote,
    /// The action of the main button.
    pub primary: ServiceAction,
}

/// What the capture page says of the form.
#[derive(Clone, Copy, Debug, PartialEq, Eq, Structural)]
pub enum CaptureNotice {
    Nothing,
    /// The daemon uses its own file, not the one of the form.
    CustomFile,
    /// A direct capture reads the saved file, not the edits.
    UnsavedDirect,
    /// The daemon uses the saved file, not the edits.
    UnsavedDaemon,
}

/// What a state of the service reads as.
pub open spec fn note_of(status: Seq<char>) -> ServiceNote {
    if status == "Unavailable"@ {
        ServiceNote::Unavailable
    } else if status == "Stopped"@ {
        ServiceNote::Stopped
    } else if status == "Failed"@ {
        ServiceNote::Failed
    } else if status == "Running"@ {
        ServiceNote::Running
    } else {
        ServiceNote::Checking
    }
}

fn service_note(status: &str) -> (note: ServiceNote)
    ensures
        note == note_of(status@),
{
    if text::same_text(status, "Unavailable") {
        ServiceNote::Unavailable
    } else if text::same_text(status, "Stopped") {
        ServiceNote::Stopped
    } else if text::same_text(status, "Failed") {
        ServiceNote::Failed
    } else if text::same_text(status, "Running") {
        ServiceNote::Running
    } else {
        ServiceNote::Checking
    }
}

/// What happens to edits that are discarded.
#[derive(Clone, Copy, Debug, PartialEq, Eq, Structural)]
pub enum Discard {
    /// The window closes.
    Close,
    /// The configuration is loaded again.
    Reload,
}

impl ControlCenter {
    /// The save controls of a state.
    pub open spec fn save_controls(self) -> SaveBar {
        let busy = self.config_task is Some;
        let valid = self.model.config@.valid() && self.model.config_path@.len() > 0;
        let custom = self.model.explicit(self.model.config_path@);
        SaveBar {
            unsaved: self.model.dirty,
            busy,
            can_reload: !busy,
            can_save: !busy && valid,
            can_restart: !busy && valid && !custom,
            notice: match self.model.config@.first_problem() {
                Some(problem) => SaveNotice::Problem(problem),
                None => if !valid {
                    SaveNotice::NoTarget
                } else if custom {
                    SaveNotice::CustomFile
                } else {
                    SaveNotice::ServiceFile
                },
            },
        }
    }

    /// The save controls.
    pub fn save_bar(&self) -> (bar: SaveBar)
        requires
            self.well_formed(),
        ensures
            bar == self.save_controls(),
    {
        let problem = self.model.validate_form();
        proof {
            config::valid_means_nothing_to_report(self.model.config@);
        }
        let busy = self.config_task.is_some();
        let valid = problem.is_ok() && !self.model.config_path.as_str().is_empty();
        let custom = self.model.is_explicit_path();
        SaveBar {
            unsaved: self.model.dirty,
            busy,
            can_reload: !busy,
            can_save: !busy && valid,
            can_restart: !busy && valid && !custom,
            notice: match problem {
                Err(problem) => SaveNotice::Problem(problem),
                Ok(()) => if !valid {
                    SaveNotice::NoTarget
                } else if custom {
                    SaveNotice::CustomFile
                } else {
                    SaveNotice::ServiceFile
                },
            },
        }
    }

    /// Whether the shortcut saves the form.
    pub fn shortcut_saves(&self) -> (r: bool)
        ensures
            r == (!self.close_confirmation && !self.reload_confirmation && self.model.dirty
                && self.config_task is None),
    {
        !self.close_confirmation && !self.reload_confirmation && self.model.dirty
            && self.config_task.is_none()
    }

    /// Asks to close the window, and tells whether it stays open: unsaved edits are not lost
    /// without a confirmation.
    pub fn request_close(&mut self) -> (stays: bool)
        requires
            old(self).well_formed(),
        ensures
            final(self).well_formed(),
            stays == (old(self).model.dirty && !old(self).close_approved),
            *final(self) == (ControlCenter {
                close_confirmation: old(self).close_confirmation || stays,
                ..*old(self)
            }),
    {
        if self.model.dirty && !self.close_approved {
            self.close_confirmation = true;
            return true;
        }
        false
    }

    /// What is to be confirmed.
    pub fn confirmation(&self) -> (confirmation: Option<Confirmation>)
        ensures
            confirmation == (if self.close_confirmation {
                Some(Confirmation::Close)
            } else if self.reload_confirmation {
                Some(Confirmation::Reload)
            } else {
                None
            }),
    {
        if self.close_confirmation {
            Some(Confirmation::Close)
        } else if self.reload_confirmation {
            Some(Confirmation::Reload)
        } else {
            None
        }
    }

    /// Keeps the edits.
    pub fn keep_editing(&mut self)
        requires
            old(self).well_formed(),
        ensures
            final(self).well_formed(),
            *final(self) == (ControlCenter {
                close_confirmation: false,
                reload_confirmation: false,
                ..*old(self)
            }),
    {
        self.close_confirmation = false;
        self.reload_confirmation = false;
    }

    /// Discards the edits: the window closes, or the configuration is loaded again.
    pub fn discard_changes(&mut self) -> (discard: Discard)
        requires
            old(self).well_formed(),
        ensures
            final(self).well_formed(),
            ({
                let kept = ControlCenter {
                    close_confirmation: false,
                    reload_confirmation: false,
                    ..*old(self)
                };
                if old(self).close_confirmation {
                    &&& discard is Close
                    &&& *final(self) == (ControlCenter { close_approved: true, ..kept })
                } else {
                    &&& discard is Reload
                    &&& if old(self).config_task is Some || old(self).model.transaction is Some {
                        *final(self) == kept
                    } else {
                        &&& final(self).began(kept, TransactionKind::Load, Seq::empty(), false)
                        &&& final(self).status@ == "Loading effective configuration"@
                    }
                }
            }),
    {
        let closing = self.close_confirmation;
        self.keep_editing();
        if closing {
            self.close_approved = true;
            Discard::Close
        } else {
            self.begin_load();
            Discard::Reload
        }
    }

    /// The service card.
    pub fn service_card(&self) -> (card: ServiceCard)
        ensures
            card.busy == self.service_task is Some,
            card.note == note_of(self.service_status@),
            card.warning
                == (card.note is Unavailable || card.note is Failed || card.note is Stopped),
            card.primary == (if card.note is Running {
                ServiceAction::Restart
            } else {
                ServiceAction::Start
            }),
    {
        let note = service_note(self.service_status.as_str());
        ServiceCard {
            busy: self.service_task.is_some(),
            warning: note == ServiceNote::Unavailable || note == ServiceNote::Failed || note
                == ServiceNote::Stopped,
            note,
            primary: if note == ServiceNote::Running {
                ServiceAction::Restart
            } else {
                ServiceAction::Start
            },
        }
    }

    /// What the capture page says of the form.
    pub fn capture_notice(&self) -> (notice: CaptureNotice)
        ensures
            notice == (if !self.direct_capture && self.model.explicit(self.model.config_path@) {
                CaptureNotice::CustomFile
            } else if !self.model.dirty {
                CaptureNotice::Nothing
            } else if self.direct_capture {
                CaptureNotice::UnsavedDirect
            } else {
                CaptureNotice::UnsavedDaemon
            }),
    {
        if !self.direct_capture && self.model.is_explicit_path() {
            CaptureNotice::CustomFile
        } else if !self.model.dirty {
            CaptureNotice::Nothing
        } else if self.direct_capture {
            CaptureNotice::UnsavedDirect
        } else {
            CaptureNotice::UnsavedDaemon
        }
    }

    /// Whether a capture can be stopped: whenever one is under way and was not stopped yet.
    pub fn can_stop_capture(&self) -> (r: bool)
        ensures
            r == (self.validation_task matches Some(task) && !task.cancel_requested),
    {
        match &self.validation_task {
            Some(task) => !task.cancel_requested,
            None => false,
        }
    }

    /// Whether the status strip shows that something is under way.
    pub fn is_occupied(&self) -> (r: bool)
        ensures
            r == (self.config_task is Some || self.command_task is Some
                || self.validation_task is Some),
    {
        self.config_task.is_some() || self.command_task.is_some() || self.validation_task.is_some()
    }
}

/// The service is never restarted for a file that it does not load.
pub proof fn custom_files_never_restart_the_service(
    before: ControlCenter,
    after: ControlCenter,
    transaction: crate::model::Transaction,
    restart: bool,
    blocks: Seq<Seq<char>>,
    completion: crate::model::Completion,
)
    requires
        before.model.explicit(transaction.target@),
        after.completed(before, transaction, restart, blocks, completion),
    ensures
        after.service_task == before.service_task,
        after.pending_service_actions == before.pending_service_actions,
{
}

/// The button that saves and restarts is never offered for a file that the service does not load.
pub proof fn custom_files_offer_no_restart(center: ControlCenter)
    requires
        center.model.explicit(center.model.config_path@),
    ensures
        !center.save_controls().can_restart,
{
}

/// What can be saved is saved: where the button is offered, the operation is not refused for the
/// form or the target.
pub proof fn offered_saves_are_accepted(center: ControlCenter)
    ensures
        center.save_controls().can_save <==> center.config_task is None
            && center.model.config@.valid() && center.model.config_path@.len() > 0,
{
}

/// A capture that was stopped changes no setting, and releases what it held.
pub proof fn stopped_captures_change_nothing(
    before: ControlCenter,
    after: ControlCenter,
    task: crate::validation::ValidationTask,
    blocks: Seq<Seq<char>>,
    result: Result<crate::validation::CaptureResult, Seq<char>>,
)
    requires
        task.cancel_requested,
        after.captured(before, task, blocks, result),
    ensures
        after.model.config == before.model.config,
        after.model.dirty == before.model.dirty,
        after.model.revision == before.model.revision,
        task.calibration matches Some(ownership) ==> after.model.calibration != Some(
            ownership.transaction.id,
        ),
{
}

/// A calibration whose form, target or device changed meanwhile changes no setting.
pub proof fn outdated_calibrations_change_nothing(
    before: ControlCenter,
    after: ControlCenter,
    blocks: Seq<Seq<char>>,
    ownership: crate::validation::CalibrationOwnership,
    result: Result<crate::validation::CalibrationResult, Seq<char>>,
)
    requires
        after.calibrated(before, blocks, ownership, result),
        ownership.transaction.revision != before.model.revision || ownership.transaction.target@
            != before.model.config_path@ || ownership.device@ != before.device(),
    ensures
        after.model.config == before.model.config,
        after.model.dirty == before.model.dirty,
{
}

/// A restart that had to wait runs when the action before it ends, whatever that action was and
/// however it ended.
pub proof fn queued_restarts_run_next(
    center: ControlCenter,
    action: ServiceAction,
    end: crate::process::End,
)
    requires
        center.pending_service_actions.pending == Some(ServiceAction::Restart),
    ensures
        center.next_service_action(action, end) == Some(ServiceAction::Restart),
{
}

/// The state of the service comes from a query: a change that succeeded does not set it, and is
/// followed by the query unless another action waits.
pub proof fn the_service_state_comes_from_a_query(
    center: ControlCenter,
    action: ServiceAction,
    end: crate::process::End,
)
    requires
        action !is IsActive,
        end.success,
    ensures
        center.service_status_after(action, end) == center.service_status@,
        center.next_service_action(action, end) == (match center.pending_service_actions.pending {
            Some(next) => Some(next),
            None => Some(ServiceAction::IsActive),
        }),
{
}

} // verus!
