use vstd::prelude::*;
use crate::events::Key;

verus! {

/// Which action a confirmation dialog guards.
#[derive(Debug, Clone, Copy, PartialEq, Eq, Structural)]
pub enum ModalKind {
    DeleteVolume,
    ForceDeleteVolume,
}

#[derive(Debug, PartialEq, Eq)]
pub enum ModalState {
    Open(String),
    Closed,
}

/// The removal of a volume by name, forced or not, that a dialog runs once confirmed.
#[derive(Debug, PartialEq, Eq)]
pub struct DeleteVolume {
    pub name: String,
    pub force: bool,
}

impl DeleteVolume {
    pub fn new(name: String, force: bool) -> (r: Self)
        ensures
            r == (DeleteVolume { name, force }),
    {
        DeleteVolume { name, force }
    }

    /// An equal copy of this action.
    pub fn duplicate(&self) -> (r: Self)
        ensures
            r == *self,
    {
        DeleteVolume { name: self.name.clone(), force: self.force }
    }
}

/// What a key press did to an open dialog.
#[derive(Debug, Clone, Copy, PartialEq, Eq, Structural)]
pub enum ModalEvent {
    /// The dialog took the key and nothing changed.
    Ignored,
    /// The dialog closed without running its action.
    Cancelled,
    /// The user confirmed: the action is to be run, and the dialog waits for its outcome.
    Confirmed,
}

/// How a confirmed action ended, as the dialog that guarded it sees it.
#[derive(Debug, Clone, Copy, PartialEq, Eq, Structural)]
pub enum ActionOutcome {
    Success,
    Failure,
    /// A failure that earns a second, forced attempt.
    FailureEscalatable,
}

pub open spec fn is_confirm_key(k: Key) -> bool {
    k == Key::Enter || k == Key::Char('y')
}

pub open spec fn is_cancel_key(k: Key) -> bool {
    k == Key::Esc || k == Key::Char('n')
}

/// A yes/no dialog over an optional action.
#[derive(Debug)]
pub struct BooleanModal {
    pub title: String,
    pub discriminator: ModalKind,
    pub state: ModalState,
    pub action: Option<DeleteVolume>,
}

/// The outcome of the guarded action: only a failed plain deletion may be escalated.
pub open spec fn outcome_of(kind: ModalKind, succeeded: bool) -> ActionOutcome {
    if succeeded {
        ActionOutcome::Success
    } else if kind == ModalKind::DeleteVolume {
        ActionOutcome::FailureEscalatable
    } else {
        ActionOutcome::Failure
    }
}

impl BooleanModal {
    /// A closed dialog with no action.
    pub fn new(title: String, discriminator: ModalKind) -> (r: Self)
        ensures
            r.title == title,
            r.discriminator == discriminator,
            r.state == ModalState::Closed,
            r.action is None,
    {
        BooleanModal { title, discriminator, state: ModalState::Closed, action: None }
    }

    /// Opens the dialog with `message`, guarding `action`.
    pub fn initialise(&mut self, message: String, action: Option<DeleteVolume>)
        ensures
            final(self).title == old(self).title,
            final(self).discriminator == old(self).discriminator,
            final(self).state == ModalState::Open(message),
            final(self).action == action,
    {
        self.state = ModalState::Open(message);
        self.action = action;
    }

    pub fn is_open(&self) -> (r: bool)
        ensures
            r == (self.state is Open),
    {
        match self.state {
            ModalState::Open(_) => true,
            ModalState::Closed => false,
        }
    }

    /// Offers a key to the dialog. A confirming key reports the confirmation and leaves the
    /// dialog open until the outcome is known; a cancelling key closes it; an open dialog
    /// takes every other key without effect.
    pub fn update(&mut self, key: Key) -> (r: ModalEvent)
        ensures
            final(self).title == old(self).title,
            final(self).discriminator == old(self).discriminator,
            final(self).action == old(self).action,
            old(self).state is Open && is_confirm_key(key) ==> r == ModalEvent::Confirmed
                && final(self).state == old(self).state,
            old(self).state is Open && is_cancel_key(key) ==> r == ModalEvent::Cancelled
                && final(self).state == ModalState::Closed,
            !(old(self).state is Open && (is_confirm_key(key) || is_cancel_key(key))) ==> r
                == ModalEvent::Ignored && final(self).state == old(self).state,
    {
        if !self.is_open() {
            return ModalEvent::Ignored;
        }
        match key {
            Key::Enter | Key::Char('y') => ModalEvent::Confirmed,
            Key::Esc | Key::Char('n') => {
                self.state = ModalState::Closed;
                ModalEvent::Cancelled
            },
            _ => ModalEvent::Ignored,
        }
    }

    /// Classifies how the guarded action ended.
    pub fn outcome(&self, succeeded: bool) -> (r: ActionOutcome)
        ensures
            r == outcome_of(self.discriminator, succeeded),
    {
        if succeeded {
            ActionOutcome::Success
        } else {
            match self.discriminator {
                ModalKind::DeleteVolume => ActionOutcome::FailureEscalatable,
                ModalKind::ForceDeleteVolume => ActionOutcome::Failure,
            }
        }
    }
}

} // verus!
