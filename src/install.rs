//! The single-use install prompt: offered by the platform, shown once, and
//! resolved once with the user's choice.
use vstd::prelude::*;

verus! {

#[derive(Clone, Copy, PartialEq, Eq, Structural, Debug)]
pub enum InstallState {
    /// The platform has not offered an install.
    Unavailable,
    /// An install was offered and can be shown.
    Available,
    /// The consent dialog is on screen.
    Prompting,
    /// The user accepted.
    Accepted,
    /// The user dismissed the dialog.
    Dismissed,
}

#[derive(Clone, Copy, Debug)]
pub struct InstallPrompt {
    pub state: InstallState,
}

impl InstallPrompt {
    pub fn new() -> (r: InstallPrompt)
        ensures
            r.state == InstallState::Unavailable,
    {
        InstallPrompt { state: InstallState::Unavailable }
    }

    /// The platform offered an install. An offer while the dialog is up, or
    /// after the user accepted, changes nothing.
    pub fn on_offer(&mut self)
        ensures
            final(self).state == match old(self).state {
                InstallState::Prompting => InstallState::Prompting,
                InstallState::Accepted => InstallState::Accepted,
                _ => InstallState::Available,
            },
    {
        match self.state {
            InstallState::Prompting | InstallState::Accepted => {},
            _ => {
                self.state = InstallState::Available;
            },
        }
    }

    /// Whether the install button is shown: while an offer is pending, and
    /// still after the user dismissed the dialog.
    pub fn can_install(&self) -> (r: bool)
        ensures
            r == (self.state == InstallState::Available || self.state == InstallState::Dismissed),
    {
        self.state == InstallState::Available || self.state == InstallState::Dismissed
    }

    /// The user asked to install: shows the dialog if an offer is pending.
    /// After a dismissal the offer is used up, so nothing is shown until the
    /// platform offers again. Returns whether the dialog is to be shown.
    pub fn begin(&mut self) -> (shown: bool)
        ensures
            shown == (old(self).state == InstallState::Available),
            final(self).state == if shown { InstallState::Prompting } else { old(self).state },
    {
        if self.state == InstallState::Available {
            self.state = InstallState::Prompting;
            true
        } else {
            false
        }
    }

    /// The dialog returned the user's choice. Only the first answer to a shown
    /// dialog counts; any other is ignored. Returns whether it counted.
    pub fn resolve(&mut self, accepted: bool) -> (used: bool)
        ensures
            used == (old(self).state == InstallState::Prompting),
            final(self).state == if !used {
                old(self).state
            } else if accepted {
                InstallState::Accepted
            } else {
                InstallState::Dismissed
            },
    {
        if self.state == InstallState::Prompting {
            self.state = if accepted { InstallState::Accepted } else { InstallState::Dismissed };
            true
        } else {
            false
        }
    }
}

} // verus!
