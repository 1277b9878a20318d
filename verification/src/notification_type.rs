//! The seven phases of an application's life that the workspace announces.

use vstd::prelude::*;

verus! {

/// A phase of an application's life.
#[derive(Copy, Clone, PartialEq, Eq, Hash, Debug, Structural)]
pub enum NotificationType {
    Launching,
    Launched,
    Terminated,
    Hidden,
    Unhidden,
    Activated,
    Deactivated,
}

impl NotificationType {
    /// The name under which the workspace announces the phase.
    pub open spec fn name(self) -> Seq<char> {
        match self {
            NotificationType::Launching => "NSWorkspaceWillLaunchApplicationNotification"@,
            NotificationType::Launched => "NSWorkspaceDidLaunchApplicationNotification"@,
            NotificationType::Terminated => "NSWorkspaceDidTerminateApplicationNotification"@,
            NotificationType::Hidden => "NSWorkspaceDidHideApplicationNotification"@,
            NotificationType::Unhidden => "NSWorkspaceDidUnhideApplicationNotification"@,
            NotificationType::Activated => "NSWorkspaceDidActivateApplicationNotification"@,
            NotificationType::Deactivated => "NSWorkspaceDidDeactivateApplicationNotification"@,
        }
    }

    /// The selector of the trampoline that receives the phase.
    pub open spec fn selector(self) -> Seq<char> {
        match self {
            NotificationType::Launching => "applicationWillLaunch:"@,
            NotificationType::Launched => "applicationLaunched:"@,
            NotificationType::Terminated => "applicationTerminated:"@,
            NotificationType::Hidden => "applicationHidden:"@,
            NotificationType::Unhidden => "applicationUnhidden:"@,
            NotificationType::Activated => "applicationActivated:"@,
            NotificationType::Deactivated => "applicationDeactivated:"@,
        }
    }

    /// The word a phase is printed as.
    pub open spec fn label(self) -> Seq<char> {
        match self {
            NotificationType::Launching => "launching"@,
            NotificationType::Launched => "launched"@,
            NotificationType::Terminated => "terminated"@,
            NotificationType::Hidden => "hidden"@,
            NotificationType::Unhidden => "unhidden"@,
            NotificationType::Activated => "activated"@,
            NotificationType::Deactivated => "deactivated"@,
        }
    }

    /// The name under which the workspace announces the phase.
    pub fn get_name(&self) -> (name: &'static str)
        ensures
            name@ == self.name(),
    {
        match self {
            NotificationType::Launching => "NSWorkspaceWillLaunchApplicationNotification",
            NotificationType::Launched => "NSWorkspaceDidLaunchApplicationNotification",
            NotificationType::Terminated => "NSWorkspaceDidTerminateApplicationNotification",
            NotificationType::Hidden => "NSWorkspaceDidHideApplicationNotification",
            NotificationType::Unhidden => "NSWorkspaceDidUnhideApplicationNotification",
            NotificationType::Activated => "NSWorkspaceDidActivateApplicationNotification",
            NotificationType::Deactivated => "NSWorkspaceDidDeactivateApplicationNotification",
        }
    }

    /// The name of the selector of the trampoline that receives the phase.
    pub fn get_sel(&self) -> (sel: &'static str)
        ensures
            sel@ == self.selector(),
    {
        match self {
            NotificationType::Launching => "applicationWillLaunch:",
            NotificationType::Launched => "applicationLaunched:",
            NotificationType::Terminated => "applicationTerminated:",
            NotificationType::Hidden => "applicationHidden:",
            NotificationType::Unhidden => "applicationUnhidden:",
            NotificationType::Activated => "applicationActivated:",
            NotificationType::Deactivated => "applicationDeactivated:",
        }
    }

    /// The word the phase is printed as.
    pub fn fmt(&self) -> (text: &'static str)
        ensures
            text@ == self.label(),
    {
        match self {
            NotificationType::Launching => "launching",
            NotificationType::Launched => "launched",
            NotificationType::Terminated => "terminated",
            NotificationType::Hidden => "hidden",
            NotificationType::Unhidden => "unhidden",
            NotificationType::Activated => "activated",
            NotificationType::Deactivated => "deactivated",
        }
    }
}

/// No two phases are announced under one name.
pub proof fn lemma_names_differ(a: NotificationType, b: NotificationType)
    requires
        a != b,
    ensures
        a.name() != b.name(),
{
    reveal_strlit("NSWorkspaceWillLaunchApplicationNotification");
    reveal_strlit("NSWorkspaceDidLaunchApplicationNotification");
    reveal_strlit("NSWorkspaceDidTerminateApplicationNotification");
    reveal_strlit("NSWorkspaceDidHideApplicationNotification");
    reveal_strlit("NSWorkspaceDidUnhideApplicationNotification");
    reveal_strlit("NSWorkspaceDidActivateApplicationNotification");
    reveal_strlit("NSWorkspaceDidDeactivateApplicationNotification");
    if a.name().len() == b.name().len() {
        assert(a.name()[14] != b.name()[14]);
    }
}

/// No two phases are received by one trampoline.
pub proof fn lemma_selectors_differ(a: NotificationType, b: NotificationType)
    requires
        a != b,
    ensures
        a.selector() != b.selector(),
{
    reveal_strlit("applicationWillLaunch:");
    reveal_strlit("applicationLaunched:");
    reveal_strlit("applicationTerminated:");
    reveal_strlit("applicationHidden:");
    reveal_strlit("applicationUnhidden:");
    reveal_strlit("applicationActivated:");
    reveal_strlit("applicationDeactivated:");
    if a.selector().len() == b.selector().len() {
        assert(a.selector()[11] != b.selector()[11]);
    }
}

} // verus!
