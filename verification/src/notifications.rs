//! The top-level event type the library reports through.

use vstd::prelude::*;

use crate::utils::notify::NotificationLevel;
use vstd::std_specs::convert::FromSpecImpl;

verus! {

/// An event for the sink: either one forwarded from the utility layer,
/// or one of this crate's own.
#[derive(Debug)]
pub enum Notification<'a> {
    Utils(crate::utils::notifications::Notification<'a>),
    MissingFileDuringSelfUninstall(String),
}

impl<'a> Notification<'a> {
    /// The severity at which this event is reported.
    pub open spec fn spec_level(&self) -> NotificationLevel {
        match self {
            Notification::Utils(n) => n.spec_level(),
            Notification::MissingFileDuringSelfUninstall(_) => NotificationLevel::Warn,
        }
    }

    /// The one-line rendering of this event.
    pub open spec fn spec_message(&self) -> Seq<char> {
        match self {
            Notification::Utils(n) => n.spec_message(),
            Notification::MissingFileDuringSelfUninstall(p) => {
                "expected file does not exist to uninstall: "@ + p@
            },
        }
    }

    pub fn level(&self) -> (r: NotificationLevel)
        ensures
            r == self.spec_level(),
    {
        match self {
            Notification::Utils(n) => n.level(),
            Notification::MissingFileDuringSelfUninstall(_) => NotificationLevel::Warn,
        }
    }

    /// Renders the event as its one-line message.
    pub fn message(&self) -> (r: String)
        ensures
            r@ == self.spec_message(),
    {
        match self {
            Notification::Utils(n) => n.message(),
            Notification::MissingFileDuringSelfUninstall(p) => {
                "expected file does not exist to uninstall: ".to_owned().concat(p.as_str())
            },
        }
    }
}

impl<'a> From<crate::utils::notifications::Notification<'a>> for Notification<'a> {
    fn from(n: crate::utils::notifications::Notification<'a>) -> (r: Notification<'a>) {
        Notification::Utils(n)
    }
}

impl<'a> FromSpecImpl<crate::utils::notifications::Notification<'a>> for Notification<'a> {
    open spec fn obeys_from_spec() -> bool {
        true
    }

    open spec fn from_spec(n: crate::utils::notifications::Notification<'a>) -> Self {
        Notification::Utils(n)
    }
}

} // verus!
