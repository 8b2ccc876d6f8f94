//! Events as the handlers see them, and the identity the bot runs under.

use vstd::prelude::*;
use crate::text::text_view;

verus! {

/// What a membership change says about the member it names.
#[derive(Clone, Copy, Debug, PartialEq, Eq, Structural)]
pub enum MembershipState {
    Ban,
    Invite,
    Join,
    Knock,
    Leave,
    /// A state this crate has no name for.
    Other,
}

/// One event delivered for a room. A message carries a body; a membership
/// change carries the new state and, as its state key, the member it is about.
#[derive(Clone, Debug, PartialEq, Eq)]
pub struct IncomingEvent {
    pub sender: String,
    pub body: String,
    pub membership: Option<MembershipState>,
    pub state_key: Option<String>,
}

/// The mathematical content of an [`IncomingEvent`].
pub ghost struct EventView {
    pub sender: Seq<char>,
    pub body: Seq<char>,
    pub membership: Option<MembershipState>,
    pub state_key: Option<Seq<char>>,
}

impl View for IncomingEvent {
    type V = EventView;

    open spec fn view(&self) -> EventView {
        EventView {
            sender: self.sender@,
            body: self.body@,
            membership: self.membership,
            state_key: text_view(self.state_key),
        }
    }
}

/// The identity the bot is logged in as. It is fixed when the bot starts and
/// only ever compared against.
#[derive(Clone, Debug, PartialEq, Eq)]
pub struct BotIdentity {
    id: String,
}

impl View for BotIdentity {
    type V = Seq<char>;

    closed spec fn view(&self) -> Seq<char> {
        self.id@
    }
}

impl BotIdentity {
    /// Takes the identity as the chat server writes it.
    pub fn new(id: String) -> (me: BotIdentity)
        ensures
            me@ == id@,
    {
        BotIdentity { id }
    }

    /// The identity as text.
    pub fn as_str(&self) -> (id: &str)
        ensures
            id@ == self@,
    {
        self.id.as_str()
    }
}

} // verus!
