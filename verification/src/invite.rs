//! Accepting invitations: the bot joins a room exactly when a membership
//! change invites the bot itself.

use vstd::prelude::*;
use crate::event::{BotIdentity, EventView, IncomingEvent, MembershipState};
use crate::text::same_text;

verus! {

/// What the host does with the room after a membership change.
#[derive(Clone, Copy, Debug, PartialEq, Eq, Structural)]
pub enum InviteAction {
    /// Call nothing.
    Ignore,
    /// Call `join` on the room, once. A failure is reported and not retried.
    Join,
}

/// An event invites `me` when it is an invitation whose state key is `me`.
/// Membership changes reach every member's client, so the state key decides.
pub open spec fn invites(event: EventView, me: Seq<char>) -> bool {
    event.membership == Some(MembershipState::Invite) && event.state_key == Some(me)
}

/// The bot joins when it is invited, and does nothing otherwise.
pub open spec fn invite_action(event: EventView, me: Seq<char>) -> InviteAction {
    if invites(event, me) {
        InviteAction::Join
    } else {
        InviteAction::Ignore
    }
}

/// The number of `join` calls that a run of deliveries leads to. Each delivery
/// is judged alone: nothing is remembered from one to the next.
pub open spec fn join_calls(deliveries: Seq<EventView>, me: Seq<char>) -> nat
    decreases deliveries.len(),
{
    if deliveries.len() == 0 {
        0
    } else {
        let earlier = join_calls(deliveries.drop_last(), me);
        if invite_action(deliveries.last(), me) == InviteAction::Join {
            earlier + 1
        } else {
            earlier
        }
    }
}

/// Decides what to do about a membership change.
pub fn on_room_invite(event: &IncomingEvent, me: &BotIdentity) -> (action: InviteAction)
    ensures
        action == invite_action(event@, me@),
{
    match event.membership {
        Some(MembershipState::Invite) => {},
        _ => {
            return InviteAction::Ignore;
        },
    }
    match &event.state_key {
        Some(key) => {
            if same_text(key.as_str(), me.as_str()) {
                InviteAction::Join
            } else {
                InviteAction::Ignore
            }
        },
        None => InviteAction::Ignore,
    }
}

/// One delivery leads to one `join` call if it invites the bot, and to none
/// otherwise.
pub proof fn lemma_joins_once_when_invited(event: EventView, me: Seq<char>)
    ensures
        invites(event, me) ==> join_calls(seq![event], me) == 1,
        !invites(event, me) ==> join_calls(seq![event], me) == 0,
{
    let one = seq![event];
    assert(one.drop_last() =~= Seq::<EventView>::empty());
    assert(one.last() == event);
    assert(join_calls(one.drop_last(), me) == 0);
}

/// Delivering the same invitation again joins again: `times` deliveries of an
/// event that invites the bot lead to `times` calls of `join`.
pub proof fn lemma_redelivered_invite_joins_again(event: EventView, me: Seq<char>, times: nat)
    requires
        invites(event, me),
    ensures
        join_calls(Seq::new(times, |i: int| event), me) == times,
    decreases times,
{
    let all = Seq::new(times, |i: int| event);
    if times > 0 {
        let fewer = (times - 1) as nat;
        lemma_redelivered_invite_joins_again(event, me, fewer);
        assert(all.drop_last() =~= Seq::new(fewer, |i: int| event));
        assert(all.last() == event);
    }
}

} // verus!
