use vstd::prelude::*;

use crate::decode::NotificationData;

verus! {

/// Lifetime given to a low-urgency notification that asked for none, in ms.
pub const LOW_URGENCY_EXPIRY_MS: u32 = 3500;

/// Lifetime given to a normal-urgency notification that asked for none, in ms.
pub const NORMAL_URGENCY_EXPIRY_MS: u32 = 5000;

/// From the protocol side to the presentation side.
#[derive(Debug)]
pub enum Command {
    /// Show `id` with this content, replacing what `id` showed before.
    Open(u32, NotificationData),
    /// Take `id` away, if it is shown.
    Close(u32),
}

/// An outbound signal of the notification interface.
#[derive(Debug, Clone, PartialEq, Eq)]
pub enum Signal {
    /// `NotificationClosed(id, reason code)`.
    NotificationClosed(u32, u32),
    /// `ActionInvoked(id, action key)`.
    ActionInvoked(u32, String),
}

/// The lifetime of a notification: the one it asked for, else a default
/// by urgency; critical ones get none and stay until closed.
pub open spec fn expiry_rule(expire_timeout: Option<u32>, urgency: u8) -> Option<u32> {
    match expire_timeout {
        Some(t) => Some(t),
        None => if urgency == 0 {
            Some(LOW_URGENCY_EXPIRY_MS)
        } else if urgency == 1 {
            Some(NORMAL_URGENCY_EXPIRY_MS)
        } else {
            None
        },
    }
}

/// A low-urgency notification that asked for no lifetime gets the
/// low-urgency default; a critical one that asked for none never expires
/// by itself.
pub proof fn lemma_expiry_by_urgency(data: NotificationData)
    requires
        data.expire_timeout is None,
    ensures
        data.urgency == 0 ==> expiry_rule(data.expire_timeout, data.urgency) == Some(
            LOW_URGENCY_EXPIRY_MS,
        ),
        data.urgency == 2 ==> expiry_rule(data.expire_timeout, data.urgency) is None,
{
}

/// The lifetime, in ms, after which the presentation side closes a
/// notification with reason `Expired`; `None` for no automatic expiry.
pub fn expiry_for(data: &NotificationData) -> (r: Option<u32>)
    ensures
        r == expiry_rule(data.expire_timeout, data.urgency),
{
    match data.expire_timeout {
        Some(t) => Some(t),
        None => if data.urgency == 0 {
            Some(LOW_URGENCY_EXPIRY_MS)
        } else if data.urgency == 1 {
            Some(NORMAL_URGENCY_EXPIRY_MS)
        } else {
            None
        },
    }
}

/// What the presentation side does with a command.
#[derive(Debug)]
pub enum Step {
    /// Build the notification for `id` with this content and this lifetime
    /// (in ms), and put it in the table.
    Show(u32, NotificationData, Option<u32>),
    /// Take the record for `id` out of the table at once
    /// (`Oshirase::apply_close`).
    Close(u32),
}

/// The presentation side's decision on a command: an `Open` is shown with
/// its lifetime; a `Close` is applied to the table as it comes, so commands
/// for one id take effect in the order they were sent.
pub fn plan_command(cmd: Command) -> (r: Step)
    ensures
        match cmd {
            Command::Open(id, data) => r matches Step::Show(i, d, e) && i == id && d == data && e
                == expiry_rule(data.expire_timeout, data.urgency),
            Command::Close(id) => r == Step::Close(id),
        },
{
    match cmd {
        Command::Open(id, data) => {
            let expiry = expiry_for(&data);
            Step::Show(id, data, expiry)
        },
        Command::Close(id) => Step::Close(id),
    }
}

} // verus!
