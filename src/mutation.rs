use vstd::prelude::*;
use crate::flow::{Action, Flow, Operation};

verus! {

/// The mutations that a signed-in user makes on their own profile and
/// follows. Each method opens a request; `Flow::step` carries it through.
#[derive(Debug, Clone, Copy)]
pub struct UserMutation {}

impl UserMutation {
    pub fn new() -> (r: UserMutation) {
        UserMutation {}
    }

    /// Change the email address of the signed-in user.
    pub fn email(&self, email: String) -> (r: (Flow, Action))
        ensures
            r.0.op == (Operation::Email { email }),
            r.0.phase is AwaitIdentity,
            r.0.wf(),
            r.1 is ResolveIdentity,
    {
        Flow::start(Operation::Email { email })
    }

    /// Change the display name of the signed-in user.
    pub fn display_name(&self, display_name: String) -> (r: (Flow, Action))
        ensures
            r.0.op == (Operation::DisplayName { display_name }),
            r.0.phase is AwaitIdentity,
            r.0.wf(),
            r.1 is ResolveIdentity,
    {
        Flow::start(Operation::DisplayName { display_name })
    }

    /// Change the display color of the signed-in user.
    pub fn display_color(&self, display_color: i32) -> (r: (Flow, Action))
        ensures
            r.0.op == (Operation::DisplayColor { display_color }),
            r.0.phase is AwaitIdentity,
            r.0.wf(),
            r.1 is ResolveIdentity,
    {
        Flow::start(Operation::DisplayColor { display_color })
    }

    /// Change the password of the signed-in user, signing out their other
    /// sessions.
    pub fn password(&self, current_password: String, new_password: String) -> (r: (Flow, Action))
        ensures
            r.0.op == (Operation::Password { current_password, new_password }),
            r.0.phase is AwaitIdentity,
            r.0.wf(),
            r.1 is ResolveIdentity,
    {
        Flow::start(Operation::Password { current_password, new_password })
    }

    /// Follow or unfollow a channel.
    pub fn follow(&self, channel_id: u128, following: bool) -> (r: (Flow, Action))
        ensures
            r.0.op == (Operation::Follow { channel_id, following }),
            r.0.phase is AwaitIdentity,
            r.0.wf(),
            r.1 is ResolveIdentity,
    {
        Flow::start(Operation::Follow { channel_id, following })
    }
}

} // verus!
