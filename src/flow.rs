use vstd::prelude::*;
use crate::error::{persistence_error, InputField, MutationError, StoreError};
use crate::event::{event_subjects, payload_bytes, DomainEvent, Publication};
use crate::store::{UserRecord, WriteOutput, WriteUnit};
use crate::validate::{check_display_name, check_follow, check_password, lower_of};

verus! {

/// The resolved identity of a request: its session and the user it signs in.
#[derive(Debug, Clone, Copy, PartialEq, Eq, Structural)]
pub struct Auth {
    pub session_id: u128,
    pub user_id: u128,
}

/// A mutation that the signed-in user asked for.
#[derive(Debug)]
pub enum Operation {
    Email { email: String },
    DisplayName { display_name: String },
    DisplayColor { display_color: i32 },
    Password { current_password: String, new_password: String },
    Follow { channel_id: u128, following: bool },
}

/// What a finished mutation hands back.
#[derive(Debug)]
pub enum Outcome {
    /// The user row after the change.
    User(UserRecord),
    /// The follow flag that was set.
    Following(bool),
}

/// Where a request stands: which answer it waits for.
#[derive(Debug)]
pub enum Phase {
    AwaitIdentity,
    AwaitUser { auth: Auth },
    AwaitPasswordCheck { auth: Auth, user: UserRecord },
    AwaitHash { auth: Auth, user_id: u128 },
    AwaitWrite { auth: Auth },
    AwaitPublish { outcome: Outcome },
    Done,
}

/// The answer to the last action, handed back by whoever performed it.
#[derive(Debug)]
pub enum Event {
    /// The session of the request, if it has a valid one.
    Identity(Option<Auth>),
    /// The user row, absent, or a storage failure.
    UserLoaded(Result<Option<UserRecord>, StoreError>),
    /// Whether the current password matches the stored hash.
    PasswordChecked(bool),
    /// The hash of the new password.
    PasswordHashed(String),
    /// What the write unit returned, or why it did not commit.
    Written(Result<WriteOutput, StoreError>),
    /// Whether every publication went out.
    Published(bool),
}

/// The next thing to do for a request.
#[derive(Debug)]
pub enum Action {
    ResolveIdentity,
    LoadUser { user_id: u128 },
    VerifyPassword { password_hash: String, password: String },
    HashPassword { password: String },
    Write(WriteUnit),
    /// Attempt every publication, even after one fails.
    Publish(Vec<Publication>),
    /// The request is over; this is its result.
    Finish(Result<Outcome, MutationError>),
}

/// One request: the operation asked for and how far it has come.
#[derive(Debug)]
pub struct Flow {
    pub op: Operation,
    pub phase: Phase,
}

/// `a` publishes event `e` on each of its subjects.
pub open spec fn announces(a: Action, e: DomainEvent) -> bool {
    match a {
        Action::Publish(v) => {
            &&& v@.len() == event_subjects(e).len()
            &&& forall|i: int| 0 <= i < v@.len() ==> {
                &&& (#[trigger] v@[i]).subject@ == event_subjects(e)[i]
                &&& v@[i].payload@ == payload_bytes(e)
            }
        },
        _ => false,
    }
}

pub open spec fn finish(g: Flow, a: Action, r: Result<Outcome, MutationError>) -> bool {
    g.phase is Done && a == Action::Finish(r)
}

pub open spec fn fail(g: Flow, a: Action, e: MutationError) -> bool {
    finish(g, a, Err(e))
}

/// The transition table of a request.
pub open spec fn transition(f: Flow, e: Event, g: Flow, a: Action) -> bool {
    &&& g.op == f.op
    &&& match (f.phase, e) {
        (Phase::AwaitIdentity, Event::Identity(None)) => fail(g, a, MutationError::Unauthenticated),
        (Phase::AwaitIdentity, Event::Identity(Some(auth))) => match f.op {
            Operation::Email { email } =>
                g.phase == Phase::AwaitWrite { auth }
                    && a == Action::Write(WriteUnit::SetEmail { user_id: auth.user_id, email }),
            Operation::DisplayColor { display_color } =>
                g.phase == Phase::AwaitWrite { auth }
                    && a == Action::Write(WriteUnit::SetDisplayColor { user_id: auth.user_id, display_color }),
            Operation::Follow { channel_id, following } =>
                if auth.user_id == channel_id {
                    fail(g, a, MutationError::InvalidInput { field: InputField::ChannelId })
                } else {
                    g.phase == Phase::AwaitWrite { auth } && a == Action::Write(
                        WriteUnit::UpsertFollow { user_id: auth.user_id, channel_id, following },
                    )
                },
            _ => g.phase == Phase::AwaitUser { auth } && a == Action::LoadUser { user_id: auth.user_id },
        },
        (Phase::AwaitUser { .. }, Event::UserLoaded(Err(_))) => fail(g, a, MutationError::PersistenceFailure),
        (Phase::AwaitUser { .. }, Event::UserLoaded(Ok(None))) => fail(g, a, MutationError::NotFound),
        (Phase::AwaitUser { auth }, Event::UserLoaded(Ok(Some(user)))) => match f.op {
            Operation::DisplayName { display_name } =>
                if lower_of(user.username@) == lower_of(display_name@) {
                    g.phase == Phase::AwaitWrite { auth } && a == Action::Write(WriteUnit::SetDisplayName {
                        user_id: auth.user_id,
                        expected_username: user.username,
                        display_name,
                    })
                } else {
                    fail(g, a, MutationError::InvalidInput { field: InputField::DisplayName })
                },
            Operation::Password { current_password, .. } =>
                g.phase == (Phase::AwaitPasswordCheck { auth, user })
                    && a == (Action::VerifyPassword { password_hash: user.password_hash, password: current_password }),
            _ => false,
        },
        (Phase::AwaitPasswordCheck { auth, user }, Event::PasswordChecked(ok)) => match f.op {
            Operation::Password { new_password, .. } =>
                if ok {
                    g.phase == (Phase::AwaitHash { auth, user_id: user.id })
                        && a == (Action::HashPassword { password: new_password })
                } else {
                    fail(g, a, MutationError::InvalidInput { field: InputField::Password })
                },
            _ => false,
        },
        (Phase::AwaitHash { auth, user_id }, Event::PasswordHashed(h)) =>
            g.phase == Phase::AwaitWrite { auth } && a == Action::Write(
                WriteUnit::SetPassword { user_id, password_hash: h, keep_session: auth.session_id },
            ),
        (Phase::AwaitWrite { .. }, Event::Written(Err(StoreError::Unavailable))) =>
            fail(g, a, MutationError::PersistenceFailure),
        (Phase::AwaitWrite { .. }, Event::Written(Err(StoreError::Constraint))) =>
            fail(g, a, MutationError::Conflict),
        (Phase::AwaitWrite { auth }, Event::Written(Ok(out))) => match (f.op, out) {
            (Operation::DisplayName { display_name }, WriteOutput::User(u)) =>
                g.phase == (Phase::AwaitPublish { outcome: Outcome::User(u) })
                    && announces(a, DomainEvent::DisplayNameChanged { user_id: u.id, display_name }),
            (Operation::DisplayName { .. }, _) => fail(g, a, MutationError::Conflict),
            (Operation::DisplayColor { display_color }, WriteOutput::User(u)) =>
                g.phase == (Phase::AwaitPublish { outcome: Outcome::User(u) })
                    && announces(a, DomainEvent::DisplayColorChanged { user_id: u.id, display_color }),
            (Operation::Follow { channel_id, following }, _) =>
                g.phase == (Phase::AwaitPublish { outcome: Outcome::Following(following) })
                    && announces(a, DomainEvent::FollowChanged { user_id: auth.user_id, channel_id, following }),
            (_, WriteOutput::User(u)) => finish(g, a, Ok(Outcome::User(u))),
            (_, _) => fail(g, a, MutationError::NotFound),
        },
        (Phase::AwaitPublish { outcome }, Event::Published(ok)) =>
            if ok { finish(g, a, Ok(outcome)) } else { fail(g, a, MutationError::PublishFailure) },
        _ => false,
    }
}

impl Flow {
    /// The phase fits the operation.
    pub open spec fn wf(&self) -> bool {
        match self.phase {
            Phase::AwaitUser { .. } => self.op is DisplayName || self.op is Password,
            Phase::AwaitPasswordCheck { .. } => self.op is Password,
            Phase::AwaitHash { .. } => self.op is Password,
            Phase::AwaitPublish { .. } => self.op is DisplayName || self.op is DisplayColor || self.op is Follow,
            _ => true,
        }
    }

    /// The event answers the action this flow waits on.
    pub open spec fn expects(&self, e: Event) -> bool {
        match (self.phase, e) {
            (Phase::AwaitIdentity, Event::Identity(_)) => true,
            (Phase::AwaitUser { .. }, Event::UserLoaded(_)) => true,
            (Phase::AwaitPasswordCheck { .. }, Event::PasswordChecked(_)) => true,
            (Phase::AwaitHash { .. }, Event::PasswordHashed(_)) => true,
            (Phase::AwaitWrite { .. }, Event::Written(_)) => true,
            (Phase::AwaitPublish { .. }, Event::Published(_)) => true,
            _ => false,
        }
    }

    /// A new request for `op`, which first resolves the caller's identity.
    pub fn start(op: Operation) -> (r: (Flow, Action))
        ensures
            r.0.op == op,
            r.0.phase is AwaitIdentity,
            r.1 is ResolveIdentity,
            r.0.wf(),
    {
        (Flow { op, phase: Phase::AwaitIdentity }, Action::ResolveIdentity)
    }

    /// Takes the answer to the last action and decides the next one.
    pub fn step(self, e: Event) -> (r: (Flow, Action))
        requires
            self.wf(),
            self.expects(e),
        ensures
            transition(self, e, r.0, r.1),
            r.0.wf(),
    {
        let Flow { op, phase } = self;
        let (phase, action) = match (phase, e) {
            (Phase::AwaitIdentity, Event::Identity(None)) => {
                (Phase::Done, Action::Finish(Err(MutationError::Unauthenticated)))
            },
            (Phase::AwaitIdentity, Event::Identity(Some(auth))) => match &op {
                Operation::Email { email } => (
                    Phase::AwaitWrite { auth },
                    Action::Write(WriteUnit::SetEmail { user_id: auth.user_id, email: email.clone() }),
                ),
                Operation::DisplayColor { display_color } => (
                    Phase::AwaitWrite { auth },
                    Action::Write(WriteUnit::SetDisplayColor { user_id: auth.user_id, display_color: *display_color }),
                ),
                Operation::Follow { channel_id, following } => match check_follow(auth.user_id, *channel_id) {
                    Err(err) => (Phase::Done, Action::Finish(Err(err))),
                    Ok(()) => (
                        Phase::AwaitWrite { auth },
                        Action::Write(WriteUnit::UpsertFollow {
                            user_id: auth.user_id,
                            channel_id: *channel_id,
                            following: *following,
                        }),
                    ),
                },
                _ => (Phase::AwaitUser { auth }, Action::LoadUser { user_id: auth.user_id }),
            },
            (Phase::AwaitUser { .. }, Event::UserLoaded(Err(_))) => {
                (Phase::Done, Action::Finish(Err(MutationError::PersistenceFailure)))
            },
            (Phase::AwaitUser { .. }, Event::UserLoaded(Ok(None))) => {
                (Phase::Done, Action::Finish(Err(MutationError::NotFound)))
            },
            (Phase::AwaitUser { auth }, Event::UserLoaded(Ok(Some(user)))) => match &op {
                Operation::DisplayName { display_name } => match check_display_name(&user.username, display_name) {
                    Err(err) => (Phase::Done, Action::Finish(Err(err))),
                    Ok(()) => (
                        Phase::AwaitWrite { auth },
                        Action::Write(WriteUnit::SetDisplayName {
                            user_id: auth.user_id,
                            expected_username: user.username,
                            display_name: display_name.clone(),
                        }),
                    ),
                },
                Operation::Password { current_password, .. } => {
                    let action = Action::VerifyPassword {
                        password_hash: user.password_hash.clone(),
                        password: current_password.clone(),
                    };
                    (Phase::AwaitPasswordCheck { auth, user }, action)
                },
                _ => {
                    proof {
                        assert(false);
                    }
                    (Phase::Done, Action::Finish(Err(MutationError::NotFound)))
                },
            },
            (Phase::AwaitPasswordCheck { auth, user }, Event::PasswordChecked(ok)) => match &op {
                Operation::Password { new_password, .. } => match check_password(ok) {
                    Err(err) => (Phase::Done, Action::Finish(Err(err))),
                    Ok(()) => (
                        Phase::AwaitHash { auth, user_id: user.id },
                        Action::HashPassword { password: new_password.clone() },
                    ),
                },
                _ => {
                    proof {
                        assert(false);
                    }
                    (Phase::Done, Action::Finish(Err(MutationError::NotFound)))
                },
            },
            (Phase::AwaitHash { auth, user_id }, Event::PasswordHashed(h)) => (
                Phase::AwaitWrite { auth },
                Action::Write(WriteUnit::SetPassword { user_id, password_hash: h, keep_session: auth.session_id }),
            ),
            (Phase::AwaitWrite { .. }, Event::Written(Err(err))) => {
                (Phase::Done, Action::Finish(Err(persistence_error(err))))
            },
            (Phase::AwaitWrite { auth }, Event::Written(Ok(out))) => match (&op, out) {
                (Operation::DisplayName { display_name }, WriteOutput::User(u)) => {
                    let ev = DomainEvent::DisplayNameChanged { user_id: u.id, display_name: display_name.clone() };
                    let pubs = ev.publications();
                    (Phase::AwaitPublish { outcome: Outcome::User(u) }, Action::Publish(pubs))
                },
                (Operation::DisplayName { .. }, _) => {
                    (Phase::Done, Action::Finish(Err(MutationError::Conflict)))
                },
                (Operation::DisplayColor { display_color }, WriteOutput::User(u)) => {
                    let ev = DomainEvent::DisplayColorChanged { user_id: u.id, display_color: *display_color };
                    let pubs = ev.publications();
                    (Phase::AwaitPublish { outcome: Outcome::User(u) }, Action::Publish(pubs))
                },
                (Operation::Follow { channel_id, following }, _) => {
                    let ev = DomainEvent::FollowChanged {
                        user_id: auth.user_id,
                        channel_id: *channel_id,
                        following: *following,
                    };
                    let pubs = ev.publications();
                    (Phase::AwaitPublish { outcome: Outcome::Following(*following) }, Action::Publish(pubs))
                },
                (_, WriteOutput::User(u)) => (Phase::Done, Action::Finish(Ok(Outcome::User(u)))),
                (_, _) => (Phase::Done, Action::Finish(Err(MutationError::NotFound))),
            },
            (Phase::AwaitPublish { outcome }, Event::Published(ok)) => {
                if ok {
                    (Phase::Done, Action::Finish(Ok(outcome)))
                } else {
                    (Phase::Done, Action::Finish(Err(MutationError::PublishFailure)))
                }
            },
            (_, _) => {
                proof {
                    assert(false);
                }
                (Phase::Done, Action::Finish(Err(MutationError::NotFound)))
            },
        };
        (Flow { op, phase }, action)
    }

    /// Whether `step` may be given this event now.
    pub fn accepts(&self, e: &Event) -> (r: bool)
        ensures
            r == (self.wf() && self.expects(*e)),
    {
        let fits = match (&self.phase, &self.op) {
            (Phase::AwaitUser { .. }, Operation::DisplayName { .. }) => true,
            (Phase::AwaitUser { .. }, Operation::Password { .. }) => true,
            (Phase::AwaitUser { .. }, _) => false,
            (Phase::AwaitPasswordCheck { .. }, Operation::Password { .. }) => true,
            (Phase::AwaitPasswordCheck { .. }, _) => false,
            (Phase::AwaitHash { .. }, Operation::Password { .. }) => true,
            (Phase::AwaitHash { .. }, _) => false,
            (Phase::AwaitPublish { .. }, Operation::Email { .. }) => false,
            (Phase::AwaitPublish { .. }, Operation::Password { .. }) => false,
            _ => true,
        };
        let answers = match (&self.phase, e) {
            (Phase::AwaitIdentity, Event::Identity(_)) => true,
            (Phase::AwaitUser { .. }, Event::UserLoaded(_)) => true,
            (Phase::AwaitPasswordCheck { .. }, Event::PasswordChecked(_)) => true,
            (Phase::AwaitHash { .. }, Event::PasswordHashed(_)) => true,
            (Phase::AwaitWrite { .. }, Event::Written(_)) => true,
            (Phase::AwaitPublish { .. }, Event::Published(_)) => true,
            _ => false,
        };
        fits && answers
    }
}

} // verus!
