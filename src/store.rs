use vstd::prelude::*;

verus! {

/// A persisted user row.
#[derive(Debug)]
pub struct UserRecord {
    pub id: u128,
    pub username: String,
    pub display_name: String,
    pub email: String,
    pub email_verified: bool,
    pub display_color: i32,
    pub password_hash: String,
    pub updated_at: u64,
}

impl UserRecord {
    /// A field-for-field copy.
    pub fn duplicate(&self) -> (r: UserRecord)
        ensures
            r == *self,
    {
        UserRecord {
            id: self.id,
            username: self.username.clone(),
            display_name: self.display_name.clone(),
            email: self.email.clone(),
            email_verified: self.email_verified,
            display_color: self.display_color,
            password_hash: self.password_hash.clone(),
            updated_at: self.updated_at,
        }
    }
}

/// A session row: which user it signs in.
#[derive(Debug, Clone, Copy, PartialEq, Eq, Structural)]
pub struct SessionRecord {
    pub id: u128,
    pub user_id: u128,
}

/// A follow row, keyed by `(user_id, channel_id)`; an unfollow keeps the row
/// with `following` false.
#[derive(Debug, Clone, Copy, PartialEq, Eq, Structural)]
pub struct FollowRow {
    pub user_id: u128,
    pub channel_id: u128,
    pub following: bool,
}

/// One durable write unit: what a mutation asks storage to commit.
#[derive(Debug)]
pub enum WriteUnit {
    /// Set the email, mark it unverified and stamp the row.
    SetEmail { user_id: u128, email: String },
    /// Set the display name, only on the row whose username is still
    /// `expected_username`.
    SetDisplayName { user_id: u128, expected_username: String, display_name: String },
    /// Set the display color and stamp the row.
    SetDisplayColor { user_id: u128, display_color: i32 },
    /// In one transaction: set the password hash and drop every other
    /// session of the user than `keep_session`.
    SetPassword { user_id: u128, password_hash: String, keep_session: u128 },
    /// Insert the follow row, or overwrite its flag.
    UpsertFollow { user_id: u128, channel_id: u128, following: bool },
}

/// What a committed write unit returns.
#[derive(Debug)]
pub enum WriteOutput {
    /// The row after the write.
    User(UserRecord),
    /// The flag the follow row now holds.
    Follow(bool),
    /// No row matched: nothing changed.
    NoRow,
}

/// The row guarded by a display-name write.
pub open spec fn guard_holds(r: UserRecord, user_id: u128, expected_username: Seq<char>) -> bool {
    r.id == user_id && r.username@ == expected_username
}

/// The row that a write unit selects.
pub open spec fn selects(u: &WriteUnit, r: UserRecord) -> bool {
    match u {
        WriteUnit::SetEmail { user_id, .. } => r.id == *user_id,
        WriteUnit::SetDisplayName { user_id, expected_username, .. } =>
            guard_holds(r, *user_id, expected_username@),
        WriteUnit::SetDisplayColor { user_id, .. } => r.id == *user_id,
        WriteUnit::SetPassword { user_id, .. } => r.id == *user_id,
        WriteUnit::UpsertFollow { .. } => false,
    }
}

/// A selected user row after the write unit.
pub open spec fn rewritten(u: &WriteUnit, r: UserRecord, now: u64) -> UserRecord {
    match u {
        WriteUnit::SetEmail { email, .. } =>
            UserRecord { email: *email, email_verified: false, updated_at: now, ..r },
        WriteUnit::SetDisplayName { display_name, .. } =>
            UserRecord { display_name: *display_name, updated_at: now, ..r },
        WriteUnit::SetDisplayColor { display_color, .. } =>
            UserRecord { display_color: *display_color, updated_at: now, ..r },
        WriteUnit::SetPassword { password_hash, .. } =>
            UserRecord { password_hash: *password_hash, ..r },
        WriteUnit::UpsertFollow { .. } => r,
    }
}

/// The user rows after a write unit: each row it selects is rewritten.
pub open spec fn users_after(users: Seq<UserRecord>, u: &WriteUnit, now: u64) -> Seq<UserRecord> {
    users.map_values(|r: UserRecord| if selects(u, r) { rewritten(u, r, now) } else { r })
}

/// Whether a password write drops session `s`.
pub open spec fn dropped_by(s: SessionRecord, user_id: u128, keep_session: u128) -> bool {
    s.user_id == user_id && s.id != keep_session
}

/// The sessions that a password write keeps.
pub open spec fn kept_by(user_id: u128, keep_session: u128) -> spec_fn(SessionRecord) -> bool {
    |s: SessionRecord| !dropped_by(s, user_id, keep_session)
}

/// The sessions left after a password write, in their order.
pub open spec fn sessions_after(sessions: Seq<SessionRecord>, user_id: u128, keep_session: u128) -> Seq<SessionRecord> {
    sessions.filter(kept_by(user_id, keep_session))
}

/// Whether some row is selected by the write unit.
pub open spec fn matches_row(users: Seq<UserRecord>, u: &WriteUnit) -> bool {
    exists|j: int| 0 <= j < users.len() && selects(u, #[trigger] users[j])
}

pub open spec fn is_follow(u: &WriteUnit) -> bool {
    u is UpsertFollow
}

pub open spec fn is_password(u: &WriteUnit) -> bool {
    u is SetPassword
}

/// Whether a row holds the follow key `(user_id, channel_id)`.
pub open spec fn follow_key(f: FollowRow, user_id: u128, channel_id: u128) -> bool {
    f.user_id == user_id && f.channel_id == channel_id
}

/// The follow rows after an upsert.
pub open spec fn follows_after(rows: Seq<FollowRow>, user_id: u128, channel_id: u128, following: bool) -> Seq<FollowRow> {
    if exists|i: int| 0 <= i < rows.len() && follow_key(#[trigger] rows[i], user_id, channel_id) {
        rows.map_values(|f: FollowRow|
            if follow_key(f, user_id, channel_id) { FollowRow { following, ..f } } else { f })
    } else {
        rows.push(FollowRow { user_id, channel_id, following })
    }
}

/// Durable state held in memory: users, sessions and follow rows, with each
/// write unit committed as one step.
pub struct MemStore {
    pub users: Vec<UserRecord>,
    pub sessions: Vec<SessionRecord>,
    pub follows: Vec<FollowRow>,
}

impl MemStore {
    /// User ids and follow keys are unique.
    pub open spec fn wf(&self) -> bool {
        &&& forall|i: int, j: int|
            0 <= i < j < self.users@.len() ==> (#[trigger] self.users@[i]).id != (#[trigger] self.users@[j]).id
        &&& forall|i: int, j: int|
            0 <= i < j < self.follows@.len() ==> !follow_key(
                #[trigger] self.follows@[i],
                (#[trigger] self.follows@[j]).user_id,
                self.follows@[j].channel_id,
            )
    }

    pub fn new() -> (r: MemStore)
        ensures
            r.wf(),
            r.users@.len() == 0,
            r.sessions@.len() == 0,
            r.follows@.len() == 0,
    {
        MemStore { users: Vec::new(), sessions: Vec::new(), follows: Vec::new() }
    }

    /// Where the user `id` stands, if anywhere.
    pub fn find_user(&self, id: u128) -> (r: Option<usize>)
        ensures
            r matches Some(i) ==> i < self.users@.len() && self.users@[i as int].id == id,
            r is None ==> forall|j: int| 0 <= j < self.users@.len() ==> self.users@[j].id != id,
    {
        let mut i: usize = 0;
        while i < self.users.len()
            invariant
                i <= self.users@.len(),
                forall|j: int| 0 <= j < i ==> self.users@[j].id != id,
            decreases self.users@.len() - i,
        {
            if self.users[i].id == id {
                return Some(i);
            }
            i = i + 1;
        }
        None
    }

    /// Looks a user up by id.
    pub fn user(&self, id: u128) -> (r: Option<UserRecord>)
        ensures
            r matches Some(u) ==> u.id == id && self.users@.contains(u),
            r is None ==> forall|j: int| 0 <= j < self.users@.len() ==> self.users@[j].id != id,
    {
        match self.find_user(id) {
            Some(i) => Some(self.users[i].duplicate()),
            None => None,
        }
    }
}

impl MemStore {
    /// Adds a user; refused (returning false, nothing changed) when the id is
    /// taken.
    pub fn add_user(&mut self, user: UserRecord) -> (r: bool)
        requires
            old(self).wf(),
        ensures
            final(self).wf(),
            r == forall|j: int| 0 <= j < old(self).users@.len() ==> old(self).users@[j].id != user.id,
            final(self).users@ == (if r { old(self).users@.push(user) } else { old(self).users@ }),
            final(self).sessions@ == old(self).sessions@,
            final(self).follows@ == old(self).follows@,
    {
        match self.find_user(user.id) {
            Some(_) => false,
            None => {
                self.users.push(user);
                true
            },
        }
    }

    /// Adds a session row.
    pub fn add_session(&mut self, session: SessionRecord)
        requires
            old(self).wf(),
        ensures
            final(self).wf(),
            final(self).users@ == old(self).users@,
            final(self).sessions@ == old(self).sessions@.push(session),
            final(self).follows@ == old(self).follows@,
    {
        self.sessions.push(session);
    }

    /// The flag of the follow row `(user_id, channel_id)`, if there is one.
    pub fn following(&self, user_id: u128, channel_id: u128) -> (r: Option<bool>)
        ensures
            r matches Some(f) ==> exists|i: int|
                0 <= i < self.follows@.len() && follow_key(#[trigger] self.follows@[i], user_id, channel_id)
                    && self.follows@[i].following == f,
            r is None ==> forall|i: int| 0 <= i < self.follows@.len() ==> !follow_key(#[trigger] self.follows@[i], user_id, channel_id),
    {
        match self.find_follow(user_id, channel_id) {
            Some(i) => Some(self.follows[i].following),
            None => None,
        }
    }

    /// Commits one write unit. A user write changes the row it selects and
    /// returns it, or changes nothing and returns `NoRow`; a password write
    /// drops the other sessions only when its row was found; an upsert
    /// returns the flag it set.
    pub fn apply(&mut self, unit: WriteUnit, now: u64) -> (r: WriteOutput)
        requires
            old(self).wf(),
        ensures
            final(self).wf(),
            final(self).users@ == users_after(old(self).users@, &unit, now),
            is_follow(&unit) ==> r == WriteOutput::Follow(unit->UpsertFollow_following),
            !is_follow(&unit) && !matches_row(old(self).users@, &unit) ==> r is NoRow,
            !is_follow(&unit) && matches_row(old(self).users@, &unit) ==> exists|j: int|
                0 <= j < old(self).users@.len() && selects(&unit, #[trigger] old(self).users@[j])
                    && r == WriteOutput::User(rewritten(&unit, old(self).users@[j], now)),
            final(self).sessions@ == (
                if is_password(&unit) && matches_row(old(self).users@, &unit) {
                    sessions_after(old(self).sessions@, unit->SetPassword_user_id, unit->SetPassword_keep_session)
                } else {
                    old(self).sessions@
                }),
            final(self).follows@ == (
                if is_follow(&unit) {
                    follows_after(
                        old(self).follows@,
                        unit->UpsertFollow_user_id,
                        unit->UpsertFollow_channel_id,
                        unit->UpsertFollow_following,
                    )
                } else {
                    old(self).follows@
                }),
    {
        let ghost u0 = unit;
        let ghost users = self.users@;
        let target = match &unit {
            WriteUnit::SetEmail { user_id, .. } => self.find_user(*user_id),
            WriteUnit::SetDisplayName { user_id, expected_username, .. } => {
                match self.find_user(*user_id) {
                    Some(i) => if self.users[i].username == *expected_username { Some(i) } else { None },
                    None => None,
                }
            },
            WriteUnit::SetDisplayColor { user_id, .. } => self.find_user(*user_id),
            WriteUnit::SetPassword { user_id, .. } => self.find_user(*user_id),
            WriteUnit::UpsertFollow { .. } => None,
        };
        proof {
            assert forall|j: int| 0 <= j < users.len() && selects(&u0, #[trigger] users[j]) implies
                target == Some(j as usize) by {
                if let Some(i) = target {
                    if j < i {
                        assert(users[j].id != users[i as int].id);
                    } else if j > i {
                        assert(users[i as int].id != users[j].id);
                    }
                }
            }
        }
        let r = match target {
            None => {
                match unit {
                    WriteUnit::UpsertFollow { user_id, channel_id, following } => {
                        self.upsert_follow(user_id, channel_id, following);
                        WriteOutput::Follow(following)
                    },
                    _ => WriteOutput::NoRow,
                }
            },
            Some(i) => {
                let mut row = self.users[i].duplicate();
                match unit {
                    WriteUnit::SetEmail { email, .. } => {
                        row.email = email;
                        row.email_verified = false;
                        row.updated_at = now;
                    },
                    WriteUnit::SetDisplayName { display_name, .. } => {
                        row.display_name = display_name;
                        row.updated_at = now;
                    },
                    WriteUnit::SetDisplayColor { display_color, .. } => {
                        row.display_color = display_color;
                        row.updated_at = now;
                    },
                    WriteUnit::SetPassword { user_id, password_hash, keep_session } => {
                        row.password_hash = password_hash;
                        self.drop_sessions(user_id, keep_session);
                    },
                    WriteUnit::UpsertFollow { .. } => {},
                }
                let out = row.duplicate();
                self.users[i] = row;
                WriteOutput::User(out)
            },
        };
        assert(self.users@ =~= users_after(users, &u0, now));
        r
    }

    fn find_follow(&self, user_id: u128, channel_id: u128) -> (r: Option<usize>)
        ensures
            r matches Some(i) ==> i < self.follows@.len() && follow_key(self.follows@[i as int], user_id, channel_id),
            r is None ==> forall|j: int| 0 <= j < self.follows@.len() ==> !follow_key(#[trigger] self.follows@[j], user_id, channel_id),
    {
        let mut i: usize = 0;
        while i < self.follows.len()
            invariant
                i <= self.follows@.len(),
                forall|j: int| 0 <= j < i ==> !follow_key(#[trigger] self.follows@[j], user_id, channel_id),
            decreases self.follows@.len() - i,
        {
            if self.follows[i].user_id == user_id && self.follows[i].channel_id == channel_id {
                return Some(i);
            }
            i = i + 1;
        }
        None
    }

    fn upsert_follow(&mut self, user_id: u128, channel_id: u128, following: bool)
        requires
            old(self).wf(),
        ensures
            final(self).wf(),
            final(self).users@ == old(self).users@,
            final(self).sessions@ == old(self).sessions@,
            final(self).follows@ == follows_after(old(self).follows@, user_id, channel_id, following),
    {
        let ghost rows = self.follows@;
        match self.find_follow(user_id, channel_id) {
            Some(i) => {
                let row = FollowRow { user_id, channel_id, following };
                self.follows[i] = row;
                assert(self.follows@ =~= follows_after(rows, user_id, channel_id, following)) by {
                    assert forall|j: int| 0 <= j < rows.len() && j != i implies !follow_key(#[trigger] rows[j], user_id, channel_id) by {
                        if j < i {
                            assert(!follow_key(rows[j], rows[i as int].user_id, rows[i as int].channel_id));
                        } else {
                            assert(!follow_key(rows[i as int], rows[j].user_id, rows[j].channel_id));
                        }
                    }
                }
            },
            None => {
                self.follows.push(FollowRow { user_id, channel_id, following });
            },
        }
    }

    fn drop_sessions(&mut self, user_id: u128, keep_session: u128)
        requires
            old(self).wf(),
        ensures
            final(self).wf(),
            final(self).users@ == old(self).users@,
            final(self).sessions@ == sessions_after(old(self).sessions@, user_id, keep_session),
            final(self).follows@ == old(self).follows@,
    {
        let mut kept: Vec<SessionRecord> = Vec::new();
        let mut k: usize = 0;
        while k < self.sessions.len()
            invariant
                k <= self.sessions@.len(),
                kept@ == sessions_after(self.sessions@.subrange(0, k as int), user_id, keep_session),
            decreases self.sessions@.len() - k,
        {
            let s = self.sessions[k];
            proof {
                let pre = self.sessions@.subrange(0, k as int);
                assert(self.sessions@.subrange(0, k + 1) =~= pre.push(s));
                pre.lemma_filter_push(s, kept_by(user_id, keep_session));
            }
            if !(s.user_id == user_id && s.id != keep_session) {
                kept.push(s);
            }
            k = k + 1;
        }
        assert(self.sessions@.subrange(0, self.sessions@.len() as int) =~= self.sessions@);
        self.sessions = kept;
    }
}

} // verus!
