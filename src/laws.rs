use vstd::prelude::*;
use vstd::seq_lib::group_filter_ensures;
use crate::error::{InputField, MutationError};
use crate::flow::{transition, Action, Auth, Event, Flow, Operation, Phase};
use crate::store::{
    dropped_by, follow_key, follows_after, kept_by, matches_row, rewritten, selects, sessions_after, users_after,
    SessionRecord, FollowRow, UserRecord, WriteUnit,
};
use crate::validate::lower_of;

verus! {

/// User ids are unique.
pub open spec fn unique_ids(users: Seq<UserRecord>) -> bool {
    forall|i: int, j: int| 0 <= i < j < users.len() ==> (#[trigger] users[i]).id != (#[trigger] users[j]).id
}

/// Follow keys are unique.
pub open spec fn unique_keys(rows: Seq<FollowRow>) -> bool {
    forall|i: int, j: int|
        0 <= i < j < rows.len() ==> !follow_key(#[trigger] rows[i], (#[trigger] rows[j]).user_id, rows[j].channel_id)
}

/// A display-name write that a request issues only rewrites rows whose
/// username equals the new display name up to case, so every row it changes
/// keeps that rule.
pub proof fn display_name_write_keeps_case(f: Flow, e: Event, g: Flow, unit: WriteUnit, row: UserRecord, now: u64)
    requires
        transition(f, e, g, Action::Write(unit)),
        unit is SetDisplayName,
        selects(&unit, row),
    ensures
        lower_of(rewritten(&unit, row, now).display_name@) == lower_of(rewritten(&unit, row, now).username@),
{
}

/// A display name that differs from the username beyond case is refused
/// with the display-name field, and the request ends there without a write.
pub proof fn display_name_mismatch_is_refused(f: Flow, auth: Auth, user: UserRecord, g: Flow, a: Action)
    requires
        f.phase == (Phase::AwaitUser { auth }),
        f.op matches Operation::DisplayName { display_name } && lower_of(display_name@) != lower_of(user.username@),
        transition(f, Event::UserLoaded(Ok(Some(user))), g, a),
    ensures
        g.phase is Done,
        a == Action::Finish(Err(MutationError::InvalidInput { field: InputField::DisplayName })),
{
}

/// A wrong current password is refused with the password field, and the
/// request ends there without a write.
pub proof fn wrong_password_is_refused(f: Flow, g: Flow, a: Action)
    requires
        f.phase is AwaitPasswordCheck,
        f.op is Password,
        transition(f, Event::PasswordChecked(false), g, a),
    ensures
        g.phase is Done,
        a == Action::Finish(Err(MutationError::InvalidInput { field: InputField::Password })),
{
}

/// A password write sets the new hash on the user's row and keeps exactly
/// the sessions that belong to other users or are the requester's own.
pub proof fn password_write_signs_out_others(
    users: Seq<UserRecord>,
    sessions: Seq<SessionRecord>,
    user_id: u128,
    password_hash: String,
    keep_session: u128,
    now: u64,
)
    ensures
        ({
            let unit = WriteUnit::SetPassword { user_id, password_hash, keep_session };
            forall|j: int| 0 <= j < users.len() && users[j].id == user_id ==>
                (#[trigger] users_after(users, &unit, now)[j]).password_hash == password_hash
        }),
        forall|s: SessionRecord| #[trigger] sessions_after(sessions, user_id, keep_session).contains(s) <==> (
            sessions.contains(s) && !dropped_by(s, user_id, keep_session)),
        forall|s: SessionRecord| sessions.contains(s) && s.id == keep_session ==>
            #[trigger] sessions_after(sessions, user_id, keep_session).contains(s),
{
    broadcast use group_filter_ensures;

    let kept = sessions_after(sessions, user_id, keep_session);
    assert forall|s: SessionRecord| #[trigger] kept.contains(s) <==> (sessions.contains(s) && !dropped_by(s, user_id, keep_session)) by {
        if kept.contains(s) {
            sessions.lemma_filter_contains_rev(kept_by(user_id, keep_session), s);
            let i = choose|i: int| 0 <= i < kept.len() && kept[i] == s;
            assert(kept_by(user_id, keep_session)(kept[i]));
        }
        if sessions.contains(s) && !dropped_by(s, user_id, keep_session) {
            let i = choose|i: int| 0 <= i < sessions.len() && sessions[i] == s;
            assert(kept_by(user_id, keep_session)(sessions[i]));
        }
    }
}

/// Following one's own channel is refused with the channel field, whatever
/// is stored: the request ends before any read or write.
pub proof fn self_follow_is_refused(f: Flow, auth: Auth, g: Flow, a: Action)
    requires
        f.phase is AwaitIdentity,
        f.op matches Operation::Follow { channel_id, .. } && channel_id == auth.user_id,
        transition(f, Event::Identity(Some(auth)), g, a),
    ensures
        g.phase is Done,
        a == Action::Finish(Err(MutationError::InvalidInput { field: InputField::ChannelId })),
{
}

/// Upserting a follow twice leaves the rows as one upsert does: one row for
/// the key, holding the flag.
pub proof fn follow_upsert_is_idempotent(rows: Seq<FollowRow>, user_id: u128, channel_id: u128, following: bool)
    requires
        unique_keys(rows),
    ensures
        follows_after(follows_after(rows, user_id, channel_id, following), user_id, channel_id, following)
            == follows_after(rows, user_id, channel_id, following),
        exists|i: int| {
            &&& 0 <= i < follows_after(rows, user_id, channel_id, following).len()
            &&& #[trigger] follows_after(rows, user_id, channel_id, following)[i] == (FollowRow { user_id, channel_id, following })
            &&& forall|j: int| 0 <= j < follows_after(rows, user_id, channel_id, following).len() && j != i
                ==> !follow_key(#[trigger] follows_after(rows, user_id, channel_id, following)[j], user_id, channel_id)
        },
{
    let once = follows_after(rows, user_id, channel_id, following);
    let row = FollowRow { user_id, channel_id, following };
    if exists|i: int| 0 <= i < rows.len() && follow_key(#[trigger] rows[i], user_id, channel_id) {
        let i = choose|i: int| 0 <= i < rows.len() && follow_key(#[trigger] rows[i], user_id, channel_id);
        assert(follow_key(once[i], user_id, channel_id));
        assert(once[i] == row);
        assert forall|j: int| 0 <= j < once.len() && j != i implies !follow_key(#[trigger] once[j], user_id, channel_id) by {
            if j < i {
                assert(!follow_key(rows[j], rows[i].user_id, rows[i].channel_id));
            } else {
                assert(!follow_key(rows[i], rows[j].user_id, rows[j].channel_id));
            }
        }
        assert(follows_after(once, user_id, channel_id, following) =~= once);
    } else {
        let i = rows.len() as int;
        assert(once[i] == row);
        assert(follow_key(once[i], user_id, channel_id));
        assert(follows_after(once, user_id, channel_id, following) =~= once);
    }
}

/// A follow whose write committed is announced on two subjects: the
/// user's and the channel's.
pub proof fn follow_publishes_twice(f: Flow, e: Event, g: Flow, a: Action)
    requires
        f.op is Follow,
        f.phase is AwaitWrite,
        e matches Event::Written(Ok(_)),
        transition(f, e, g, a),
    ensures
        a matches Action::Publish(v) && v@.len() == 2,
{
}

/// Of two display-name writes on one user guarded on different usernames,
/// at most one matches a row, in either order: a write keeps the username.
pub proof fn stale_username_conflicts(
    users: Seq<UserRecord>,
    user_id: u128,
    first_expected: String,
    first_name: String,
    second_expected: String,
    second_name: String,
    now: u64,
)
    requires
        unique_ids(users),
        first_expected@ != second_expected@,
    ensures
        ({
            let first = WriteUnit::SetDisplayName { user_id, expected_username: first_expected, display_name: first_name };
            let second = WriteUnit::SetDisplayName { user_id, expected_username: second_expected, display_name: second_name };
            !(matches_row(users, &first) && matches_row(users_after(users, &first, now), &second))
        }),
{
    let first = WriteUnit::SetDisplayName { user_id, expected_username: first_expected, display_name: first_name };
    let second = WriteUnit::SetDisplayName { user_id, expected_username: second_expected, display_name: second_name };
    let after = users_after(users, &first, now);
    if matches_row(users, &first) && matches_row(after, &second) {
        let i = choose|i: int| 0 <= i < users.len() && selects(&first, #[trigger] users[i]);
        let j = choose|j: int| 0 <= j < after.len() && selects(&second, #[trigger] after[j]);
        assert(after[j].username == users[j].username);
        if i < j {
            assert(users[i].id != users[j].id);
        } else if j < i {
            assert(users[j].id != users[i].id);
        }
    }
}

} // verus!
