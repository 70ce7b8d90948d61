use user_mutation::error::{InputField, MutationError, StoreError, persistence_error};
use user_mutation::event::{DomainEvent, Publication};
use user_mutation::flow::{Action, Auth, Event, Flow, Outcome, Phase};
use user_mutation::mutation::UserMutation;
use user_mutation::store::{MemStore, SessionRecord, UserRecord, WriteOutput, WriteUnit};
use user_mutation::ulid::ulid_string;
use user_mutation::validate::{check_display_name, check_display_name_folded, check_follow, check_password};

const ALICE: u128 = 0x0163_e3ab_5d3d_6764_c61e_fb99_302b_d5b0;
const CHANNEL: u128 = 42;

fn alice() -> UserRecord {
    UserRecord {
        id: ALICE,
        username: "Alice".to_string(),
        display_name: "Alice".to_string(),
        email: "alice@example.com".to_string(),
        email_verified: true,
        display_color: 7,
        password_hash: "hash:secret".to_string(),
        updated_at: 1,
    }
}

fn store_with_alice() -> MemStore {
    let mut store = MemStore::new();
    assert!(store.add_user(alice()));
    store.add_session(SessionRecord { id: 1, user_id: ALICE });
    store.add_session(SessionRecord { id: 2, user_id: ALICE });
    store.add_session(SessionRecord { id: 3, user_id: 99 });
    store.add_session(SessionRecord { id: 4, user_id: ALICE });
    store
}

fn auth() -> Option<Auth> {
    Some(Auth { session_id: 2, user_id: ALICE })
}

/// What the surroundings did while a request ran.
struct Run {
    result: Result<Outcome, MutationError>,
    writes: usize,
    published: Vec<Publication>,
}

/// Drives a request against the in-memory store. Passwords verify when the
/// stored hash is "hash:" followed by the password.
fn drive(store: &mut MemStore, start: (Flow, Action), identity: Option<Auth>, publish_ok: bool) -> Run {
    let (mut flow, mut action) = start;
    let mut writes = 0;
    let mut published = Vec::new();
    loop {
        let event = match action {
            Action::ResolveIdentity => Event::Identity(identity),
            Action::LoadUser { user_id } => Event::UserLoaded(Ok(store.user(user_id))),
            Action::VerifyPassword { password_hash, password } => {
                Event::PasswordChecked(password_hash == format!("hash:{}", password))
            }
            Action::HashPassword { password } => Event::PasswordHashed(format!("hash:{}", password)),
            Action::Write(unit) => {
                writes += 1;
                Event::Written(Ok(store.apply(unit, 100)))
            }
            Action::Publish(pubs) => {
                published.extend(pubs);
                Event::Published(publish_ok)
            }
            Action::Finish(result) => return Run { result, writes, published },
        };
        assert!(flow.accepts(&event));
        let next = flow.step(event);
        flow = next.0;
        action = next.1;
    }
}

fn stored_alice(store: &MemStore) -> UserRecord {
    store.user(ALICE).unwrap()
}

#[test]
fn ulid_text_of_known_values() {
    assert_eq!(ulid_string(0), "00000000000000000000000000");
    assert_eq!(ulid_string(1), "00000000000000000000000001");
    assert_eq!(ulid_string(255), "0000000000000000000000007Z");
    assert_eq!(ulid_string(u128::MAX), "7ZZZZZZZZZZZZZZZZZZZZZZZZZ");
    assert_eq!(ulid_string(0x01563e3ab5d3d6764c61efb99302bd5b), "01ARZ3NDEKTSV4RRFFQ69G5FAV");
}

#[test]
fn display_name_payload_bytes() {
    let e = DomainEvent::DisplayNameChanged { user_id: 1, display_name: "alice".to_string() };
    let mut want = vec![0x0a, 26];
    want.extend_from_slice(b"00000000000000000000000001");
    want.extend_from_slice(&[0x12, 5]);
    want.extend_from_slice(b"alice");
    assert_eq!(e.payload(), want);
}

#[test]
fn empty_display_name_is_left_out_of_payload() {
    let e = DomainEvent::DisplayNameChanged { user_id: 1, display_name: String::new() };
    let mut want = vec![0x0a, 26];
    want.extend_from_slice(b"00000000000000000000000001");
    assert_eq!(e.payload(), want);
}

#[test]
fn long_display_name_has_two_byte_length() {
    let name = "x".repeat(200);
    let e = DomainEvent::DisplayNameChanged { user_id: 0, display_name: name.clone() };
    let p = e.payload();
    assert_eq!(&p[28..31], &[0x12, 0xc8, 0x01]);
    assert_eq!(p.len(), 28 + 3 + 200);
}

#[test]
fn negative_color_is_sign_extended() {
    let e = DomainEvent::DisplayColorChanged { user_id: 0, display_color: -1 };
    let p = e.payload();
    assert_eq!(&p[28..], &[0x10, 0xff, 0xff, 0xff, 0xff, 0xff, 0xff, 0xff, 0xff, 0xff, 0x01]);
    let zero = DomainEvent::DisplayColorChanged { user_id: 0, display_color: 0 };
    assert_eq!(zero.payload().len(), 28);
    let c = DomainEvent::DisplayColorChanged { user_id: 0, display_color: 300 };
    assert_eq!(&c.payload()[28..], &[0x10, 0xac, 0x02]);
}

#[test]
fn follow_event_goes_to_user_and_channel() {
    let e = DomainEvent::FollowChanged { user_id: 1, channel_id: 255, following: true };
    let pubs = e.publications();
    assert_eq!(pubs.len(), 2);
    assert_eq!(pubs[0].subject, "user.00000000000000000000000001.follows");
    assert_eq!(pubs[1].subject, "channel.0000000000000000000000007Z.follows");
    assert_eq!(pubs[0].payload, pubs[1].payload);
    let mut want = vec![0x0a, 26];
    want.extend_from_slice(b"00000000000000000000000001");
    want.extend_from_slice(&[0x12, 26]);
    want.extend_from_slice(b"0000000000000000000000007Z");
    want.extend_from_slice(&[0x18, 0x01]);
    assert_eq!(pubs[0].payload, want);
    let off = DomainEvent::FollowChanged { user_id: 1, channel_id: 255, following: false };
    assert_eq!(off.payload(), want[..56].to_vec());
}

#[test]
fn display_name_and_color_subjects() {
    let n = DomainEvent::DisplayNameChanged { user_id: 1, display_name: "a".to_string() }.publications();
    assert_eq!(n.len(), 1);
    assert_eq!(n[0].subject, "user.00000000000000000000000001.display_name");
    let c = DomainEvent::DisplayColorChanged { user_id: 1, display_color: 3 }.publications();
    assert_eq!(c.len(), 1);
    assert_eq!(c[0].subject, "user.00000000000000000000000001.display_color");
}

#[test]
fn display_name_rule_ignores_case_only() {
    assert!(check_display_name(&"Alice".to_string(), &"ALICE".to_string()).is_ok());
    assert!(check_display_name(&"Straße".to_string(), &"STRASSE".to_string()).is_err());
    assert!(check_display_name(&"Ärger".to_string(), &"äRGER".to_string()).is_ok());
    assert_eq!(
        check_display_name(&"Alice".to_string(), &"Bob".to_string()),
        Err(MutationError::InvalidInput { field: InputField::DisplayName })
    );
    assert!(check_display_name_folded(&"alice".to_string(), &"alice".to_string()).is_ok());
    assert!(check_display_name_folded(&"alice".to_string(), &"Alice".to_string()).is_err());
}

#[test]
fn simple_rules() {
    assert_eq!(check_follow(5, 5), Err(MutationError::InvalidInput { field: InputField::ChannelId }));
    assert_eq!(check_follow(5, 6), Ok(()));
    assert_eq!(check_password(false), Err(MutationError::InvalidInput { field: InputField::Password }));
    assert_eq!(check_password(true), Ok(()));
    assert_eq!(persistence_error(StoreError::Constraint), MutationError::Conflict);
    assert_eq!(persistence_error(StoreError::Unavailable), MutationError::PersistenceFailure);
}

#[test]
fn field_names_and_messages() {
    assert_eq!(InputField::DisplayName.name(), "displayName");
    assert_eq!(InputField::Password.name(), "password");
    assert_eq!(InputField::ChannelId.name(), "channelId");
    assert_eq!(InputField::DisplayName.message(), "case mismatch");
    assert_eq!(InputField::Password.message(), "wrong password");
    assert_eq!(InputField::ChannelId.message(), "cannot follow yourself");
}

#[test]
fn display_name_matching_case_insensitively_succeeds() {
    let mut store = store_with_alice();
    let m = UserMutation::new();
    let run = drive(&mut store, m.display_name("alice".to_string()), auth(), true);
    match run.result {
        Ok(Outcome::User(u)) => assert_eq!(u.display_name, "alice"),
        other => panic!("unexpected {:?}", other),
    }
    let stored = stored_alice(&store);
    assert_eq!(stored.display_name, "alice");
    assert_eq!(stored.username, "Alice");
    assert_eq!(stored.updated_at, 100);
    assert_eq!(run.published.len(), 1);
    assert_eq!(run.published[0].subject, format!("user.{}.display_name", ulid_string(ALICE)));
}

#[test]
fn display_name_mismatch_is_rejected_and_unchanged() {
    let mut store = store_with_alice();
    let run = drive(&mut store, UserMutation::new().display_name("Bob".to_string()), auth(), true);
    assert_eq!(run.result.unwrap_err(), MutationError::InvalidInput { field: InputField::DisplayName });
    assert_eq!(run.writes, 0);
    assert_eq!(stored_alice(&store).display_name, "Alice");
    assert!(run.published.is_empty());
}

#[test]
fn wrong_password_leaves_hash_and_sessions() {
    let mut store = store_with_alice();
    let start = UserMutation::new().password("nope".to_string(), "new".to_string());
    let run = drive(&mut store, start, auth(), true);
    assert_eq!(run.result.unwrap_err(), MutationError::InvalidInput { field: InputField::Password });
    assert_eq!(run.writes, 0);
    assert_eq!(stored_alice(&store).password_hash, "hash:secret");
    assert_eq!(store.sessions.len(), 4);
}

#[test]
fn right_password_updates_hash_and_drops_other_sessions() {
    let mut store = store_with_alice();
    let start = UserMutation::new().password("secret".to_string(), "new".to_string());
    let run = drive(&mut store, start, auth(), true);
    assert!(matches!(run.result, Ok(Outcome::User(_))));
    assert_eq!(stored_alice(&store).password_hash, "hash:new");
    assert_eq!(
        store.sessions,
        vec![SessionRecord { id: 2, user_id: ALICE }, SessionRecord { id: 3, user_id: 99 }]
    );
    assert!(run.published.is_empty());
}

#[test]
fn self_follow_is_rejected_whatever_the_state() {
    let mut store = store_with_alice();
    let run = drive(&mut store, UserMutation::new().follow(ALICE, false), auth(), true);
    assert_eq!(run.result.unwrap_err(), MutationError::InvalidInput { field: InputField::ChannelId });
    let run = drive(&mut store, UserMutation::new().follow(ALICE, true), auth(), true);
    assert_eq!(run.result.unwrap_err(), MutationError::InvalidInput { field: InputField::ChannelId });
    assert_eq!(run.writes, 0);
    assert!(store.follows.is_empty());
}

#[test]
fn follow_twice_keeps_one_row_and_publishes_each_time() {
    let mut store = store_with_alice();
    for _ in 0..2 {
        let run = drive(&mut store, UserMutation::new().follow(CHANNEL, true), auth(), true);
        assert!(matches!(run.result, Ok(Outcome::Following(true))));
        assert_eq!(run.published.len(), 2);
        assert_eq!(run.published[1].subject, format!("channel.{}.follows", ulid_string(CHANNEL)));
    }
    assert_eq!(store.follows.len(), 1);
    assert_eq!(store.following(ALICE, CHANNEL), Some(true));
    let run = drive(&mut store, UserMutation::new().follow(CHANNEL, false), auth(), true);
    assert!(matches!(run.result, Ok(Outcome::Following(false))));
    assert_eq!(store.follows.len(), 1);
    assert_eq!(store.following(ALICE, CHANNEL), Some(false));
}

#[test]
fn stale_username_write_conflicts() {
    let mut store = store_with_alice();
    let first = WriteUnit::SetDisplayName {
        user_id: ALICE,
        expected_username: "Alice".to_string(),
        display_name: "ALICE".to_string(),
    };
    let second = WriteUnit::SetDisplayName {
        user_id: ALICE,
        expected_username: "Alicia".to_string(),
        display_name: "ALICIA".to_string(),
    };
    assert!(matches!(store.apply(first, 5), WriteOutput::User(_)));
    assert!(matches!(store.apply(second, 6), WriteOutput::NoRow));
    assert_eq!(stored_alice(&store).display_name, "ALICE");

    let (flow, _) = UserMutation::new().display_name("alice".to_string());
    let (flow, _) = flow.step(Event::Identity(auth()));
    let (flow, action) = flow.step(Event::UserLoaded(Ok(Some(alice()))));
    assert!(matches!(action, Action::Write(WriteUnit::SetDisplayName { .. })));
    let (flow, action) = flow.step(Event::Written(Ok(WriteOutput::NoRow)));
    assert!(matches!(flow.phase, Phase::Done));
    assert!(matches!(action, Action::Finish(Err(MutationError::Conflict))));
}

#[test]
fn email_change_resets_verification() {
    let mut store = store_with_alice();
    let run = drive(&mut store, UserMutation::new().email("a@b.c".to_string()), auth(), true);
    assert!(matches!(run.result, Ok(Outcome::User(_))));
    let u = stored_alice(&store);
    assert_eq!(u.email, "a@b.c");
    assert!(!u.email_verified);
    assert_eq!(u.updated_at, 100);
    assert!(run.published.is_empty());
}

#[test]
fn color_change_is_announced() {
    let mut store = store_with_alice();
    let run = drive(&mut store, UserMutation::new().display_color(-5), auth(), true);
    assert!(matches!(run.result, Ok(Outcome::User(_))));
    assert_eq!(stored_alice(&store).display_color, -5);
    assert_eq!(run.published.len(), 1);
    assert_eq!(run.published[0].subject, format!("user.{}.display_color", ulid_string(ALICE)));
}

#[test]
fn publish_failure_is_reported_after_commit() {
    let mut store = store_with_alice();
    let run = drive(&mut store, UserMutation::new().display_color(9), auth(), false);
    assert_eq!(run.result.unwrap_err(), MutationError::PublishFailure);
    assert_eq!(stored_alice(&store).display_color, 9);
}

#[test]
fn missing_session_is_unauthenticated() {
    let mut store = store_with_alice();
    let run = drive(&mut store, UserMutation::new().email("x@y.z".to_string()), None, true);
    assert_eq!(run.result.unwrap_err(), MutationError::Unauthenticated);
    assert_eq!(run.writes, 0);
}

#[test]
fn missing_user_is_not_found() {
    let mut store = MemStore::new();
    let run = drive(&mut store, UserMutation::new().display_name("x".to_string()), auth(), true);
    assert_eq!(run.result.unwrap_err(), MutationError::NotFound);
    let run = drive(&mut store, UserMutation::new().email("x@y.z".to_string()), auth(), true);
    assert_eq!(run.result.unwrap_err(), MutationError::NotFound);
}

#[test]
fn storage_failures_map_to_errors() {
    let (flow, _) = UserMutation::new().email("x@y.z".to_string());
    let (flow, _) = flow.step(Event::Identity(auth()));
    let (_, action) = flow.step(Event::Written(Err(StoreError::Constraint)));
    assert!(matches!(action, Action::Finish(Err(MutationError::Conflict))));
    let (flow, _) = UserMutation::new().display_name("x".to_string());
    let (flow, _) = flow.step(Event::Identity(auth()));
    assert!(!flow.accepts(&Event::Published(true)));
    let (_, action) = flow.step(Event::UserLoaded(Err(StoreError::Unavailable)));
    assert!(matches!(action, Action::Finish(Err(MutationError::PersistenceFailure))));
}

#[test]
fn duplicate_user_id_is_refused() {
    let mut store = store_with_alice();
    assert!(!store.add_user(alice()));
    assert_eq!(store.users.len(), 1);
}
