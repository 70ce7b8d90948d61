use vstd::prelude::*;
use vstd::utf8::encode_utf8;
use crate::ulid::{ulid_string, ulid_text};

verus! {

/// The LEB128 bytes of `v`: seven bits per byte, low bits first, the high bit
/// set on every byte but the last.
pub open spec fn varint(v: nat) -> Seq<u8>
    decreases v,
{
    if v < 128 {
        seq![v as u8]
    } else {
        seq![((v % 128) + 128) as u8] + varint(v / 128)
    }
}

/// The key of a field: its tag and wire type in one varint.
pub open spec fn field_key(tag: u32, wire_type: nat) -> Seq<u8> {
    varint((tag as nat) * 8 + wire_type)
}

/// A length-delimited field holding the UTF-8 bytes of `s`.
pub open spec fn string_field(tag: u32, s: Seq<char>) -> Seq<u8> {
    field_key(tag, 2) + varint(encode_utf8(s).len()) + encode_utf8(s)
}

/// A varint field holding an `int32`; a negative value is sign-extended to
/// 64 bits first.
pub open spec fn int32_field(tag: u32, v: i32) -> Seq<u8> {
    field_key(tag, 0) + varint(if v >= 0 { v as nat } else { (v + 0x1_0000_0000_0000_0000) as nat })
}

/// A varint field holding a `bool` as 0 or 1.
pub open spec fn bool_field(tag: u32, v: bool) -> Seq<u8> {
    field_key(tag, 0) + varint(if v { 1 } else { 0 })
}

pub open spec fn valid_tag(tag: u32) -> bool {
    1 <= tag < 0x2000_0000
}

/// Relies on prost::encoding::string::encode: key, byte length as a varint,
/// then the bytes, appended to the buffer.
#[verifier::external_body]
fn put_string(tag: u32, value: &String, buf: &mut Vec<u8>)
    requires
        valid_tag(tag),
    ensures
        final(buf)@ == old(buf)@ + string_field(tag, value@),
{
    prost::encoding::string::encode(tag, value, buf)
}

/// Relies on prost::encoding::int32::encode: key, then the value widened to
/// 64 bits as a varint, appended to the buffer.
#[verifier::external_body]
fn put_int32(tag: u32, value: i32, buf: &mut Vec<u8>)
    requires
        valid_tag(tag),
    ensures
        final(buf)@ == old(buf)@ + int32_field(tag, value),
{
    prost::encoding::int32::encode(tag, &value, buf)
}

/// Relies on prost::encoding::bool::encode: key, then 0 or 1, appended to the
/// buffer.
#[verifier::external_body]
fn put_bool(tag: u32, value: bool, buf: &mut Vec<u8>)
    requires
        valid_tag(tag),
    ensures
        final(buf)@ == old(buf)@ + bool_field(tag, value),
{
    prost::encoding::bool::encode(tag, &value, buf)
}

/// A proto3 string field: left out when it holds the empty string.
pub open spec fn opt_string_field(tag: u32, s: Seq<char>) -> Seq<u8> {
    if s.len() == 0 { Seq::empty() } else { string_field(tag, s) }
}

/// A proto3 `int32` field: left out when it holds zero.
pub open spec fn opt_int32_field(tag: u32, v: i32) -> Seq<u8> {
    if v == 0 { Seq::empty() } else { int32_field(tag, v) }
}

/// A proto3 `bool` field: left out when it holds `false`.
pub open spec fn opt_bool_field(tag: u32, v: bool) -> Seq<u8> {
    if v { bool_field(tag, v) } else { Seq::empty() }
}

/// What the library announces after a committed write.
#[derive(Debug, PartialEq, Eq)]
pub enum DomainEvent {
    DisplayNameChanged { user_id: u128, display_name: String },
    DisplayColorChanged { user_id: u128, display_color: i32 },
    FollowChanged { user_id: u128, channel_id: u128, following: bool },
}

/// One message to broadcast: where it goes and its encoded body.
#[derive(Debug, PartialEq, Eq)]
pub struct Publication {
    pub subject: String,
    pub payload: Vec<u8>,
}

/// `<entity-kind>.<entity-id>.<event-kind>`.
pub open spec fn subject_text(entity: Seq<char>, id: u128, kind: Seq<char>) -> Seq<char> {
    entity + seq!['.'] + ulid_text(id) + seq!['.'] + kind
}

/// The message body of an event, in protobuf wire format with the fields
/// numbered in the order they are listed.
pub open spec fn payload_bytes(e: DomainEvent) -> Seq<u8> {
    match e {
        DomainEvent::DisplayNameChanged { user_id, display_name } =>
            opt_string_field(1, ulid_text(user_id)) + opt_string_field(2, display_name@),
        DomainEvent::DisplayColorChanged { user_id, display_color } =>
            opt_string_field(1, ulid_text(user_id)) + opt_int32_field(2, display_color),
        DomainEvent::FollowChanged { user_id, channel_id, following } =>
            opt_string_field(1, ulid_text(user_id)) + opt_string_field(2, ulid_text(channel_id))
                + opt_bool_field(3, following),
    }
}

/// The subjects an event goes to, in publishing order.
pub open spec fn event_subjects(e: DomainEvent) -> Seq<Seq<char>> {
    match e {
        DomainEvent::DisplayNameChanged { user_id, .. } =>
            seq![subject_text("user"@, user_id, "display_name"@)],
        DomainEvent::DisplayColorChanged { user_id, .. } =>
            seq![subject_text("user"@, user_id, "display_color"@)],
        DomainEvent::FollowChanged { user_id, channel_id, .. } =>
            seq![
                subject_text("user"@, user_id, "follows"@),
                subject_text("channel"@, channel_id, "follows"@),
            ],
    }
}

fn put_opt_string(tag: u32, value: &String, buf: &mut Vec<u8>)
    requires
        valid_tag(tag),
    ensures
        final(buf)@ == old(buf)@ + opt_string_field(tag, value@),
{
    if value.as_str().is_empty() {
        assert(old(buf)@ + Seq::<u8>::empty() =~= old(buf)@);
    } else {
        put_string(tag, value, buf);
    }
}

fn subject(entity: &str, id: u128, kind: &str) -> (r: String)
    ensures
        r@ == subject_text(entity@, id, kind@),
{
    let mut s = String::from_str(entity);
    s.append(".");
    s.append(ulid_string(id).as_str());
    s.append(".");
    s.append(kind);
    proof {
        reveal_strlit(".");
    }
    s
}

impl DomainEvent {
    /// The encoded message body of this event.
    pub fn payload(&self) -> (r: Vec<u8>)
        ensures
            r@ == payload_bytes(*self),
    {
        let mut buf: Vec<u8> = Vec::new();
        match self {
            DomainEvent::DisplayNameChanged { user_id, display_name } => {
                put_opt_string(1, &ulid_string(*user_id), &mut buf);
                put_opt_string(2, display_name, &mut buf);
            },
            DomainEvent::DisplayColorChanged { user_id, display_color } => {
                put_opt_string(1, &ulid_string(*user_id), &mut buf);
                if *display_color != 0 {
                    put_int32(2, *display_color, &mut buf);
                }
            },
            DomainEvent::FollowChanged { user_id, channel_id, following } => {
                put_opt_string(1, &ulid_string(*user_id), &mut buf);
                put_opt_string(2, &ulid_string(*channel_id), &mut buf);
                if *following {
                    put_bool(3, true, &mut buf);
                }
            },
        }
        assert(buf@ =~= payload_bytes(*self));
        buf
    }

    /// The messages that announce this event: one per subject, all with the
    /// same body.
    pub fn publications(&self) -> (r: Vec<Publication>)
        ensures
            r@.len() == event_subjects(*self).len(),
            forall|i: int| 0 <= i < r@.len() ==> {
                &&& (#[trigger] r@[i]).subject@ == event_subjects(*self)[i]
                &&& r@[i].payload@ == payload_bytes(*self)
            },
    {
        let payload = self.payload();
        let mut out: Vec<Publication> = Vec::new();
        match self {
            DomainEvent::DisplayNameChanged { user_id, .. } => {
                out.push(Publication { subject: subject("user", *user_id, "display_name"), payload });
            },
            DomainEvent::DisplayColorChanged { user_id, .. } => {
                out.push(Publication { subject: subject("user", *user_id, "display_color"), payload });
            },
            DomainEvent::FollowChanged { user_id, channel_id, .. } => {
                let first = Publication { subject: subject("user", *user_id, "follows"), payload: payload.clone() };
                out.push(first);
                out.push(Publication { subject: subject("channel", *channel_id, "follows"), payload });
            },
        }
        out
    }
}

} // verus!
