//! The rules of the channel namespace: who may read and write a channel,
//! how channels are created, renamed and deleted, where events are
//! broadcast, and how message history is paged. Database results come in
//! as arguments; a database failure becomes `ChannelError::Internal`.
use vstd::prelude::*;

use crate::channel::{Channel, ChannelKind};
use crate::ids;
use crate::session::Timestamp;
use crate::text;

verus! {

/// The room every signed-in connection joins; text-channel events go there.
pub const TEXT_ROOM: &'static str = "text";

/// The name of the personal room of a user: `user:` and the hyphenated id.
pub open spec fn user_room_name(user_id: u128) -> Seq<char> {
    "user:"@ + ids::id_text(user_id)
}

/// The personal room of a user, where direct-message events for that user
/// go.
pub fn user_room(user_id: u128) -> (res: String)
    ensures
        res@ == user_room_name(user_id),
{
    let mut room = String::from_str("user:");
    let id = ids::id_to_text(user_id);
    room.append(id.as_str());
    room
}

/// What a user may do in a channel: read and write a text channel, or take
/// part in a direct-message channel between `low` and `high`.
#[derive(Clone, Copy, Debug, PartialEq, Eq, Structural)]
pub enum ChannelAccess {
    Text,
    Dm { low: u128, high: u128 },
}

/// The rooms to which a channel's events are broadcast: the text room for a
/// text channel, the personal rooms of both participants for a
/// direct-message channel.
pub open spec fn access_rooms(access: ChannelAccess) -> Seq<Seq<char>> {
    match access {
        ChannelAccess::Text => seq!["text"@],
        ChannelAccess::Dm { low, high } => seq![user_room_name(low), user_room_name(high)],
    }
}

impl ChannelAccess {
    pub fn kind(&self) -> (res: ChannelKind)
        ensures
            res == (match *self {
                ChannelAccess::Text => ChannelKind::Text,
                ChannelAccess::Dm { .. } => ChannelKind::Dm,
            }),
    {
        match self {
            ChannelAccess::Text => ChannelKind::Text,
            ChannelAccess::Dm { .. } => ChannelKind::Dm,
        }
    }

    pub fn rooms(&self) -> (res: Vec<String>)
        ensures
            res@.len() == access_rooms(*self).len(),
            forall|i: int| 0 <= i < res@.len() ==> #[trigger] res@[i]@ == access_rooms(*self)[i],
    {
        let mut rooms: Vec<String> = Vec::new();
        match self {
            ChannelAccess::Text => {
                rooms.push(String::from_str(TEXT_ROOM));
            },
            ChannelAccess::Dm { low, high } => {
                rooms.push(user_room(*low));
                rooms.push(user_room(*high));
            },
        }
        rooms
    }
}

#[derive(Debug)]
pub enum ChannelError {
    Unauthenticated,
    BadRequest(&'static str),
    Forbidden,
    NotFound,
    Internal,
}

/// The text of an error, as it is sent to the client.
pub open spec fn error_text(e: ChannelError) -> Seq<char> {
    match e {
        ChannelError::Unauthenticated => "UNAUTHENTICATED"@,
        ChannelError::BadRequest(m) => "BAD_REQUEST: "@ + m@,
        ChannelError::Forbidden => "FORBIDDEN"@,
        ChannelError::NotFound => "NOT_FOUND"@,
        ChannelError::Internal => "INTERNAL"@,
    }
}

impl ChannelError {
    /// The text of the error, as it is sent to the client.
    pub fn reason(&self) -> (res: String)
        ensures
            res@ == error_text(*self),
    {
        match self {
            ChannelError::Unauthenticated => String::from_str("UNAUTHENTICATED"),
            ChannelError::BadRequest(m) => {
                let mut r = String::from_str("BAD_REQUEST: ");
                r.append(m);
                r
            },
            ChannelError::Forbidden => String::from_str("FORBIDDEN"),
            ChannelError::NotFound => String::from_str("NOT_FOUND"),
            ChannelError::Internal => String::from_str("INTERNAL"),
        }
    }
}

/// The signed-in user of a connection, or `Unauthenticated`.
pub fn current_user(user: Option<u128>) -> (res: Result<u128, ChannelError>)
    ensures
        res == match user {
            Some(u) => Ok::<u128, ChannelError>(u),
            None => Err(ChannelError::Unauthenticated),
        },
{
    match user {
        Some(u) => Ok(u),
        None => Err(ChannelError::Unauthenticated),
    }
}

/// The stored facts about a channel that decide access to it.
#[derive(Clone, Copy, Debug)]
pub struct ChannelRow {
    pub kind: ChannelKind,
    pub dm_user_low: Option<u128>,
    pub dm_user_high: Option<u128>,
}

/// The access a user has to a channel, from its stored row: anyone may use
/// a text channel; only its two participants may use a direct-message
/// channel; a direct-message channel without both participants is
/// corrupt.
pub open spec fn channel_access(me: u128, row: Option<ChannelRow>) -> Result<
    ChannelAccess,
    ChannelError,
> {
    match row {
        None => Err(ChannelError::NotFound),
        Some(r) => match r.kind {
            ChannelKind::Text => Ok(ChannelAccess::Text),
            ChannelKind::Dm => match (r.dm_user_low, r.dm_user_high) {
                (Some(low), Some(high)) => if low == me || high == me {
                    Ok(ChannelAccess::Dm { low, high })
                } else {
                    Err(ChannelError::Forbidden)
                },
                _ => Err(ChannelError::Internal),
            },
        },
    }
}

pub fn access_channel(me: u128, row: Option<ChannelRow>) -> (res: Result<
    ChannelAccess,
    ChannelError,
>)
    ensures
        res == channel_access(me, row),
{
    let r = match row {
        None => return Err(ChannelError::NotFound),
        Some(r) => r,
    };
    match r.kind {
        ChannelKind::Text => Ok(ChannelAccess::Text),
        ChannelKind::Dm => match (r.dm_user_low, r.dm_user_high) {
            (Some(low), Some(high)) => {
                if low == me || high == me {
                    Ok(ChannelAccess::Dm { low, high })
                } else {
                    Err(ChannelError::Forbidden)
                }
            },
            _ => Err(ChannelError::Internal),
        },
    }
}

/// Only a participant ever gets access to a direct-message channel, and
/// every participant does.
pub proof fn lemma_dm_access_is_for_participants(me: u128, row: ChannelRow)
    requires
        row.kind == ChannelKind::Dm,
        row.dm_user_low is Some,
        row.dm_user_high is Some,
    ensures
        channel_access(me, Some(row)) is Ok <==> (row.dm_user_low == Some(me) || row.dm_user_high
            == Some(me)),
        channel_access(me, Some(row)) matches Ok(a) ==> access_rooms(a).contains(
            user_room_name(me),
        ),
{
    if channel_access(me, Some(row)) is Ok {
        let low = row.dm_user_low->0;
        let high = row.dm_user_high->0;
        let rooms = access_rooms(ChannelAccess::Dm { low, high });
        if low == me {
            assert(rooms[0] == user_room_name(me));
        } else {
            assert(rooms[1] == user_room_name(me));
        }
    }
}

/// A request to create a channel.
#[derive(Debug)]
pub enum ChannelCreateRequest {
    Dm { other: u128 },
    Text { name: String },
}

/// The participants of a direct-message channel between two users, the
/// smaller id first; nobody can message themselves.
pub open spec fn dm_pair(me: u128, other: u128) -> Result<(u128, u128), ChannelError> {
    if other == me {
        Err(ChannelError::BadRequest("cannot DM yourself"))
    } else if me < other {
        Ok((me, other))
    } else {
        Ok((other, me))
    }
}

pub fn dm_participants(me: u128, other: u128) -> (res: Result<(u128, u128), ChannelError>)
    ensures
        res == dm_pair(me, other),
{
    if other == me {
        return Err(ChannelError::BadRequest("cannot DM yourself"));
    }
    if me < other {
        Ok((me, other))
    } else {
        Ok((other, me))
    }
}

/// Two users have one direct-message channel between them, whoever opens
/// it: the pair is the same both ways, ordered, and made of the two users.
pub proof fn lemma_dm_pair_symmetric(a: u128, b: u128)
    ensures
        dm_pair(a, b) is Ok <==> a != b,
        a != b ==> dm_pair(a, b) == dm_pair(b, a),
        dm_pair(a, b) matches Ok(p) ==> p.0 < p.1 && ((p.0 == a && p.1 == b) || (p.0 == b
            && p.1 == a)),
{
}

/// The name a text channel gets: the requested name trimmed, which must be
/// 1 to 64 characters long.
pub open spec fn channel_name(name: Seq<char>) -> Result<Seq<char>, ChannelError> {
    let t = text::trimmed(name);
    if t.len() == 0 || t.len() > 64 {
        Err(ChannelError::BadRequest("name must be 1-64 chars"))
    } else {
        Ok(t)
    }
}

pub fn validate_channel_name(name: &str) -> (res: Result<&str, ChannelError>)
    ensures
        match channel_name(name@) {
            Ok(t) => res matches Ok(s) && s@ == t,
            Err(e) => res == Err::<&str, ChannelError>(e),
        },
        1 <= text::trimmed(name@).len() <= 64 ==> (res matches Ok(s) && s@ == text::trimmed(
            name@,
        )),
        text::trimmed(name@).len() == 0 || text::trimmed(name@).len() > 64 ==> res == Err::<
            &str,
            ChannelError,
        >(ChannelError::BadRequest("name must be 1-64 chars")),
{
    let trimmed = text::trim(name);
    if trimmed.is_empty() || trimmed.unicode_len() > 64 {
        return Err(ChannelError::BadRequest("name must be 1-64 chars"));
    }
    Ok(trimmed)
}

/// A name is accepted, as its trimmed form, exactly when that trimmed form
/// has 1 to 64 characters, whatever characters they are; a name that
/// neither starts nor ends with white space and has 1 to 64 characters is
/// accepted as it is.
pub proof fn lemma_channel_name_bounds(name: Seq<char>)
    ensures
        1 <= text::trimmed(name).len() <= 64 ==> channel_name(name) == Ok::<
            Seq<char>,
            ChannelError,
        >(text::trimmed(name)),
        text::trimmed(name).len() == 0 || text::trimmed(name).len() > 64 ==> channel_name(name)
            == Err::<Seq<char>, ChannelError>(ChannelError::BadRequest("name must be 1-64 chars")),
        1 <= name.len() <= 64 && !text::is_white_space(name[0]) && !text::is_white_space(
            name.last(),
        ) ==> channel_name(name) == Ok::<Seq<char>, ChannelError>(name),
{
    if name.len() > 0 && !text::is_white_space(name[0]) && !text::is_white_space(name.last()) {
        text::lemma_trimmed_noop(name);
    }
}

/// A valid channel name is accepted as it is when given again.
pub proof fn lemma_channel_name_stable(name: Seq<char>)
    ensures
        channel_name(name) matches Ok(t) ==> channel_name(t) == Ok::<
            Seq<char>,
            ChannelError,
        >(t),
{
    text::lemma_trimmed_idempotent(name);
}

/// Checks a request for a text channel: the creator must hold the role the
/// setting asks for, then the name must be valid.
pub fn check_text_channel(allowed: bool, name: &str) -> (res: Result<&str, ChannelError>)
    ensures
        !allowed ==> res == Err::<&str, ChannelError>(ChannelError::Forbidden),
        allowed ==> match channel_name(name@) {
            Ok(t) => res matches Ok(s) && s@ == t,
            Err(e) => res == Err::<&str, ChannelError>(e),
        },
{
    if !allowed {
        return Err(ChannelError::Forbidden);
    }
    validate_channel_name(name)
}

/// How a write to the database went: the number of rows it changed, a
/// violated uniqueness constraint, or another failure.
#[derive(Clone, Copy, Debug, PartialEq, Eq, Structural)]
pub enum WriteOutcome {
    Done(u64),
    UniqueViolation,
    Failed,
}

/// A new direct-message channel between `low` and `high`.
pub fn dm_channel(channel_id: u128, low: u128, high: u128, created_at: Timestamp) -> (res: Channel)
    ensures
        res.channel_id == channel_id,
        res.kind == ChannelKind::Dm,
        res.name is None,
        res.dm_user_low == Some(low),
        res.dm_user_high == Some(high),
        res.dm_user_low_username is None,
        res.dm_user_high_username is None,
        res.created_at == created_at,
{
    Channel {
        channel_id,
        kind: ChannelKind::Dm,
        name: None,
        dm_user_low: Some(low),
        dm_user_low_username: None,
        dm_user_high: Some(high),
        dm_user_high_username: None,
        created_at,
    }
}

/// A new text channel.
pub fn text_channel(channel_id: u128, name: &str, created_at: Timestamp) -> (res: Channel)
    ensures
        res.channel_id == channel_id,
        res.kind == ChannelKind::Text,
        res.name matches Some(n) && n@ == name@,
        res.dm_user_low is None,
        res.dm_user_high is None,
        res.dm_user_low_username is None,
        res.dm_user_high_username is None,
        res.created_at == created_at,
{
    Channel {
        channel_id,
        kind: ChannelKind::Text,
        name: Some(String::from_str(name)),
        dm_user_low: None,
        dm_user_low_username: None,
        dm_user_high: None,
        dm_user_high_username: None,
        created_at,
    }
}

/// What follows the insert of a new direct-message channel: done, or (when
/// the pair already has a channel) look that channel up, or fail.
#[derive(Debug)]
pub enum DmInsertStep {
    Created(Channel),
    LookUpExisting,
    Failed(ChannelError),
}

pub fn dm_insert_step(outcome: WriteOutcome, new_channel: Channel) -> (res: DmInsertStep)
    ensures
        outcome is Done ==> res == DmInsertStep::Created(new_channel),
        outcome is UniqueViolation ==> res is LookUpExisting,
        outcome is Failed ==> res == DmInsertStep::Failed(ChannelError::Internal),
{
    match outcome {
        WriteOutcome::Done(_) => DmInsertStep::Created(new_channel),
        WriteOutcome::UniqueViolation => DmInsertStep::LookUpExisting,
        WriteOutcome::Failed => DmInsertStep::Failed(ChannelError::Internal),
    }
}

/// The answer to the insert of a new text channel: a name that is already
/// taken is a bad request.
pub fn text_insert_result(outcome: WriteOutcome, new_channel: Channel) -> (res: Result<
    Channel,
    ChannelError,
>)
    ensures
        outcome is Done ==> res == Ok::<Channel, ChannelError>(new_channel),
        outcome is UniqueViolation ==> res == Err::<Channel, ChannelError>(
            ChannelError::BadRequest("channel name already taken"),
        ),
        outcome is Failed ==> res == Err::<Channel, ChannelError>(ChannelError::Internal),
{
    match outcome {
        WriteOutcome::Done(_) => Ok(new_channel),
        WriteOutcome::UniqueViolation => Err(ChannelError::BadRequest("channel name already taken")),
        WriteOutcome::Failed => Err(ChannelError::Internal),
    }
}

/// The other participant of a direct-message channel, seen from `me`: the
/// high participant when `me` is the low one, else the low one.
pub open spec fn other_participant(channel: Channel, me: u128) -> Option<u128> {
    if channel.dm_user_low == Some(me) {
        channel.dm_user_high
    } else {
        channel.dm_user_low
    }
}

/// The rooms told of a newly created channel: everyone for a text channel,
/// the other participant for a direct-message channel (the creator gets the
/// channel in the answer).
pub open spec fn created_rooms(channel: Channel, me: u128) -> Seq<Seq<char>> {
    match channel.kind {
        ChannelKind::Text => seq!["text"@],
        ChannelKind::Dm => match other_participant(channel, me) {
            Some(o) => seq![user_room_name(o)],
            None => Seq::empty(),
        },
    }
}

pub fn created_channel_rooms(channel: &Channel, me: u128) -> (res: Vec<String>)
    ensures
        res@.len() == created_rooms(*channel, me).len(),
        forall|i: int|
            0 <= i < res@.len() ==> #[trigger] res@[i]@ == created_rooms(*channel, me)[i],
{
    let mut rooms: Vec<String> = Vec::new();
    match channel.kind {
        ChannelKind::Text => {
            rooms.push(String::from_str(TEXT_ROOM));
        },
        ChannelKind::Dm => {
            let other = if channel.dm_user_low == Some(me) {
                channel.dm_user_high
            } else {
                channel.dm_user_low
            };
            if let Some(o) = other {
                rooms.push(user_room(o));
            }
        },
    }
    rooms
}

/// A new direct-message channel is announced to the other participant
/// alone, whichever of the two created it.
pub proof fn lemma_dm_creation_notifies_other(low: u128, high: u128, me: u128, channel: Channel)
    requires
        low != high,
        me == low || me == high,
        channel.kind == ChannelKind::Dm,
        channel.dm_user_low == Some(low),
        channel.dm_user_high == Some(high),
    ensures
        created_rooms(channel, me) == seq![user_room_name(if me == low { high } else { low })],
{
}

/// The number of messages a history request returns at most: the requested
/// limit, 50 by default, clamped to 1..=200.
pub open spec fn sync_limit_of(limit: Option<i64>) -> i64 {
    let l = match limit {
        Some(l) => l,
        None => 50,
    };
    if l < 1 {
        1
    } else if l > 200 {
        200
    } else {
        l
    }
}

/// The page size clamps the request: it always lies in 1..=200, a
/// requested size in that range is used as given, asking for more never
/// gives fewer, and no request gives 50 messages.
pub proof fn lemma_sync_limit_clamps(a: i64, b: i64)
    ensures
        1 <= sync_limit_of(Some(a)) <= 200,
        1 <= a <= 200 ==> sync_limit_of(Some(a)) == a,
        a <= b ==> sync_limit_of(Some(a)) <= sync_limit_of(Some(b)),
        a < 1 ==> sync_limit_of(Some(a)) == 1,
        a > 200 ==> sync_limit_of(Some(a)) == 200,
        sync_limit_of(None) == 50,
{
}

pub fn sync_limit(limit: Option<i64>) -> (res: i64)
    ensures
        res == sync_limit_of(limit),
        1 <= res <= 200,
        limit is Some && 1 <= limit->0 <= 200 ==> res == limit->0,
        limit is None ==> res == 50,
        limit matches Some(l) && l < 1 ==> res == 1,
        limit matches Some(l) && l > 200 ==> res == 200,
{
    let l = match limit {
        Some(l) => l,
        None => 50,
    };
    if l < 1 {
        1
    } else if l > 200 {
        200
    } else {
        l
    }
}

/// Puts the rows of a history page in chronological order. Messages after a
/// given sequence number are read oldest first and stay as they are; the
/// latest messages are read newest first and are reversed.
pub fn chronological<T>(since_seq: Option<i64>, rows: Vec<T>) -> (res: Vec<T>)
    ensures
        since_seq is Some ==> res@ == rows@,
        since_seq is None ==> res@ == rows@.reverse(),
{
    if since_seq.is_some() {
        return rows;
    }
    let ghost original = rows@;
    let mut rest = rows;
    let mut out: Vec<T> = Vec::new();
    while rest.len() > 0
        invariant
            original.reverse() == out@ + rest@.reverse(),
        decreases rest@.len(),
    {
        let ghost before = rest@;
        let x = rest.pop().unwrap();
        proof {
            assert(before == rest@.push(x));
            assert(before.reverse() =~= seq![x] + rest@.reverse());
        }
        out.push(x);
        assert(out@ + rest@.reverse() =~= original.reverse());
    }
    assert(rest@.reverse() =~= Seq::<T>::empty());
    assert(out@ =~= original.reverse());
    out
}

/// Whether a user may delete a message: its author always may; in a text
/// channel, so may staff (the admin and moderators).
pub open spec fn may_delete_message(author: u128, me: u128, kind: ChannelKind, staff: bool) -> bool {
    author == me || (kind == ChannelKind::Text && staff)
}

/// Whether deciding on a deletion needs to know if the user is staff: only
/// for someone else's message in a text channel.
pub fn delete_needs_staff_check(author: u128, me: u128, access: &ChannelAccess) -> (res: bool)
    ensures
        res == (author != me && access.kind_spec() == ChannelKind::Text),
{
    author != me && access.kind() == ChannelKind::Text
}

impl ChannelAccess {
    pub open spec fn kind_spec(self) -> ChannelKind {
        match self {
            ChannelAccess::Text => ChannelKind::Text,
            ChannelAccess::Dm { .. } => ChannelKind::Dm,
        }
    }
}

/// Checks the deletion of a message, given its author as stored (`None`
/// when the message is not in the channel).
pub fn check_delete_message(
    author: Option<u128>,
    me: u128,
    access: &ChannelAccess,
    staff: bool,
) -> (res: Result<(), ChannelError>)
    ensures
        author is None ==> res == Err::<(), ChannelError>(ChannelError::NotFound),
        author matches Some(a) ==> (res is Ok <==> may_delete_message(
            a,
            me,
            access.kind_spec(),
            staff,
        )),
        author is Some && res is Err ==> res == Err::<(), ChannelError>(ChannelError::Forbidden),
        author == Some(me) ==> res is Ok,
        author is Some && access is Text && staff ==> res is Ok,
        author matches Some(a) && a != me && (access is Dm || !staff) ==> res == Err::<
            (),
            ChannelError,
        >(ChannelError::Forbidden),
{
    let a = match author {
        None => return Err(ChannelError::NotFound),
        Some(a) => a,
    };
    let allowed = a == me || (access.kind() == ChannelKind::Text && staff);
    if !allowed {
        return Err(ChannelError::Forbidden);
    }
    Ok(())
}

/// In a direct-message channel only the author may delete a message, and
/// the author always may; in a text channel staff may delete any message,
/// and anyone else only their own.
pub proof fn lemma_delete_rules(author: u128, me: u128, kind: ChannelKind, staff: bool)
    ensures
        may_delete_message(author, me, ChannelKind::Text, true),
        !staff ==> (may_delete_message(author, me, kind, staff) <==> author == me),
        may_delete_message(author, author, kind, staff),
        kind == ChannelKind::Dm ==> (may_delete_message(author, me, kind, staff) <==> author
            == me),
{
}

/// Checks a rename: only text channels can be renamed, only by staff, and
/// only to a valid name. Gives the new name.
pub fn check_rename<'a>(access: &ChannelAccess, staff: bool, name: &'a str) -> (res: Result<
    &'a str,
    ChannelError,
>)
    ensures
        access is Dm ==> res == Err::<&str, ChannelError>(
            ChannelError::BadRequest("cannot rename a DM"),
        ),
        access is Text && !staff ==> res == Err::<&str, ChannelError>(ChannelError::Forbidden),
        access is Text && staff ==> match channel_name(name@) {
            Ok(t) => res matches Ok(s) && s@ == t,
            Err(e) => res == Err::<&str, ChannelError>(e),
        },
{
    if let ChannelAccess::Dm { .. } = access {
        return Err(ChannelError::BadRequest("cannot rename a DM"));
    }
    if !staff {
        return Err(ChannelError::Forbidden);
    }
    validate_channel_name(name)
}

/// The answer to the rename of a text channel: exactly one row must change;
/// a name that is already taken is a bad request.
pub fn rename_result(outcome: WriteOutcome) -> (res: Result<(), ChannelError>)
    ensures
        outcome == WriteOutcome::Done(1) ==> res is Ok,
        outcome matches WriteOutcome::Done(n) && n != 1 ==> res == Err::<(), ChannelError>(
            ChannelError::NotFound,
        ),
        outcome is UniqueViolation ==> res == Err::<(), ChannelError>(
            ChannelError::BadRequest("channel name already taken"),
        ),
        outcome is Failed ==> res == Err::<(), ChannelError>(ChannelError::Internal),
{
    match outcome {
        WriteOutcome::Done(n) => if n == 1 {
            Ok(())
        } else {
            Err(ChannelError::NotFound)
        },
        WriteOutcome::UniqueViolation => Err(ChannelError::BadRequest("channel name already taken")),
        WriteOutcome::Failed => Err(ChannelError::Internal),
    }
}

/// The room told of a rename or a deletion: the text room when it went
/// through (only text channels can be renamed or deleted), nobody when it
/// failed.
pub fn broadcast_room_for_change<T>(result: &Result<T, ChannelError>) -> (res: Option<
    &'static str,
>)
    ensures
        result is Ok ==> res == Some(TEXT_ROOM),
        result is Err ==> res is None,
{
    match result {
        Ok(_) => Some(TEXT_ROOM),
        Err(_) => None,
    }
}

/// Checks the deletion of a channel: only text channels, only by staff.
pub fn check_channel_delete(access: &ChannelAccess, staff: bool) -> (res: Result<(), ChannelError>)
    ensures
        access is Dm ==> res == Err::<(), ChannelError>(
            ChannelError::BadRequest("cannot delete a DM"),
        ),
        access is Text && !staff ==> res == Err::<(), ChannelError>(ChannelError::Forbidden),
        access is Text && staff ==> res is Ok,
{
    if let ChannelAccess::Dm { .. } = access {
        return Err(ChannelError::BadRequest("cannot delete a DM"));
    }
    if !staff {
        return Err(ChannelError::Forbidden);
    }
    Ok(())
}

/// The answer to the deletion of a channel: exactly one row must go.
pub fn delete_result(rows_affected: Result<u64, ()>) -> (res: Result<(), ChannelError>)
    ensures
        rows_affected == Ok::<u64, ()>(1) ==> res is Ok,
        rows_affected is Ok && rows_affected->Ok_0 != 1 ==> res == Err::<(), ChannelError>(
            ChannelError::NotFound,
        ),
        rows_affected is Err ==> res == Err::<(), ChannelError>(ChannelError::Internal),
{
    match rows_affected {
        Ok(n) => if n == 1 {
            Ok(())
        } else {
            Err(ChannelError::NotFound)
        },
        Err(_) => Err(ChannelError::Internal),
    }
}

#[derive(Debug)]
pub enum ChannelDeleteMessageResponse {
    Success,
    Error { reason: String },
}

#[derive(Debug)]
pub enum ChannelDeleteResponse {
    Success,
    Error { reason: String },
}

impl ChannelDeleteMessageResponse {
    /// The answer for the outcome of a message deletion.
    pub fn from_result(r: Result<(), ChannelError>) -> (res: Self)
        ensures
            r is Ok ==> res is Success,
            r matches Err(e) ==> res matches ChannelDeleteMessageResponse::Error { reason }
                && reason@ == error_text(e),
    {
        match r {
            Ok(()) => ChannelDeleteMessageResponse::Success,
            Err(e) => ChannelDeleteMessageResponse::Error { reason: e.reason() },
        }
    }
}

impl ChannelDeleteResponse {
    /// The answer for the outcome of a channel deletion.
    pub fn from_result(r: Result<(), ChannelError>) -> (res: Self)
        ensures
            r is Ok ==> res is Success,
            r matches Err(e) ==> res matches ChannelDeleteResponse::Error { reason } && reason@
                == error_text(e),
    {
        match r {
            Ok(()) => ChannelDeleteResponse::Success,
            Err(e) => ChannelDeleteResponse::Error { reason: e.reason() },
        }
    }
}

} // verus!
