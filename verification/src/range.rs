//! The `range` command: listing, reading, changing and erasing locking
//! ranges.
use crate::uid::{uid_argument, uid_arguments_view, UidArgument, UidRole, UID};
use vstd::prelude::*;

verus! {

/// The arguments of the `range` command.
pub struct RangeArgs {
    pub command: RangeCommand,
    /// The device to query (e.g., /dev/nvme0).
    pub device: String,
    /// Admin1 password (SID).
    pub password: String,
}

/// The sub-commands of the `range` command; UIDs are hexadecimal text.
pub enum RangeCommand {
    /// List all locking ranges.
    List,
    /// Get details of a locking range.
    Get { uid: String },
    /// Set properties of a locking range.
    SetRange {
        uid: String,
        range_start: Option<u64>,
        range_length: Option<u64>,
        read_lock_enabled: Option<bool>,
        write_lock_enabled: Option<bool>,
        read_locked: Option<bool>,
        write_locked: Option<bool>,
    },
    /// Cryptographically erase a locking range.
    Erase { uid: String },
}

/// The settings of a locking range that the `range set` command can change.
#[derive(Clone, Copy, Debug, PartialEq, Eq, Structural)]
pub struct LockingRangeSettings {
    pub range_start: u64,
    pub range_length: u64,
    pub read_lock_enabled: bool,
    pub write_lock_enabled: bool,
    pub read_locked: bool,
    pub write_locked: bool,
}

/// The settings that a `range set` command gives; `None` leaves a setting
/// as it is.
#[derive(Clone, Copy, Debug, PartialEq, Eq, Structural)]
pub struct RangeUpdate {
    pub range_start: Option<u64>,
    pub range_length: Option<u64>,
    pub read_lock_enabled: Option<bool>,
    pub write_lock_enabled: Option<bool>,
    pub read_locked: Option<bool>,
    pub write_locked: Option<bool>,
}

/// What a `range` command asks of the device, with its UID parsed.
#[derive(Clone, Copy, Debug, PartialEq, Eq, Structural)]
pub enum RangeRequest {
    List,
    Get(UID),
    Update(UID, RangeUpdate),
    Erase(UID),
}

/// The new value of a setting: the given one, or else the old one.
pub open spec fn updated<T>(old: T, new: Option<T>) -> T {
    match new {
        Some(v) => v,
        None => old,
    }
}

/// The settings after an update.
pub open spec fn spec_apply_range_update(s: LockingRangeSettings, u: RangeUpdate) -> LockingRangeSettings {
    LockingRangeSettings {
        range_start: updated(s.range_start, u.range_start),
        range_length: updated(s.range_length, u.range_length),
        read_lock_enabled: updated(s.read_lock_enabled, u.read_lock_enabled),
        write_lock_enabled: updated(s.write_lock_enabled, u.write_lock_enabled),
        read_locked: updated(s.read_locked, u.read_locked),
        write_locked: updated(s.write_locked, u.write_locked),
    }
}

/// The update that gives no setting.
pub open spec fn empty_update() -> RangeUpdate {
    RangeUpdate {
        range_start: None,
        range_length: None,
        read_lock_enabled: None,
        write_lock_enabled: None,
        read_locked: None,
        write_locked: None,
    }
}

/// The later of two given values of a setting.
pub open spec fn later<T>(first: Option<T>, second: Option<T>) -> Option<T> {
    match second {
        Some(v) => Some(v),
        None => first,
    }
}

/// One update that does what `first` and then `second` do.
pub open spec fn combine_updates(first: RangeUpdate, second: RangeUpdate) -> RangeUpdate {
    RangeUpdate {
        range_start: later(first.range_start, second.range_start),
        range_length: later(first.range_length, second.range_length),
        read_lock_enabled: later(first.read_lock_enabled, second.read_lock_enabled),
        write_lock_enabled: later(first.write_lock_enabled, second.write_lock_enabled),
        read_locked: later(first.read_locked, second.read_locked),
        write_locked: later(first.write_locked, second.write_locked),
    }
}

fn update_u64(old: u64, new: Option<u64>) -> (r: u64)
    ensures
        r == updated(old, new),
{
    match new {
        Some(v) => v,
        None => old,
    }
}

fn update_bool(old: bool, new: Option<bool>) -> (r: bool)
    ensures
        r == updated(old, new),
{
    match new {
        Some(v) => v,
        None => old,
    }
}

/// Applies the settings that an update gives, keeping the others.
pub fn apply_range_update(settings: &mut LockingRangeSettings, update: &RangeUpdate)
    ensures
        *final(settings) == spec_apply_range_update(*old(settings), *update),
{
    settings.range_start = update_u64(settings.range_start, update.range_start);
    settings.range_length = update_u64(settings.range_length, update.range_length);
    settings.read_lock_enabled = update_bool(settings.read_lock_enabled, update.read_lock_enabled);
    settings.write_lock_enabled = update_bool(
        settings.write_lock_enabled,
        update.write_lock_enabled,
    );
    settings.read_locked = update_bool(settings.read_locked, update.read_locked);
    settings.write_locked = update_bool(settings.write_locked, update.write_locked);
}

/// Law: each setting of the result is the value that the update gives for
/// that same setting, or else the setting's old value; no setting takes
/// another setting's value.
pub proof fn law_range_update_sets_each_field(s: LockingRangeSettings, u: RangeUpdate)
    ensures
        u.range_start matches Some(v) ==> spec_apply_range_update(s, u).range_start == v,
        u.range_start is None ==> spec_apply_range_update(s, u).range_start == s.range_start,
        u.range_length matches Some(v) ==> spec_apply_range_update(s, u).range_length == v,
        u.range_length is None ==> spec_apply_range_update(s, u).range_length == s.range_length,
        u.read_lock_enabled matches Some(v) ==> spec_apply_range_update(s, u).read_lock_enabled == v,
        u.read_lock_enabled is None ==> spec_apply_range_update(s, u).read_lock_enabled == s.read_lock_enabled,
        u.write_lock_enabled matches Some(v) ==> spec_apply_range_update(s, u).write_lock_enabled == v,
        u.write_lock_enabled is None ==> spec_apply_range_update(s, u).write_lock_enabled == s.write_lock_enabled,
        u.read_locked matches Some(v) ==> spec_apply_range_update(s, u).read_locked == v,
        u.read_locked is None ==> spec_apply_range_update(s, u).read_locked == s.read_locked,
        u.write_locked matches Some(v) ==> spec_apply_range_update(s, u).write_locked == v,
        u.write_locked is None ==> spec_apply_range_update(s, u).write_locked == s.write_locked,
{
}

/// Law: a setting of the result depends only on the old value of that
/// setting and on what the update gives for it: two updates that agree on a
/// setting give that setting the same value, whatever they give elsewhere.
pub proof fn law_range_update_fields_independent(
    s1: LockingRangeSettings,
    s2: LockingRangeSettings,
    u1: RangeUpdate,
    u2: RangeUpdate,
)
    ensures
        s1.range_start == s2.range_start && u1.range_start == u2.range_start ==> spec_apply_range_update(s1, u1).range_start
            == spec_apply_range_update(s2, u2).range_start,
        s1.range_length == s2.range_length && u1.range_length == u2.range_length ==> spec_apply_range_update(s1, u1).range_length
            == spec_apply_range_update(s2, u2).range_length,
        s1.read_lock_enabled == s2.read_lock_enabled && u1.read_lock_enabled == u2.read_lock_enabled ==> spec_apply_range_update(s1, u1).read_lock_enabled
            == spec_apply_range_update(s2, u2).read_lock_enabled,
        s1.write_lock_enabled == s2.write_lock_enabled && u1.write_lock_enabled == u2.write_lock_enabled ==> spec_apply_range_update(s1, u1).write_lock_enabled
            == spec_apply_range_update(s2, u2).write_lock_enabled,
        s1.read_locked == s2.read_locked && u1.read_locked == u2.read_locked ==> spec_apply_range_update(s1, u1).read_locked
            == spec_apply_range_update(s2, u2).read_locked,
        s1.write_locked == s2.write_locked && u1.write_locked == u2.write_locked ==> spec_apply_range_update(s1, u1).write_locked
            == spec_apply_range_update(s2, u2).write_locked,
{
}

/// Law: an update that gives no setting changes nothing.
pub proof fn law_empty_update_changes_nothing(s: LockingRangeSettings)
    ensures
        spec_apply_range_update(s, empty_update()) == s,
{
}

/// Law: applying the same update twice is the same as applying it once.
pub proof fn law_range_update_idempotent(s: LockingRangeSettings, u: RangeUpdate)
    ensures
        spec_apply_range_update(spec_apply_range_update(s, u), u) == spec_apply_range_update(s, u),
{
}

/// Law: two updates in a row act as one update in which the later of two
/// given values wins.
pub proof fn law_range_updates_compose(s: LockingRangeSettings, first: RangeUpdate, second: RangeUpdate)
    ensures
        spec_apply_range_update(spec_apply_range_update(s, first), second)
            == spec_apply_range_update(s, combine_updates(first, second)),
{
}

/// The update that a `range set` command gives.
pub open spec fn spec_set_update(c: RangeCommand) -> RangeUpdate {
    match c {
        RangeCommand::SetRange {
            range_start,
            range_length,
            read_lock_enabled,
            write_lock_enabled,
            read_locked,
            write_locked,
            ..
        } => RangeUpdate {
            range_start,
            range_length,
            read_lock_enabled,
            write_lock_enabled,
            read_locked,
            write_locked,
        },
        _ => empty_update(),
    }
}

/// The UID arguments of a `range` command, in the order they are checked.
pub open spec fn spec_range_uid_arguments(c: RangeCommand) -> Seq<(UidRole, Seq<char>)> {
    match c {
        RangeCommand::List => Seq::empty(),
        RangeCommand::Get { uid } => seq![(UidRole::Range, uid@)],
        RangeCommand::SetRange { uid, .. } => seq![(UidRole::Range, uid@)],
        RangeCommand::Erase { uid } => seq![(UidRole::Range, uid@)],
    }
}

/// The request of a `range` command, given its UID arguments parsed.
pub open spec fn spec_range_request(c: RangeCommand, uids: Seq<UID>) -> RangeRequest {
    match c {
        RangeCommand::List => RangeRequest::List,
        RangeCommand::Get { .. } => RangeRequest::Get(uids[0]),
        RangeCommand::SetRange { .. } => RangeRequest::Update(uids[0], spec_set_update(c)),
        RangeCommand::Erase { .. } => RangeRequest::Erase(uids[0]),
    }
}

/// Law: the one UID argument of a `range` sub-command is its `uid`, checked
/// as a locking range; `range set` asks to update that range with exactly
/// the settings the command gives; `get` and `erase` ask for that range.
pub proof fn law_range_command_request(c: RangeCommand, uids: Seq<UID>)
    requires
        uids.len() == spec_range_uid_arguments(c).len(),
    ensures
        c is List ==> spec_range_uid_arguments(c).len() == 0 && spec_range_request(c, uids)
            == RangeRequest::List,
        c matches RangeCommand::Get { uid } ==> spec_range_uid_arguments(c) == seq![
            (UidRole::Range, uid@),
        ] && spec_range_request(c, uids) == RangeRequest::Get(uids[0]),
        c matches RangeCommand::Erase { uid } ==> spec_range_uid_arguments(c) == seq![
            (UidRole::Range, uid@),
        ] && spec_range_request(c, uids) == RangeRequest::Erase(uids[0]),
        c matches RangeCommand::SetRange {
            uid,
            range_start,
            range_length,
            read_lock_enabled,
            write_lock_enabled,
            read_locked,
            write_locked,
        } ==> {
            &&& spec_range_uid_arguments(c) == seq![(UidRole::Range, uid@)]
            &&& spec_range_request(c, uids) matches RangeRequest::Update(r, u)
            &&& r == uids[0]
            &&& u.range_start == range_start
            &&& u.range_length == range_length
            &&& u.read_lock_enabled == read_lock_enabled
            &&& u.write_lock_enabled == write_lock_enabled
            &&& u.read_locked == read_locked
            &&& u.write_locked == write_locked
        },
{
}

impl RangeCommand {
    /// The UID arguments of the command, in the order they are checked.
    pub fn uid_arguments(&self) -> (r: Vec<UidArgument>)
        ensures
            uid_arguments_view(r@) == spec_range_uid_arguments(*self),
    {
        let mut r: Vec<UidArgument> = Vec::new();
        match self {
            RangeCommand::List => {},
            RangeCommand::Get { uid } => r.push(uid_argument(UidRole::Range, uid)),
            RangeCommand::SetRange { uid, .. } => r.push(uid_argument(UidRole::Range, uid)),
            RangeCommand::Erase { uid } => r.push(uid_argument(UidRole::Range, uid)),
        }
        assert(uid_arguments_view(r@) =~= spec_range_uid_arguments(*self));
        r
    }

    /// The request of the command, given its UID arguments parsed, in order.
    pub fn request(&self, uids: &Vec<UID>) -> (r: RangeRequest)
        requires
            uids@.len() == spec_range_uid_arguments(*self).len(),
        ensures
            r == spec_range_request(*self, uids@),
    {
        match self {
            RangeCommand::List => RangeRequest::List,
            RangeCommand::Get { .. } => RangeRequest::Get(uids[0]),
            RangeCommand::SetRange {
                range_start,
                range_length,
                read_lock_enabled,
                write_lock_enabled,
                read_locked,
                write_locked,
                ..
            } => RangeRequest::Update(
                uids[0],
                RangeUpdate {
                    range_start: *range_start,
                    range_length: *range_length,
                    read_lock_enabled: *read_lock_enabled,
                    write_lock_enabled: *write_lock_enabled,
                    read_locked: *read_locked,
                    write_locked: *write_locked,
                },
            ),
            RangeCommand::Erase { .. } => RangeRequest::Erase(uids[0]),
        }
    }
}

} // verus!
