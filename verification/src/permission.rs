//! The `permission` command: reading and changing which user may read,
//! write or shadow what.
use crate::uid::{uid_argument, uid_arguments_view, UidArgument, UidRole, UID};
use vstd::prelude::*;

verus! {

/// The arguments of the `permission` command.
pub struct PermissionArgs {
    pub command: PermissionCommand,
    /// The device to query (e.g., /dev/nvme0).
    pub device: String,
    /// Admin1 password (SID).
    pub password: String,
}

/// The sub-commands of the `permission` command; UIDs are hexadecimal text.
pub enum PermissionCommand {
    /// List users available for permission editing.
    ListUsers,
    /// List ranges available for permission editing.
    ListRanges,
    /// Get MBR permission for a user.
    GetMbr { user_uid: String },
    /// Get read permission for a user on a range.
    GetRead { user_uid: String, range_uid: String },
    /// Get write permission for a user on a range.
    GetWrite { user_uid: String, range_uid: String },
    /// Set MBR permission for a user.
    SetMbr { user_uid: String, allow: bool },
    /// Set read permission for a user on a range.
    SetRead { user_uid: String, range_uid: String, allow: bool },
    /// Set write permission for a user on a range.
    SetWrite { user_uid: String, range_uid: String, allow: bool },
}

/// What a `permission` command asks of the device, with its UIDs parsed.
#[derive(Clone, Copy, Debug, PartialEq, Eq, Structural)]
pub enum PermissionRequest {
    ListUsers,
    ListRanges,
    GetMbr { user: UID },
    GetRead { user: UID, range: UID },
    GetWrite { user: UID, range: UID },
    SetMbr { user: UID, allow: bool },
    SetRead { user: UID, range: UID, allow: bool },
    SetWrite { user: UID, range: UID, allow: bool },
}

/// The UID arguments of a `permission` command, in the order they are
/// checked: the user first, then the range.
pub open spec fn spec_permission_uid_arguments(c: PermissionCommand) -> Seq<(UidRole, Seq<char>)> {
    match c {
        PermissionCommand::ListUsers => Seq::empty(),
        PermissionCommand::ListRanges => Seq::empty(),
        PermissionCommand::GetMbr { user_uid } => seq![(UidRole::User, user_uid@)],
        PermissionCommand::GetRead { user_uid, range_uid } => seq![
            (UidRole::User, user_uid@),
            (UidRole::Range, range_uid@),
        ],
        PermissionCommand::GetWrite { user_uid, range_uid } => seq![
            (UidRole::User, user_uid@),
            (UidRole::Range, range_uid@),
        ],
        PermissionCommand::SetMbr { user_uid, .. } => seq![(UidRole::User, user_uid@)],
        PermissionCommand::SetRead { user_uid, range_uid, .. } => seq![
            (UidRole::User, user_uid@),
            (UidRole::Range, range_uid@),
        ],
        PermissionCommand::SetWrite { user_uid, range_uid, .. } => seq![
            (UidRole::User, user_uid@),
            (UidRole::Range, range_uid@),
        ],
    }
}

/// The request of a `permission` command, given its UID arguments parsed.
pub open spec fn spec_permission_request(c: PermissionCommand, uids: Seq<UID>) -> PermissionRequest {
    match c {
        PermissionCommand::ListUsers => PermissionRequest::ListUsers,
        PermissionCommand::ListRanges => PermissionRequest::ListRanges,
        PermissionCommand::GetMbr { .. } => PermissionRequest::GetMbr { user: uids[0] },
        PermissionCommand::GetRead { .. } => PermissionRequest::GetRead {
            user: uids[0],
            range: uids[1],
        },
        PermissionCommand::GetWrite { .. } => PermissionRequest::GetWrite {
            user: uids[0],
            range: uids[1],
        },
        PermissionCommand::SetMbr { allow, .. } => PermissionRequest::SetMbr {
            user: uids[0],
            allow,
        },
        PermissionCommand::SetRead { allow, .. } => PermissionRequest::SetRead {
            user: uids[0],
            range: uids[1],
            allow,
        },
        PermissionCommand::SetWrite { allow, .. } => PermissionRequest::SetWrite {
            user: uids[0],
            range: uids[1],
            allow,
        },
    }
}

/// The allow flag that a `permission set-*` sub-command gives.
pub open spec fn command_allow(c: PermissionCommand) -> Option<bool> {
    match c {
        PermissionCommand::SetMbr { allow, .. } => Some(allow),
        PermissionCommand::SetRead { allow, .. } => Some(allow),
        PermissionCommand::SetWrite { allow, .. } => Some(allow),
        _ => None,
    }
}

/// The allow flag that a request carries.
pub open spec fn request_allow(r: PermissionRequest) -> Option<bool> {
    match r {
        PermissionRequest::SetMbr { allow, .. } => Some(allow),
        PermissionRequest::SetRead { allow, .. } => Some(allow),
        PermissionRequest::SetWrite { allow, .. } => Some(allow),
        _ => None,
    }
}

/// The user that a request names.
pub open spec fn request_user(r: PermissionRequest) -> Option<UID> {
    match r {
        PermissionRequest::GetMbr { user } => Some(user),
        PermissionRequest::GetRead { user, .. } => Some(user),
        PermissionRequest::GetWrite { user, .. } => Some(user),
        PermissionRequest::SetMbr { user, .. } => Some(user),
        PermissionRequest::SetRead { user, .. } => Some(user),
        PermissionRequest::SetWrite { user, .. } => Some(user),
        _ => None,
    }
}

/// The locking range that a request names.
pub open spec fn request_range(r: PermissionRequest) -> Option<UID> {
    match r {
        PermissionRequest::GetRead { range, .. } => Some(range),
        PermissionRequest::GetWrite { range, .. } => Some(range),
        PermissionRequest::SetRead { range, .. } => Some(range),
        PermissionRequest::SetWrite { range, .. } => Some(range),
        _ => None,
    }
}

/// Law: a request grants or revokes exactly as the command says: its allow
/// flag is the command's, and only `set-*` commands carry one.
pub proof fn law_permission_request_keeps_allow(c: PermissionCommand, uids: Seq<UID>)
    requires
        uids.len() == spec_permission_uid_arguments(c).len(),
    ensures
        request_allow(spec_permission_request(c, uids)) == command_allow(c),
{
}

/// Law: the user of a request is the UID parsed from the argument checked as
/// a user, and its range the UID parsed from the argument checked as a
/// range; a request names a user or range only when the command has such an
/// argument.
pub proof fn law_permission_request_uses_parsed_uids(c: PermissionCommand, uids: Seq<UID>, k: int)
    requires
        uids.len() == spec_permission_uid_arguments(c).len(),
    ensures
        0 <= k < uids.len() && spec_permission_uid_arguments(c)[k].0 == UidRole::User
            ==> request_user(spec_permission_request(c, uids)) == Some(uids[k]),
        0 <= k < uids.len() && spec_permission_uid_arguments(c)[k].0 == UidRole::Range
            ==> request_range(spec_permission_request(c, uids)) == Some(uids[k]),
        (request_user(spec_permission_request(c, uids)) is Some) <==> (exists|j: int|
            0 <= j < uids.len() && #[trigger] spec_permission_uid_arguments(c)[j].0
                == UidRole::User),
        (request_range(spec_permission_request(c, uids)) is Some) <==> (exists|j: int|
            0 <= j < uids.len() && #[trigger] spec_permission_uid_arguments(c)[j].0
                == UidRole::Range),
{
    let a = spec_permission_uid_arguments(c);
    if a.len() >= 1 {
        assert(a[0].0 == UidRole::User);
    }
    if a.len() == 2 {
        assert(a[1].0 == UidRole::Range);
    }
}

/// Law: the UID arguments of each `permission` sub-command are its own UID
/// fields, the user before the range, and the request is of the same kind
/// as the sub-command.
pub proof fn law_permission_command_request(c: PermissionCommand, uids: Seq<UID>)
    requires
        uids.len() == spec_permission_uid_arguments(c).len(),
    ensures
        c is ListUsers ==> spec_permission_request(c, uids) == PermissionRequest::ListUsers,
        c is ListRanges ==> spec_permission_request(c, uids) == PermissionRequest::ListRanges,
        c matches PermissionCommand::GetMbr { user_uid } ==> spec_permission_uid_arguments(c)
            == seq![(UidRole::User, user_uid@)] && spec_permission_request(c, uids)
            == (PermissionRequest::GetMbr { user: uids[0] }),
        c matches PermissionCommand::SetMbr { user_uid, allow } ==> spec_permission_uid_arguments(
            c,
        ) == seq![(UidRole::User, user_uid@)] && spec_permission_request(c, uids)
            == (PermissionRequest::SetMbr { user: uids[0], allow }),
        c matches PermissionCommand::GetRead { user_uid, range_uid }
            ==> spec_permission_uid_arguments(c) == seq![
            (UidRole::User, user_uid@),
            (UidRole::Range, range_uid@),
        ] && spec_permission_request(c, uids) == (PermissionRequest::GetRead {
            user: uids[0],
            range: uids[1],
        }),
        c matches PermissionCommand::GetWrite { user_uid, range_uid }
            ==> spec_permission_uid_arguments(c) == seq![
            (UidRole::User, user_uid@),
            (UidRole::Range, range_uid@),
        ] && spec_permission_request(c, uids) == (PermissionRequest::GetWrite {
            user: uids[0],
            range: uids[1],
        }),
        c matches PermissionCommand::SetRead { user_uid, range_uid, allow }
            ==> spec_permission_uid_arguments(c) == seq![
            (UidRole::User, user_uid@),
            (UidRole::Range, range_uid@),
        ] && spec_permission_request(c, uids) == (PermissionRequest::SetRead {
            user: uids[0],
            range: uids[1],
            allow,
        }),
        c matches PermissionCommand::SetWrite { user_uid, range_uid, allow }
            ==> spec_permission_uid_arguments(c) == seq![
            (UidRole::User, user_uid@),
            (UidRole::Range, range_uid@),
        ] && spec_permission_request(c, uids) == (PermissionRequest::SetWrite {
            user: uids[0],
            range: uids[1],
            allow,
        }),
{
}

impl PermissionCommand {
    /// The UID arguments of the command, in the order they are checked.
    pub fn uid_arguments(&self) -> (r: Vec<UidArgument>)
        ensures
            uid_arguments_view(r@) == spec_permission_uid_arguments(*self),
    {
        let mut r: Vec<UidArgument> = Vec::new();
        match self {
            PermissionCommand::ListUsers => {},
            PermissionCommand::ListRanges => {},
            PermissionCommand::GetMbr { user_uid } => {
                r.push(uid_argument(UidRole::User, user_uid));
            },
            PermissionCommand::GetRead { user_uid, range_uid } => {
                r.push(uid_argument(UidRole::User, user_uid));
                r.push(uid_argument(UidRole::Range, range_uid));
            },
            PermissionCommand::GetWrite { user_uid, range_uid } => {
                r.push(uid_argument(UidRole::User, user_uid));
                r.push(uid_argument(UidRole::Range, range_uid));
            },
            PermissionCommand::SetMbr { user_uid, .. } => {
                r.push(uid_argument(UidRole::User, user_uid));
            },
            PermissionCommand::SetRead { user_uid, range_uid, .. } => {
                r.push(uid_argument(UidRole::User, user_uid));
                r.push(uid_argument(UidRole::Range, range_uid));
            },
            PermissionCommand::SetWrite { user_uid, range_uid, .. } => {
                r.push(uid_argument(UidRole::User, user_uid));
                r.push(uid_argument(UidRole::Range, range_uid));
            },
        }
        assert(uid_arguments_view(r@) =~= spec_permission_uid_arguments(*self));
        r
    }

    /// The request of the command, given its UID arguments parsed, in order.
    pub fn request(&self, uids: &Vec<UID>) -> (r: PermissionRequest)
        requires
            uids@.len() == spec_permission_uid_arguments(*self).len(),
        ensures
            r == spec_permission_request(*self, uids@),
    {
        match self {
            PermissionCommand::ListUsers => PermissionRequest::ListUsers,
            PermissionCommand::ListRanges => PermissionRequest::ListRanges,
            PermissionCommand::GetMbr { .. } => PermissionRequest::GetMbr { user: uids[0] },
            PermissionCommand::GetRead { .. } => PermissionRequest::GetRead {
                user: uids[0],
                range: uids[1],
            },
            PermissionCommand::GetWrite { .. } => PermissionRequest::GetWrite {
                user: uids[0],
                range: uids[1],
            },
            PermissionCommand::SetMbr { allow, .. } => PermissionRequest::SetMbr {
                user: uids[0],
                allow: *allow,
            },
            PermissionCommand::SetRead { allow, .. } => PermissionRequest::SetRead {
                user: uids[0],
                range: uids[1],
                allow: *allow,
            },
            PermissionCommand::SetWrite { allow, .. } => PermissionRequest::SetWrite {
                user: uids[0],
                range: uids[1],
                allow: *allow,
            },
        }
    }
}

} // verus!
