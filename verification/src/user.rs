//! The `user` command: listing, reading and changing users.
use crate::uid::{uid_argument, uid_arguments_view, UidArgument, UidRole, UID};
use vstd::prelude::*;

verus! {

/// The arguments of the `user` command.
pub struct UserArgs {
    pub command: UserCommand,
    /// The device to query (e.g., /dev/nvme0).
    pub device: String,
    /// Admin1 password (SID).
    pub password: String,
}

/// The sub-commands of the `user` command; UIDs are hexadecimal text.
pub enum UserCommand {
    /// List all users.
    List,
    /// Get details of a user.
    Get { uid: String },
    /// Enable a user.
    Enable { uid: String },
    /// Disable a user.
    Disable { uid: String },
    /// Set the common name of a user.
    SetName { uid: String, name: String },
    /// Set the password of a user.
    SetPassword { uid: String, new_password: String },
}

/// What a `user` command asks of the device, with its UID parsed.
#[derive(Debug)]
pub enum UserRequest {
    List,
    Get(UID),
    SetEnabled(UID, bool),
    SetName(UID, String),
    SetPassword(UID, String),
}

/// The UID arguments of a `user` command, in the order they are checked.
pub open spec fn spec_user_uid_arguments(c: UserCommand) -> Seq<(UidRole, Seq<char>)> {
    match c {
        UserCommand::List => Seq::empty(),
        UserCommand::Get { uid } => seq![(UidRole::User, uid@)],
        UserCommand::Enable { uid } => seq![(UidRole::User, uid@)],
        UserCommand::Disable { uid } => seq![(UidRole::User, uid@)],
        UserCommand::SetName { uid, .. } => seq![(UidRole::User, uid@)],
        UserCommand::SetPassword { uid, .. } => seq![(UidRole::User, uid@)],
    }
}

/// The request of a `user` command, given its UID arguments parsed.
pub open spec fn spec_user_request(c: UserCommand, uids: Seq<UID>) -> UserRequest {
    match c {
        UserCommand::List => UserRequest::List,
        UserCommand::Get { .. } => UserRequest::Get(uids[0]),
        UserCommand::Enable { .. } => UserRequest::SetEnabled(uids[0], true),
        UserCommand::Disable { .. } => UserRequest::SetEnabled(uids[0], false),
        UserCommand::SetName { name, .. } => UserRequest::SetName(uids[0], name),
        UserCommand::SetPassword { new_password, .. } => UserRequest::SetPassword(
            uids[0],
            new_password,
        ),
    }
}

/// Law: every `user` sub-command but `list` has exactly one UID argument,
/// its `uid` field checked as a user (never the name or the password), and
/// its request acts on that UID: `enable` and `disable` set the enabled flag
/// to true and false, `set-name` and `set-password` carry the command's name
/// and password.
pub proof fn law_user_command_request(c: UserCommand, uids: Seq<UID>)
    requires
        uids.len() == spec_user_uid_arguments(c).len(),
    ensures
        c is List ==> spec_user_uid_arguments(c).len() == 0,
        c is List ==> (spec_user_request(c, uids) is List),
        c matches UserCommand::Get { uid } ==> spec_user_uid_arguments(c) == seq![
            (UidRole::User, uid@),
        ] && spec_user_request(c, uids) == UserRequest::Get(uids[0]),
        c matches UserCommand::Enable { uid } ==> spec_user_uid_arguments(c) == seq![
            (UidRole::User, uid@),
        ] && spec_user_request(c, uids) == UserRequest::SetEnabled(uids[0], true),
        c matches UserCommand::Disable { uid } ==> spec_user_uid_arguments(c) == seq![
            (UidRole::User, uid@),
        ] && spec_user_request(c, uids) == UserRequest::SetEnabled(uids[0], false),
        c matches UserCommand::SetName { uid, name } ==> spec_user_uid_arguments(c) == seq![
            (UidRole::User, uid@),
        ] && (spec_user_request(c, uids) matches UserRequest::SetName(u, n) && u == uids[0] && n@
            == name@),
        c matches UserCommand::SetPassword { uid, new_password } ==> spec_user_uid_arguments(c)
            == seq![(UidRole::User, uid@)] && (spec_user_request(c, uids) matches UserRequest::SetPassword(
            u,
            p,
        ) && u == uids[0] && p@ == new_password@),
{
}

impl UserCommand {
    /// The UID arguments of the command, in the order they are checked.
    pub fn uid_arguments(&self) -> (r: Vec<UidArgument>)
        ensures
            uid_arguments_view(r@) == spec_user_uid_arguments(*self),
    {
        let mut r: Vec<UidArgument> = Vec::new();
        match self {
            UserCommand::List => {},
            UserCommand::Get { uid } => r.push(uid_argument(UidRole::User, uid)),
            UserCommand::Enable { uid } => r.push(uid_argument(UidRole::User, uid)),
            UserCommand::Disable { uid } => r.push(uid_argument(UidRole::User, uid)),
            UserCommand::SetName { uid, .. } => r.push(uid_argument(UidRole::User, uid)),
            UserCommand::SetPassword { uid, .. } => r.push(uid_argument(UidRole::User, uid)),
        }
        assert(uid_arguments_view(r@) =~= spec_user_uid_arguments(*self));
        r
    }

    /// The request of the command, given its UID arguments parsed, in order.
    pub fn request(&self, uids: &Vec<UID>) -> (r: UserRequest)
        requires
            uids@.len() == spec_user_uid_arguments(*self).len(),
        ensures
            r == spec_user_request(*self, uids@),
    {
        match self {
            UserCommand::List => UserRequest::List,
            UserCommand::Get { .. } => UserRequest::Get(uids[0]),
            UserCommand::Enable { .. } => UserRequest::SetEnabled(uids[0], true),
            UserCommand::Disable { .. } => UserRequest::SetEnabled(uids[0], false),
            UserCommand::SetName { name, .. } => UserRequest::SetName(uids[0], name.clone()),
            UserCommand::SetPassword { new_password, .. } => UserRequest::SetPassword(
                uids[0],
                new_password.clone(),
            ),
        }
    }
}

} // verus!
