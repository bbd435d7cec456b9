use sed_manager_cli::authority::find_authority;
use sed_manager_cli::permission::{PermissionCommand, PermissionRequest};
use sed_manager_cli::range::{
    apply_range_update, LockingRangeSettings, RangeCommand, RangeRequest, RangeUpdate,
};
use sed_manager_cli::uid::{UidRole, UID};
use sed_manager_cli::user::{UserCommand, UserRequest};

fn settings() -> LockingRangeSettings {
    LockingRangeSettings {
        range_start: 0,
        range_length: 1024,
        read_lock_enabled: false,
        write_lock_enabled: false,
        read_locked: false,
        write_locked: false,
    }
}

fn no_update() -> RangeUpdate {
    RangeUpdate {
        range_start: None,
        range_length: None,
        read_lock_enabled: None,
        write_lock_enabled: None,
        read_locked: None,
        write_locked: None,
    }
}

#[test]
fn range_update_sets_given_fields_only() {
    let mut s = settings();
    let u = RangeUpdate { range_start: Some(2048), read_locked: Some(true), ..no_update() };
    apply_range_update(&mut s, &u);
    assert_eq!(
        s,
        LockingRangeSettings { range_start: 2048, read_locked: true, ..settings() }
    );
}

#[test]
fn range_update_empty_is_identity() {
    let mut s = settings();
    apply_range_update(&mut s, &no_update());
    assert_eq!(s, settings());
}

#[test]
fn range_update_twice_is_once() {
    let u = RangeUpdate { range_length: Some(8), write_lock_enabled: Some(true), ..no_update() };
    let mut once = settings();
    apply_range_update(&mut once, &u);
    let mut twice = once;
    apply_range_update(&mut twice, &u);
    assert_eq!(once, twice);
}

#[test]
fn range_updates_compose_last_wins() {
    let first = RangeUpdate { range_start: Some(1), read_locked: Some(true), ..no_update() };
    let second = RangeUpdate { range_start: Some(2), write_locked: Some(true), ..no_update() };
    let mut a = settings();
    apply_range_update(&mut a, &first);
    apply_range_update(&mut a, &second);
    let combined = RangeUpdate {
        range_start: Some(2),
        read_locked: Some(true),
        write_locked: Some(true),
        ..no_update()
    };
    let mut b = settings();
    apply_range_update(&mut b, &combined);
    assert_eq!(a, b);
}

#[test]
fn range_command_requests() {
    let set = RangeCommand::SetRange {
        uid: "0x0000080200030001".to_string(),
        range_start: Some(0),
        range_length: Some(4096),
        read_lock_enabled: None,
        write_lock_enabled: Some(true),
        read_locked: None,
        write_locked: None,
    };
    let args = set.uid_arguments();
    assert_eq!(args.len(), 1);
    assert_eq!(args[0].role, UidRole::Range);
    assert_eq!(args[0].text, "0x0000080200030001");
    let uid = UID::new(0x0000_0802_0003_0001);
    assert_eq!(
        set.request(&vec![uid]),
        RangeRequest::Update(
            uid,
            RangeUpdate {
                range_start: Some(0),
                range_length: Some(4096),
                write_lock_enabled: Some(true),
                ..no_update()
            }
        )
    );
    assert!(RangeCommand::List.uid_arguments().is_empty());
    assert_eq!(RangeCommand::List.request(&vec![]), RangeRequest::List);
    let erase = RangeCommand::Erase { uid: "1".to_string() };
    assert_eq!(erase.request(&vec![uid]), RangeRequest::Erase(uid));
    let get = RangeCommand::Get { uid: "2".to_string() };
    assert_eq!(get.request(&vec![uid]), RangeRequest::Get(uid));
}

#[test]
fn user_command_requests() {
    let user = UID::new(0x0000_0009_0003_0001);
    let enable = UserCommand::Enable { uid: "u".to_string() };
    assert_eq!(enable.uid_arguments()[0].role, UidRole::User);
    assert!(matches!(enable.request(&vec![user]), UserRequest::SetEnabled(u, true) if u == user));
    let disable = UserCommand::Disable { uid: "u".to_string() };
    assert!(matches!(disable.request(&vec![user]), UserRequest::SetEnabled(u, false) if u == user));
    let name = UserCommand::SetName { uid: "u".to_string(), name: "alice".to_string() };
    assert!(matches!(name.request(&vec![user]), UserRequest::SetName(u, ref n) if u == user && n == "alice"));
    let pw = UserCommand::SetPassword { uid: "u".to_string(), new_password: "pw".to_string() };
    assert!(matches!(pw.request(&vec![user]), UserRequest::SetPassword(u, ref p) if u == user && p == "pw"));
    assert!(UserCommand::List.uid_arguments().is_empty());
    assert!(matches!(UserCommand::List.request(&vec![]), UserRequest::List));
    let get = UserCommand::Get { uid: "g".to_string() };
    assert_eq!(get.uid_arguments()[0].text, "g");
    assert!(matches!(get.request(&vec![user]), UserRequest::Get(u) if u == user));
}

#[test]
fn permission_command_arguments_user_before_range() {
    let cmd = PermissionCommand::SetWrite {
        user_uid: "user".to_string(),
        range_uid: "range".to_string(),
        allow: true,
    };
    let args = cmd.uid_arguments();
    assert_eq!(args.len(), 2);
    assert_eq!((args[0].role, args[0].text.as_str()), (UidRole::User, "user"));
    assert_eq!((args[1].role, args[1].text.as_str()), (UidRole::Range, "range"));
    let user = UID::new(1);
    let range = UID::new(2);
    assert_eq!(
        cmd.request(&vec![user, range]),
        PermissionRequest::SetWrite { user, range, allow: true }
    );
}

#[test]
fn permission_command_requests() {
    let user = UID::new(7);
    let range = UID::new(8);
    let s = |x: &str| x.to_string();
    assert_eq!(PermissionCommand::ListUsers.request(&vec![]), PermissionRequest::ListUsers);
    assert_eq!(PermissionCommand::ListRanges.request(&vec![]), PermissionRequest::ListRanges);
    let mbr = PermissionCommand::GetMbr { user_uid: s("u") };
    assert_eq!(mbr.uid_arguments().len(), 1);
    assert_eq!(mbr.request(&vec![user]), PermissionRequest::GetMbr { user });
    let set_mbr = PermissionCommand::SetMbr { user_uid: s("u"), allow: false };
    assert_eq!(set_mbr.request(&vec![user]), PermissionRequest::SetMbr { user, allow: false });
    let read = PermissionCommand::GetRead { user_uid: s("u"), range_uid: s("r") };
    assert_eq!(read.request(&vec![user, range]), PermissionRequest::GetRead { user, range });
    let write = PermissionCommand::GetWrite { user_uid: s("u"), range_uid: s("r") };
    assert_eq!(write.request(&vec![user, range]), PermissionRequest::GetWrite { user, range });
    let set_read = PermissionCommand::SetRead { user_uid: s("u"), range_uid: s("r"), allow: true };
    assert_eq!(
        set_read.request(&vec![user, range]),
        PermissionRequest::SetRead { user, range, allow: true }
    );
}

#[test]
fn find_authority_first_case_insensitive_match() {
    let names = vec![
        None,
        Some("SID".to_string()),
        Some("Admin1".to_string()),
        Some("ADMIN1".to_string()),
    ];
    assert_eq!(find_authority(&names, "admin1"), Some(2));
    assert_eq!(find_authority(&names, "sid"), Some(1));
    assert_eq!(find_authority(&names, "User1"), None);
    assert_eq!(find_authority(&names, "Admin"), None);
    assert_eq!(find_authority(&vec![], "Admin1"), None);
}
