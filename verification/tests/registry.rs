use fingr::hashing::sha256_hex;
use fingr::userlist::JSONStatus;
use fingr::userlist::Status;
use fingr::userlist::StoredUser;
use fingr::userlist::UserInfo;
use fingr::userlist::UserList;
use fingr::userlist::UserListError;

fn empty_list() -> UserList {
    UserList { users: Vec::new() }
}

fn info(name: &[u8], online: bool, text: Option<&[u8]>, since: u64) -> UserInfo {
    UserInfo {
        username: name.to_vec(),
        status: JSONStatus {
            online,
            text: text.map(|t| t.to_vec()),
            since,
        },
    }
}

#[test]
fn register_then_lookup_is_offline() {
    let mut users = empty_list();
    let mut store: Vec<StoredUser> = Vec::new();
    let password = b"k1".to_vec();
    let r = users.register(b"alice", Some(&password), &mut store, 100);
    assert!(r.is_ok());
    let u = users.lookup(b"alice").expect("registered user must be found");
    assert!(!u.online());
    assert_eq!(u.status().since, 100);
    assert!(u.status().text.is_none());
    assert_eq!(store.len(), 1);
    assert_eq!(store[0].username, b"alice".to_vec());
}

#[test]
fn bump_true_iff_online_and_changes_nothing_else() {
    let mut users = empty_list();
    let mut store: Vec<StoredUser> = Vec::new();
    let password = b"k1".to_vec();
    users.register(b"alice", Some(&password), &mut store, 100).unwrap();

    // Offline: bump refuses and changes nothing.
    assert!(!users.bump(b"alice", 150));
    let u = users.lookup(b"alice").unwrap();
    assert!(!u.online());
    assert!(u.bumped.is_none());
    assert_eq!(u.status().since, 100);

    // Online: bump stamps, and online/text/since stay as they were.
    assert!(users.set_status(b"alice", true, Some(b"hi".to_vec()), 200));
    assert!(users.bump(b"alice", 250));
    let u = users.lookup(b"alice").unwrap();
    assert!(u.online());
    assert_eq!(u.bumped, Some(250));
    assert_eq!(u.status().since, 200);
    assert_eq!(u.status().text.as_deref(), Some(b"hi".as_slice()));

    // Unknown user: bump refuses.
    assert!(!users.bump(b"nobody", 300));
}

#[test]
fn sweep_expires_stale_online_user() {
    let mut users = empty_list();
    let mut store: Vec<StoredUser> = Vec::new();
    let password = b"k1".to_vec();
    users.register(b"alice", Some(&password), &mut store, 0).unwrap();
    users.set_status(b"alice", true, None, 1000);

    // 3599 seconds later: still online.
    users.check_statuses(1000 + 3599);
    assert!(users.lookup(b"alice").unwrap().online());

    // 3600 seconds later: demoted, since reset to the sweep time.
    users.check_statuses(1000 + 3600);
    let u = users.lookup(b"alice").unwrap();
    assert!(!u.online());
    assert_eq!(u.status().since, 4600);
    assert!(u.bumped.is_none());
}

#[test]
fn sweep_spares_freshly_bumped_user() {
    let mut users = empty_list();
    let mut store: Vec<StoredUser> = Vec::new();
    let password = b"k1".to_vec();
    users.register(b"alice", Some(&password), &mut store, 0).unwrap();
    users.set_status(b"alice", true, None, 1000);
    assert!(users.bump(b"alice", 4000));

    // Status is 3600s old, but the keep-alive is only 600s old: untouched.
    users.check_statuses(4600);
    let u = users.lookup(b"alice").unwrap();
    assert!(u.online());
    assert_eq!(u.bumped, Some(4000));
    assert_eq!(u.status().since, 1000);

    // Once the keep-alive itself is 3600s old, the user is demoted and the
    // stamp cleared.
    users.check_statuses(4000 + 3600);
    let u = users.lookup(b"alice").unwrap();
    assert!(!u.online());
    assert!(u.bumped.is_none());
    assert_eq!(u.status().since, 7600);
}

#[test]
fn drain_log_returns_all_then_empty() {
    let mut users = empty_list();
    let mut store: Vec<StoredUser> = Vec::new();
    let password = b"k1".to_vec();
    users.register(b"alice", Some(&password), &mut store, 0).unwrap();
    assert!(users.visit(b"alice", info(b"bob", true, None, 5)));
    assert!(users.visit(b"alice", info(b"carol", false, Some(b"away"), 9)));

    let log = users.drain_log(b"alice").expect("alice exists");
    assert_eq!(log.len(), 2);
    assert_eq!(log[0].username, b"bob".to_vec());
    assert_eq!(log[1].username, b"carol".to_vec());

    let again = users.drain_log(b"alice").expect("alice exists");
    assert!(again.is_empty());

    assert!(users.visit(b"alice", info(b"bob", true, None, 11)));
    assert_eq!(users.drain_log(b"alice").unwrap().len(), 1);
}

#[test]
fn visit_collapses_consecutive_duplicates() {
    let mut users = empty_list();
    let mut store: Vec<StoredUser> = Vec::new();
    let password = b"k1".to_vec();
    users.register(b"alice", Some(&password), &mut store, 0).unwrap();
    assert!(users.visit(b"alice", info(b"bob", true, None, 5)));
    assert!(users.visit(b"alice", info(b"bob", true, None, 5)));
    assert!(users.visit(b"alice", info(b"bob", true, None, 6)));
    let log = users.drain_log(b"alice").unwrap();
    assert_eq!(log.len(), 2);
}

#[test]
fn register_then_remove_round_trip() {
    let mut users = empty_list();
    let mut store: Vec<StoredUser> = Vec::new();
    let password = b"secret".to_vec();
    users.register(b"u", Some(&password), &mut store, 0).unwrap();
    assert!(users.contains(b"u"));
    assert_eq!(store.len(), 1);

    users.remove(b"u", &mut store).unwrap();
    assert!(!users.contains(b"u"));
    assert!(store.is_empty());

    // Removing again: the store stays empty and the registry reports the
    // absence.
    assert!(matches!(users.remove(b"u", &mut store), Err(UserListError::NotFound)));
}

#[test]
fn second_registration_conflicts_and_keeps_first() {
    let mut users = empty_list();
    let mut store: Vec<StoredUser> = Vec::new();
    let k1 = b"k1".to_vec();
    let k2 = b"k2".to_vec();
    users.register(b"bob", Some(&k1), &mut store, 0).unwrap();
    assert!(matches!(
        users.register(b"bob", Some(&k1), &mut store, 5),
        Err(UserListError::Conflict)
    ));
    assert!(matches!(
        users.register(b"bob", Some(&k2), &mut store, 5),
        Err(UserListError::Conflict)
    ));
    assert_eq!(store.len(), 1);
    let u = users.lookup(b"bob").unwrap();
    assert!(u.compare_key(b"k1"));
    assert!(!u.compare_key(b"k2"));
}

#[test]
fn register_requires_password() {
    let mut users = empty_list();
    let mut store: Vec<StoredUser> = Vec::new();
    assert!(matches!(
        users.register(b"bob", None, &mut store, 0),
        Err(UserListError::MissingPassword)
    ));
    assert!(store.is_empty());
    assert!(!users.contains(b"bob"));
}

#[test]
fn error_messages() {
    assert_eq!(UserListError::Conflict.message(), b"username already taken".to_vec());
    assert_eq!(UserListError::MissingPassword.message(), b"a password is required".to_vec());
    assert_eq!(UserListError::NotFound.message(), b"failed to remove user".to_vec());
}

#[test]
fn load_builds_offline_registry_in_store_order() {
    let store = vec![
        StoredUser {
            username: b"a".to_vec(),
            hash: sha256_hex(b"pa"),
            website: Some(b"https://example.test".to_vec()),
            social: vec![(b"irc".to_vec(), b"a@irc".to_vec())],
            bio: None,
        },
        StoredUser {
            username: b"b".to_vec(),
            hash: sha256_hex(b"pb"),
            website: None,
            social: Vec::new(),
            bio: Some(b"hi".to_vec()),
        },
    ];
    let users = UserList::load(&store, 7);
    assert_eq!(users.len(), 2);
    let a = users.lookup(b"a").unwrap();
    assert!(!a.online());
    assert_eq!(a.status().since, 7);
    assert!(a.compare_key(b"pa"));
    assert_eq!(a.website.as_deref(), Some(b"https://example.test".as_slice()));
    let b = users.lookup(b"b").unwrap();
    assert!(b.compare_key(b"pb"));
    assert_eq!(b.bio.as_deref(), Some(b"hi".as_slice()));
}

#[test]
fn load_keeps_last_record_of_a_duplicated_name() {
    let store = vec![
        StoredUser {
            username: b"dup".to_vec(),
            hash: sha256_hex(b"one"),
            website: None,
            social: Vec::new(),
            bio: None,
        },
        StoredUser {
            username: b"dup".to_vec(),
            hash: sha256_hex(b"two"),
            website: None,
            social: Vec::new(),
            bio: None,
        },
    ];
    let users = UserList::load(&store, 0);
    assert_eq!(users.len(), 1);
    assert!(users.lookup(b"dup").unwrap().compare_key(b"two"));
}

#[test]
fn set_status_keeps_previous_text_when_none_given() {
    let mut users = empty_list();
    let mut store: Vec<StoredUser> = Vec::new();
    let password = b"k".to_vec();
    users.register(b"a", Some(&password), &mut store, 0).unwrap();
    users.set_status(b"a", true, Some(b"brb".to_vec()), 10);
    users.set_status(b"a", false, None, 20);
    let u = users.lookup(b"a").unwrap();
    assert!(!u.online());
    assert_eq!(u.status().text.as_deref(), Some(b"brb".as_slice()));
    assert_eq!(u.status().since, 20);

    // An unknown name is refused.
    assert!(!users.set_status(b"zz", true, None, 30));
}

#[test]
fn user_status_helpers() {
    let s = Status { online: true, text: Some(b"x".to_vec()), since: 40 };
    let p = JSONStatus::from_status(&s, 100);
    assert!(p.online);
    assert_eq!(p.since, 60);
    assert_eq!(p.text.as_deref(), Some(b"x".as_slice()));
    let d = JSONStatus::default();
    assert!(!d.online);
    assert!(d.text.is_none());
    assert_eq!(d.since, 0);
}

#[test]
fn set_status_clears_keep_alive_stamp() {
    let mut users = empty_list();
    let mut store: Vec<StoredUser> = Vec::new();
    let password = b"k".to_vec();
    users.register(b"a", Some(&password), &mut store, 0).unwrap();
    users.set_status(b"a", true, None, 10);
    assert!(users.bump(b"a", 20));
    assert_eq!(users.lookup(b"a").unwrap().bumped, Some(20));

    // Going offline drops the stamp.
    users.set_status(b"a", false, None, 30);
    assert!(users.lookup(b"a").unwrap().bumped.is_none());

    // A fresh login starts without one, too.
    assert!(users.bump(b"a", 35) == false);
    users.set_status(b"a", true, None, 40);
    assert!(users.lookup(b"a").unwrap().bumped.is_none());
}
