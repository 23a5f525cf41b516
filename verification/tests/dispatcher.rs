use fingr::request::Action;
use fingr::request::Request;
use fingr::response::ResponseStatus;
use fingr::server::Config;
use fingr::server::Fingr;
use fingr::server::Pending;
use fingr::server::Step;
use fingr::server::parse_failure_response;
use fingr::server::store_failure_response;

fn open_config() -> Config {
    Config {
        socket_path: b"127.0.0.1:7979".to_vec(),
        users_list: b"/var/fingr/users.list".to_vec(),
        registration: true,
        auth_key: None,
        lock: b"/var/fingr/fingr.lock".to_vec(),
    }
}

fn fresh_server() -> Fingr {
    Fingr::init(open_config(), &Vec::new(), 0)
}

fn request(action: Action) -> Request {
    Request {
        action,
        username: None,
        key: None,
        auth: None,
        finger_user: None,
        status: None,
    }
}

/// Registers `name` through the dispatcher's two-step protocol, as the
/// server loop would after a successful store write.
fn register(server: &mut Fingr, name: &[u8], key: &[u8], now: u64) {
    let mut req = request(Action::Register);
    req.username = Some(name.to_vec());
    req.key = Some(key.to_vec());
    match server.run_request(&req, now) {
        Step::StoreWrite { new_store, pending } => {
            assert_eq!(new_store.len(), server.store.len() + 1);
            assert!(server.check_commit(&pending));
            let resp = server.commit(pending, now);
            assert_eq!(resp.status, ResponseStatus::Okay);
            assert_eq!(resp.body, b"{\"OK\":\"registered\"}".to_vec());
        }
        Step::Reply(resp) => panic!(
            "registration refused: {}",
            String::from_utf8_lossy(&resp.body)
        ),
    }
}

#[test]
fn register_login_finger_scenario() {
    let mut server = fresh_server();
    register(&mut server, b"alice", b"k1", 0);

    let mut login = request(Action::Login);
    login.username = Some(b"alice".to_vec());
    login.key = Some(b"k1".to_vec());
    login.status = Some(b"brb".to_vec());
    let r = match server.run_request(&login, 50) {
        Step::Reply(r) => r,
        _ => panic!("login does not touch the store"),
    };
    assert_eq!(r.status, ResponseStatus::Okay);
    assert_eq!(r.body, b"{\"OK\":\"you are now logged on\"}".to_vec());

    let mut finger = request(Action::Finger);
    finger.finger_user = Some(b"alice".to_vec());
    let r = match server.run_request(&finger, 50) {
        Step::Reply(r) => r,
        _ => panic!("finger does not touch the store"),
    };
    assert_eq!(r.status, ResponseStatus::Okay);
    assert_eq!(
        r.body,
        b"{\"User\":{\"username\":\"alice\",\"status\":{\"online\":true,\"text\":\"brb\",\"since\":0}}}"
            .to_vec()
    );

    // The anonymous visit was logged on alice's record.
    let log = server.users.drain_log(b"alice").unwrap();
    assert_eq!(log.len(), 1);
    assert_eq!(log[0].username, b"anonymous".to_vec());
    assert!(!log[0].status.online);
}

#[test]
fn finger_logs_authenticated_visitor() {
    let mut server = fresh_server();
    register(&mut server, b"alice", b"k1", 0);
    register(&mut server, b"bob", b"k2", 0);

    let mut login = request(Action::Login);
    login.username = Some(b"bob".to_vec());
    login.key = Some(b"k2".to_vec());
    server.run_request(&login, 10);

    let mut finger = request(Action::Finger);
    finger.username = Some(b"bob".to_vec());
    finger.key = Some(b"k2".to_vec());
    finger.finger_user = Some(b"alice".to_vec());
    let r = match server.run_request(&finger, 30) {
        Step::Reply(r) => r,
        _ => panic!(),
    };
    assert_eq!(r.status, ResponseStatus::Okay);

    let log = server.users.drain_log(b"alice").unwrap();
    assert_eq!(log.len(), 1);
    assert_eq!(log[0].username, b"bob".to_vec());
    assert!(log[0].status.online);
    assert_eq!(log[0].status.since, 20);
}

#[test]
fn bump_while_offline_still_replies_ok() {
    let mut server = fresh_server();
    register(&mut server, b"alice", b"k1", 0);

    let mut bump = request(Action::Bump);
    bump.username = Some(b"alice".to_vec());
    bump.key = Some(b"k1".to_vec());
    let r = match server.run_request(&bump, 10) {
        Step::Reply(r) => r,
        _ => panic!(),
    };
    // The dispatcher confirms even though the bump had no effect.
    assert_eq!(r.status, ResponseStatus::Okay);
    assert_eq!(r.body, b"{\"OK\":\"you are bumped\"}".to_vec());
    let u = server.users.lookup(b"alice").unwrap();
    assert!(!u.online());
    assert!(u.bumped.is_none());
}

#[test]
fn finger_unknown_target_is_not_found_and_mutates_nothing() {
    let mut server = fresh_server();
    register(&mut server, b"alice", b"k1", 0);

    let mut finger = request(Action::Finger);
    finger.username = Some(b"alice".to_vec());
    finger.key = Some(b"k1".to_vec());
    finger.finger_user = Some(b"ghost".to_vec());
    let r = match server.run_request(&finger, 10) {
        Step::Reply(r) => r,
        _ => panic!(),
    };
    assert_eq!(r.status, ResponseStatus::NotFound);
    assert_eq!(r.body, b"{\"Error\":\"user not found\"}".to_vec());
    // No visit was logged anywhere.
    assert!(server.users.drain_log(b"alice").unwrap().is_empty());
}

#[test]
fn finger_without_target_is_bad_request() {
    let mut server = fresh_server();
    let r = match server.run_request(&request(Action::Finger), 0) {
        Step::Reply(r) => r,
        _ => panic!(),
    };
    assert_eq!(r.status, ResponseStatus::Bad);
    assert_eq!(r.body, b"{\"Error\":\"a user is required\"}".to_vec());
}

#[test]
fn check_drains_own_log() {
    let mut server = fresh_server();
    register(&mut server, b"alice", b"k1", 0);

    let mut finger = request(Action::Finger);
    finger.finger_user = Some(b"alice".to_vec());
    server.run_request(&finger, 5);

    let mut check = request(Action::Check);
    check.username = Some(b"alice".to_vec());
    check.key = Some(b"k1".to_vec());
    let r = match server.run_request(&check, 9) {
        Step::Reply(r) => r,
        _ => panic!(),
    };
    assert_eq!(r.status, ResponseStatus::Okay);
    assert_eq!(
        r.body,
        b"{\"List\":[{\"username\":\"anonymous\",\"status\":{\"online\":false,\"text\":null,\"since\":0}}]}"
            .to_vec()
    );

    // A second check finds the log drained.
    let mut check2 = request(Action::Check);
    check2.username = Some(b"alice".to_vec());
    check2.key = Some(b"k1".to_vec());
    let r = match server.run_request(&check2, 9) {
        Step::Reply(r) => r,
        _ => panic!(),
    };
    assert_eq!(r.body, b"{\"List\":[]}".to_vec());
}

#[test]
fn list_reports_every_user() {
    let mut server = fresh_server();
    register(&mut server, b"a", b"ka", 0);
    register(&mut server, b"b", b"kb", 0);
    let mut login = request(Action::Login);
    login.username = Some(b"b".to_vec());
    login.key = Some(b"kb".to_vec());
    server.run_request(&login, 7);

    let r = match server.run_request(&request(Action::List), 7) {
        Step::Reply(r) => r,
        _ => panic!(),
    };
    assert_eq!(r.status, ResponseStatus::Okay);
    assert_eq!(
        r.body,
        b"{\"List\":[{\"username\":\"a\",\"status\":{\"online\":false,\"text\":null,\"since\":7}},{\"username\":\"b\",\"status\":{\"online\":true,\"text\":null,\"since\":0}}]}"
            .to_vec()
    );
}

#[test]
fn login_with_wrong_key_is_unauthorized() {
    let mut server = fresh_server();
    register(&mut server, b"alice", b"k1", 0);
    let mut login = request(Action::Login);
    login.username = Some(b"alice".to_vec());
    login.key = Some(b"wrong".to_vec());
    let r = match server.run_request(&login, 5) {
        Step::Reply(r) => r,
        _ => panic!(),
    };
    assert_eq!(r.status, ResponseStatus::Unauth);
    assert_eq!(r.body, b"{\"Error\":\"invalid username or key\"}".to_vec());
    assert!(!server.users.lookup(b"alice").unwrap().online());
}

#[test]
fn login_missing_username_or_key() {
    let mut server = fresh_server();
    register(&mut server, b"alice", b"k1", 0);

    let mut no_user = request(Action::Login);
    no_user.key = Some(b"k1".to_vec());
    let r = match server.run_request(&no_user, 5) {
        Step::Reply(r) => r,
        _ => panic!(),
    };
    assert_eq!(r.status, ResponseStatus::Bad);
    assert_eq!(r.body, b"{\"Error\":\"missing username\"}".to_vec());

    let mut no_key = request(Action::Login);
    no_key.username = Some(b"alice".to_vec());
    let r = match server.run_request(&no_key, 5) {
        Step::Reply(r) => r,
        _ => panic!(),
    };
    assert_eq!(r.status, ResponseStatus::Unauth);
    assert_eq!(r.body, b"{\"Error\":\"missing key\"}".to_vec());

    let mut unknown = request(Action::Login);
    unknown.username = Some(b"ghost".to_vec());
    unknown.key = Some(b"k1".to_vec());
    let r = match server.run_request(&unknown, 5) {
        Step::Reply(r) => r,
        _ => panic!(),
    };
    assert_eq!(r.status, ResponseStatus::NotFound);
    assert_eq!(r.body, b"{\"Error\":\"unknown username\"}".to_vec());
}

#[test]
fn authorization_header_authenticates_too() {
    let mut server = fresh_server();
    register(&mut server, b"alice", b"k1", 0);
    let mut login = request(Action::Login);
    login.username = Some(b"alice".to_vec());
    login.auth = Some(b"k1".to_vec());
    let r = match server.run_request(&login, 5) {
        Step::Reply(r) => r,
        _ => panic!(),
    };
    assert_eq!(r.status, ResponseStatus::Okay);
    assert!(server.users.lookup(b"alice").unwrap().online());
}

#[test]
fn logoff_sets_offline() {
    let mut server = fresh_server();
    register(&mut server, b"alice", b"k1", 0);
    let mut login = request(Action::Login);
    login.username = Some(b"alice".to_vec());
    login.key = Some(b"k1".to_vec());
    server.run_request(&login, 5);
    assert!(server.users.lookup(b"alice").unwrap().online());

    let mut logoff = request(Action::Logoff);
    logoff.username = Some(b"alice".to_vec());
    logoff.key = Some(b"k1".to_vec());
    let r = match server.run_request(&logoff, 9) {
        Step::Reply(r) => r,
        _ => panic!(),
    };
    assert_eq!(r.status, ResponseStatus::Okay);
    assert_eq!(r.body, b"{\"OK\":\"you are now logged off\"}".to_vec());
    let u = server.users.lookup(b"alice").unwrap();
    assert!(!u.online());
    assert_eq!(u.status().since, 9);
}

#[test]
fn second_registration_of_same_name_fails() {
    let mut server = fresh_server();
    register(&mut server, b"bob", b"k1", 0);
    let mut again = request(Action::Register);
    again.username = Some(b"bob".to_vec());
    again.key = Some(b"other".to_vec());
    let r = match server.run_request(&again, 5) {
        Step::Reply(r) => r,
        Step::StoreWrite { .. } => panic!("conflicting registration must not reach the store"),
    };
    assert_eq!(r.status, ResponseStatus::ServerError);
    assert_eq!(r.body, b"{\"Error\":\"username already taken\"}".to_vec());
    // The first registration is unaffected.
    assert!(server.users.lookup(b"bob").unwrap().compare_key(b"k1"));
    assert_eq!(server.store.len(), 1);
}

#[test]
fn registration_gatekeeping() {
    // Registration disabled.
    let mut config = open_config();
    config.registration = false;
    let mut server = Fingr::init(config, &Vec::new(), 0);
    let mut req = request(Action::Register);
    req.username = Some(b"a".to_vec());
    req.key = Some(b"k".to_vec());
    let r = match server.run_request(&req, 0) {
        Step::Reply(r) => r,
        _ => panic!(),
    };
    assert_eq!(r.status, ResponseStatus::Unauth);
    assert_eq!(
        r.body,
        b"{\"Error\":\"registration is not allowed on this server\"}".to_vec()
    );

    // Missing username.
    let mut server = fresh_server();
    let mut req = request(Action::Register);
    req.key = Some(b"k".to_vec());
    let r = match server.run_request(&req, 0) {
        Step::Reply(r) => r,
        _ => panic!(),
    };
    assert_eq!(r.status, ResponseStatus::Bad);
    assert_eq!(r.body, b"{\"Error\":\"a username is required to register\"}".to_vec());

    // Missing key.
    let mut req = request(Action::Register);
    req.username = Some(b"a".to_vec());
    let r = match server.run_request(&req, 0) {
        Step::Reply(r) => r,
        _ => panic!(),
    };
    assert_eq!(r.status, ResponseStatus::ServerError);
    assert_eq!(r.body, b"{\"Error\":\"a password is required\"}".to_vec());

    // Server-wide registration key: absent or mismatched keys are refused.
    let mut config = open_config();
    config.auth_key = Some(b"sesame".to_vec());
    let mut server = Fingr::init(config, &Vec::new(), 0);
    let mut req = request(Action::Register);
    req.username = Some(b"a".to_vec());
    req.key = Some(b"nope".to_vec());
    let r = match server.run_request(&req, 0) {
        Step::Reply(r) => r,
        _ => panic!(),
    };
    assert_eq!(r.status, ResponseStatus::Unauth);
    assert_eq!(r.body, b"{\"Error\":\"incorrect registration key\"}".to_vec());
    let mut req = request(Action::Register);
    req.username = Some(b"a".to_vec());
    let r = match server.run_request(&req, 0) {
        Step::Reply(r) => r,
        _ => panic!(),
    };
    assert_eq!(r.status, ResponseStatus::Unauth);
    // With the right key, registration goes through.
    register(&mut server, b"a", b"sesame", 0);
}

#[test]
fn deregister_removes_user_and_store_record() {
    let mut server = fresh_server();
    register(&mut server, b"alice", b"k1", 0);
    register(&mut server, b"bob", b"k2", 0);

    let mut req = request(Action::Deregister);
    req.username = Some(b"alice".to_vec());
    req.key = Some(b"k1".to_vec());
    match server.run_request(&req, 5) {
        Step::StoreWrite { new_store, pending } => {
            assert_eq!(new_store.len(), 1);
            assert_eq!(new_store[0].username, b"bob".to_vec());
            assert!(matches!(&pending, Pending::Deregister(n) if n == &b"alice".to_vec()));
            assert!(server.check_commit(&pending));
            let resp = server.commit(pending, 5);
            assert_eq!(resp.status, ResponseStatus::Okay);
            assert_eq!(resp.body, b"{\"OK\":\"your account has been removed\"}".to_vec());
        }
        Step::Reply(resp) => panic!("refused: {}", String::from_utf8_lossy(&resp.body)),
    }
    assert!(!server.users.contains(b"alice"));
    assert!(server.users.contains(b"bob"));
    assert_eq!(server.store.len(), 1);
}

#[test]
fn deregister_requires_authentication() {
    let mut server = fresh_server();
    register(&mut server, b"alice", b"k1", 0);
    let mut req = request(Action::Deregister);
    req.username = Some(b"alice".to_vec());
    req.key = Some(b"wrong".to_vec());
    let r = match server.run_request(&req, 5) {
        Step::Reply(r) => r,
        _ => panic!("must not reach the store"),
    };
    assert_eq!(r.status, ResponseStatus::Unauth);
    assert!(server.users.contains(b"alice"));
}

#[test]
fn bad_path_yields_bad_request_response() {
    let lines = vec![b"GET login HTTP/1.1\r\n".to_vec()];
    let err = match Request::parse(&lines) {
        Err(e) => e,
        Ok(_) => panic!("a relative path must be refused"),
    };
    let resp = parse_failure_response(&err);
    assert_eq!(resp.status, ResponseStatus::Bad);
    assert_eq!(resp.body, b"{\"Error\":\"invalid path\"}".to_vec());
    let wire = resp.encode();
    assert!(wire.starts_with(b"HTTP/1.1 400 Bad Request\r\n"));
}

#[test]
fn store_failure_is_server_error() {
    let resp = store_failure_response(b"disk full".to_vec());
    assert_eq!(resp.status, ResponseStatus::ServerError);
    assert_eq!(resp.body, b"{\"Error\":\"disk full\"}".to_vec());
}

#[test]
fn sweep_through_server_state() {
    let mut server = fresh_server();
    register(&mut server, b"alice", b"k1", 0);
    let mut login = request(Action::Login);
    login.username = Some(b"alice".to_vec());
    login.key = Some(b"k1".to_vec());
    server.run_request(&login, 100);
    server.users.check_statuses(100 + 3600);
    assert!(!server.users.lookup(b"alice").unwrap().online());
}

#[test]
fn relogin_after_an_old_bump_stays_online_through_a_sweep() {
    let mut server = fresh_server();
    register(&mut server, b"alice", b"k1", 0);

    let mut login = request(Action::Login);
    login.username = Some(b"alice".to_vec());
    login.key = Some(b"k1".to_vec());
    server.run_request(&login, 0);

    let mut bump = request(Action::Bump);
    bump.username = Some(b"alice".to_vec());
    bump.key = Some(b"k1".to_vec());
    server.run_request(&bump, 10);

    let mut logoff = request(Action::Logoff);
    logoff.username = Some(b"alice".to_vec());
    logoff.key = Some(b"k1".to_vec());
    server.run_request(&logoff, 20);
    assert!(server.users.lookup(b"alice").unwrap().bumped.is_none());

    // A fresh login well after the old keep-alive: the stale stamp is gone,
    // so a sweep inside the new hour leaves the user online.
    let mut relogin = request(Action::Login);
    relogin.username = Some(b"alice".to_vec());
    relogin.key = Some(b"k1".to_vec());
    server.run_request(&relogin, 5000);
    server.users.check_statuses(5100);
    let u = server.users.lookup(b"alice").unwrap();
    assert!(u.online());
    assert_eq!(u.status().since, 5000);
}
