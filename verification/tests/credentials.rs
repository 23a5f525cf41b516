use fingr::hashing::sha256_hex;
use fingr::is_relative;
use fingr::userlist::StoredUser;
use fingr::userlist::UserList;

// The SHA-256 of "abc", in lowercase hex: the standard test vector.
const ABC_DIGEST: &[u8] = b"ba7816bf8f01cfea414140de5dae2223b00361a396177a9cb410ff61f20015ad";

#[test]
fn sha256_matches_known_vector() {
    assert_eq!(sha256_hex(b"abc"), ABC_DIGEST.to_vec());
    assert_eq!(
        sha256_hex(b""),
        b"e3b0c44298fc1c149afbf4c8996fb92427ae41e4649b934ca495991b7852b855".to_vec()
    );
}

#[test]
fn compare_key_digests_the_candidate() {
    // A record whose stored digest is the known digest of "abc" accepts
    // exactly the key "abc": the wrapper must really digest its argument.
    let store = vec![StoredUser {
        username: b"u".to_vec(),
        hash: ABC_DIGEST.to_vec(),
        website: None,
        social: Vec::new(),
        bio: None,
    }];
    let users = UserList::load(&store, 0);
    let u = users.lookup(b"u").unwrap();
    assert!(u.compare_key(b"abc"));
    assert!(!u.compare_key(b"abd"));
    assert!(!u.compare_key(ABC_DIGEST));
    assert!(u.has_hash(ABC_DIGEST));
}

#[test]
fn is_relative_accepts_only_absolute_paths() {
    assert!(is_relative(b"config", b"/etc/fingr.conf").is_ok());
    assert_eq!(
        is_relative(b"config", b"etc/fingr.conf"),
        Err(b"config path cannot be relative!".to_vec())
    );
    assert!(is_relative(b"lock", b"").is_err());
}
