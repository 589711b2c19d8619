use chat_server::message::AuthMessage;
use chat_server::user::{
    auth_user, builtin_credentials, check_credentials, generate_token, is_at, lookup_credential,
    password_hash, token_at, token_valid_at, validate_token, Credential, PeerAddr, Token, User,
};

fn login(name: &str, password: &str) -> AuthMessage {
    AuthMessage { sender_username: name.to_string(), password: password.to_string() }
}

fn addr(port: u16) -> PeerAddr {
    PeerAddr { ip: 0xffff_7f00_0001, is_ipv6: false, port }
}

#[test]
fn users_are_equal_by_address() {
    let a = User { source_addr: addr(1), username: "x".to_string(), authenticated: false };
    let b = User { source_addr: addr(1), username: "y".to_string(), authenticated: true };
    let c = User { source_addr: addr(2), username: "x".to_string(), authenticated: false };
    assert!(a == b);
    assert!(a != c);
    assert!(is_at(&a, addr(1)));
    assert!(!is_at(&a, addr(2)));
}

#[test]
fn token_expiry_arithmetic() {
    let t = token_at("v".to_string(), 100, 2).unwrap();
    assert_eq!(t.expires_at, 7300);
    assert_eq!(t.value, "v");
    assert!(token_at("v".to_string(), u64::MAX, 1).is_none());
    assert!(token_at("v".to_string(), 0, u64::MAX).is_none());
    assert_eq!(token_at("v".to_string(), u64::MAX, 0).unwrap().expires_at, u64::MAX);
}

#[test]
fn token_valid_until_expiry() {
    let t = token_at("v".to_string(), 1000, 1).unwrap();
    assert!(token_valid_at(&t, 1000));
    assert!(token_valid_at(&t, 4599));
    assert!(!token_valid_at(&t, 4600));
    assert!(!token_valid_at(&t, 5000));
    let zero = token_at("v".to_string(), 1000, 0).unwrap();
    assert!(!token_valid_at(&zero, 1000));
}

#[test]
fn generated_tokens() {
    let t = generate_token(1).unwrap();
    assert_eq!(t.value.len(), 36);
    assert_eq!(t.value.matches('-').count(), 4);
    let chars: Vec<char> = t.value.chars().collect();
    assert_eq!(chars[8], '-');
    assert_eq!(chars[23], '-');
    assert_eq!(chars[14], '4');
    assert!("89ab".contains(chars[19]));
    assert!(t.value.chars().all(|c| c == '-' || c.is_ascii_digit() || ('a'..='f').contains(&c)));
    assert!(t.expires_at >= 3600);
    assert_eq!(validate_token(&t), Some(true));
    let u = generate_token(1).unwrap();
    assert_ne!(t.value, u.value);
    assert!(generate_token(u64::MAX).is_none());
    let old = Token { value: "x".to_string(), expires_at: 1 };
    assert_eq!(validate_token(&old), Some(false));
}

#[test]
fn password_hashes_check_against_their_password() {
    let h = password_hash("secret").unwrap();
    assert_ne!(h, "secret");
    assert!(h.starts_with("$2b$12$"));
    assert_eq!(h.len(), 60);
    let table = vec![Credential { username: "me".to_string(), hashed_password: h }];
    assert!(check_credentials(&table, &login("me", "secret")).unwrap());
    assert!(!check_credentials(&table, &login("me", "other")).unwrap());
    assert!(!check_credentials(&table, &login("you", "secret")).unwrap());
}

#[test]
fn bad_stored_hash_is_an_error() {
    let table = vec![Credential { username: "me".to_string(), hashed_password: "nohash".to_string() }];
    assert!(check_credentials(&table, &login("me", "x")).is_err());
    assert!(!check_credentials(&table, &login("other", "x")).unwrap());
}

#[test]
fn lookup_finds_first_account() {
    let table = vec![
        Credential { username: "a".to_string(), hashed_password: "1".to_string() },
        Credential { username: "b".to_string(), hashed_password: "2".to_string() },
        Credential { username: "a".to_string(), hashed_password: "3".to_string() },
    ];
    assert_eq!(lookup_credential(&table, &"a".to_string()), Some(0));
    assert_eq!(lookup_credential(&table, &"b".to_string()), Some(1));
    assert_eq!(lookup_credential(&table, &"c".to_string()), None);
    assert_eq!(lookup_credential(&Vec::new(), &"a".to_string()), None);
}

#[test]
fn builtin_table_has_admin_and_user() {
    let t = builtin_credentials().unwrap();
    assert_eq!(t.len(), 2);
    assert_eq!(t[0].username, "admin");
    assert_eq!(t[1].username, "user");
    assert_ne!(t[0].hashed_password, "admin");
}

#[test]
fn admin_login_accepted() {
    assert!(auth_user(&login("admin", "admin")).unwrap());
}

#[test]
fn user_login_accepted() {
    assert!(auth_user(&login("user", "user")).unwrap());
}

#[test]
fn wrong_password_refused() {
    assert!(!auth_user(&login("admin", "user")).unwrap());
}

#[test]
fn unknown_account_refused() {
    assert!(!auth_user(&login("nobody", "nobody")).unwrap());
}
