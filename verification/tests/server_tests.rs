use chat_server::handle_msg::{
    addressed_to, answer_authenticated, check_token, handle_user_message, recipients, route_message,
    Dispatch, HandleError, TokenCheck,
};
use chat_server::message::{
    AuthMessage, EnterMessage, GroupChatMessage, LeaveMessage, MessageBody, MessageType,
    PrivateChatMessage, PrivateInfoMessage, WebSocketMessage,
};
use chat_server::server::{
    add_token, connected_user, generate_username, reauthenticated, remove_token, unauth_username,
    update_auth, Registry, ServerError,
};
use chat_server::user::{PeerAddr, User};
use tokio_tungstenite::tungstenite::Message;

fn addr(port: u16) -> PeerAddr {
    PeerAddr { ip: 0xffff_7f00_0001, is_ipv6: false, port }
}

fn user(port: u16, name: &str, authenticated: bool) -> User {
    User { source_addr: addr(port), username: name.to_string(), authenticated }
}

fn register(reg: &mut Registry, u: &User) -> tokio::sync::mpsc::Receiver<Message> {
    let (tx, rx) = tokio::sync::mpsc::channel(4);
    reg.register(u.clone(), tx);
    rx
}

fn msg(message_type: MessageType, message_body: MessageBody, token: Option<u128>) -> WebSocketMessage {
    WebSocketMessage { message_type, message_body, token }
}

fn group_chat(sender: &str, content: &str, token: Option<u128>) -> WebSocketMessage {
    msg(
        MessageType::GroupChat,
        MessageBody::GroupChat(GroupChatMessage {
            sender_username: sender.to_string(),
            content: content.to_string(),
        }),
        token,
    )
}

fn auth(name: &str, password: &str) -> WebSocketMessage {
    msg(
        MessageType::Auth,
        MessageBody::Auth(AuthMessage { sender_username: name.to_string(), password: password.to_string() }),
        None,
    )
}

fn personal_info(d: &Dispatch) -> (String, Option<u128>) {
    match d {
        Dispatch::Personal(m) => match &m.message_body {
            MessageBody::PrivateInfo(p) => {
                assert_eq!(m.message_type, MessageType::PrivateInfo);
                (p.info.clone(), m.token)
            }
            _ => panic!("not a private notice"),
        },
        _ => panic!("not personal"),
    }
}

#[test]
fn token_verdicts() {
    assert_eq!(check_token(None, None), TokenCheck::Accepted);
    assert_eq!(check_token(None, Some(3)), TokenCheck::Accepted);
    assert_eq!(check_token(Some(3), Some(3)), TokenCheck::Accepted);
    assert_eq!(check_token(Some(3), Some(4)), TokenCheck::Rejected);
    assert_eq!(check_token(Some(3), None), TokenCheck::Rejected);
}

#[test]
fn routes_enter_and_leave_to_room() {
    let e = msg(MessageType::Enter, MessageBody::Enter(EnterMessage { sender_username: "bob".to_string() }), None);
    match route_message(&e) {
        Dispatch::Group(m) => {
            assert_eq!(m.message_type, MessageType::GroupInfo);
            assert!(matches!(m.message_body, MessageBody::GroupInfo(ref g) if g.info == "bob 进入了聊天室"));
            assert_eq!(m.token, None);
        }
        _ => panic!("enter not sent to the room"),
    }
    let l = msg(MessageType::Leave, MessageBody::Leave(LeaveMessage { sender_username: "bob".to_string() }), Some(1));
    match route_message(&l) {
        Dispatch::Group(m) => {
            assert!(matches!(m.message_body, MessageBody::GroupInfo(ref g) if g.info == "bob 离开了聊天室"));
            assert_eq!(m.token, None);
        }
        _ => panic!("leave not sent to the room"),
    }
}

#[test]
fn routes_group_chat_to_room() {
    match route_message(&group_chat("alice", "hi all", Some(9))) {
        Dispatch::Group(m) => {
            assert_eq!(m.message_type, MessageType::GroupChat);
            match m.message_body {
                MessageBody::GroupChat(g) => {
                    assert_eq!(g.sender_username, "alice");
                    assert_eq!(g.content, "alice说：hi all");
                }
                _ => panic!("wrong body"),
            }
            assert_eq!(m.token, None);
        }
        _ => panic!("group chat not sent to the room"),
    }
}

#[test]
fn routes_private_chat_to_target() {
    let p = msg(
        MessageType::PrivateChat,
        MessageBody::PrivateChat(PrivateChatMessage {
            target_username: "carol".to_string(),
            sender_username: "alice".to_string(),
            content: "hey".to_string(),
        }),
        Some(2),
    );
    match route_message(&p) {
        Dispatch::Private(m, target) => {
            assert_eq!(target, "carol");
            match m.message_body {
                MessageBody::PrivateChat(c) => {
                    assert_eq!(c.target_username, "carol");
                    assert_eq!(c.sender_username, "alice");
                    assert_eq!(c.content, "alice对你说：hey");
                }
                _ => panic!("wrong body"),
            }
        }
        _ => panic!("private chat not sent to the target"),
    }
}

#[test]
fn mismatched_or_server_kinds_go_nowhere() {
    let mismatched = msg(
        MessageType::Enter,
        MessageBody::Leave(LeaveMessage { sender_username: "x".to_string() }),
        None,
    );
    assert!(matches!(route_message(&mismatched), Dispatch::Ignore));
    let info = msg(MessageType::PrivateInfo, MessageBody::PrivateInfo(PrivateInfoMessage { info: "i".to_string() }), None);
    assert!(matches!(route_message(&info), Dispatch::Ignore));
}

#[test]
fn wrong_token_is_refused_and_stops() {
    let r = answer_authenticated(&group_chat("a", "b", Some(1)), Some(2));
    assert!(r.stop);
    assert_eq!(personal_info(&r.dispatch), ("token错误,拒绝处理消息".to_string(), None));
    let ok = answer_authenticated(&group_chat("a", "b", Some(2)), Some(2));
    assert!(!ok.stop);
    assert!(matches!(ok.dispatch, Dispatch::Group(_)));
    let missing = answer_authenticated(&group_chat("a", "b", None), Some(2));
    assert!(missing.stop);
    assert_eq!(personal_info(&missing.dispatch), ("token错误,拒绝处理消息".to_string(), None));
}

fn name_at(reg: &Registry, port: u16) -> Option<(String, bool)> {
    reg.user_at(addr(port)).map(|u| (u.username, u.authenticated))
}

#[test]
fn unauthenticated_user_is_refused() {
    let mut reg = Registry::new();
    let u = user(1, "unauth_user-abcdef", false);
    let _rx = register(&mut reg, &u);
    let r = handle_user_message(&group_chat("x", "y", None), &u, &mut reg).unwrap();
    assert!(!r.stop);
    assert_eq!(personal_info(&r.dispatch), ("未认证，拒绝处理消息".to_string(), None));
    assert_eq!(recipients(&reg, addr(1), &r.dispatch), vec![addr(1)]);
}

#[test]
fn second_login_is_refused() {
    let mut reg = Registry::new();
    let u = user(1, "admin", true);
    let r = handle_user_message(&auth("admin", "admin"), &u, &mut reg).unwrap();
    assert_eq!(personal_info(&r.dispatch), ("你已经登录认证成功，无需继续操作".to_string(), None));
}

#[test]
fn login_with_wrong_body_is_refused() {
    let mut reg = Registry::new();
    let u = user(1, "n", false);
    let m = msg(MessageType::Auth, MessageBody::Enter(EnterMessage { sender_username: "n".to_string() }), None);
    let r = handle_user_message(&m, &u, &mut reg).unwrap();
    assert_eq!(personal_info(&r.dispatch), ("收到无效的认证消息格式".to_string(), None));
}

#[test]
fn login_with_wrong_password_is_refused() {
    let mut reg = Registry::new();
    let u = user(1, "unauth_user-aaaaaa", false);
    let _rx = register(&mut reg, &u);
    let r = handle_user_message(&auth("admin", "wrong"), &u, &mut reg).unwrap();
    assert_eq!(personal_info(&r.dispatch), ("登录认证失败,请检查账号或密码".to_string(), None));
    assert_eq!(name_at(&reg, 1), Some(("unauth_user-aaaaaa".to_string(), false)));
    assert_eq!(reg.token_of(&"admin".to_string()), None);
    assert_eq!(reg.token_of(&"unauth_user-aaaaaa".to_string()), None);
}

#[test]
fn successful_login_reregisters_and_issues_token() {
    let mut reg = Registry::new();
    let u = user(5, "unauth_user-zzzzzz", false);
    let _rx = register(&mut reg, &u);
    let other = user(6, "bystander", false);
    let _rx2 = register(&mut reg, &other);
    let r = handle_user_message(&auth("admin", "admin"), &u, &mut reg).unwrap();
    let (info, token) = personal_info(&r.dispatch);
    assert_eq!(info, "auth-success");
    let token = token.expect("a token");
    // the peer is registered again, under the login name, authenticated
    assert_eq!(name_at(&reg, 5), Some(("admin".to_string(), true)));
    assert_eq!(name_at(&reg, 6), Some(("bystander".to_string(), false)));
    assert_eq!(reg.addrs().len(), 2);
    assert!(reg.sender_of(addr(5)).is_some());
    // the token is recorded under the login name
    assert_eq!(reg.token_of(&"admin".to_string()), Some(token));
    assert_eq!(reg.token_of(&"unauth_user-zzzzzz".to_string()), None);
    assert_eq!(recipients(&reg, addr(5), &r.dispatch), vec![addr(5)]);
}

#[test]
fn later_messages_checked_against_granted_token() {
    let mut reg = Registry::new();
    let u = user(7, "unauth_user-qqqqqq", false);
    let _rx = register(&mut reg, &u);
    let r = handle_user_message(&auth("user", "user"), &u, &mut reg).unwrap();
    let token = personal_info(&r.dispatch).1.unwrap();
    let now = reg.user_at(addr(7)).unwrap();
    let ok = handle_user_message(&group_chat("user", "hi", Some(token)), &now, &mut reg).unwrap();
    assert!(!ok.stop);
    assert!(matches!(ok.dispatch, Dispatch::Group(_)));
    let bad = handle_user_message(&group_chat("user", "hi", Some(token ^ 1)), &now, &mut reg).unwrap();
    assert!(bad.stop);
    assert_eq!(personal_info(&bad.dispatch), ("token错误,拒绝处理消息".to_string(), None));
    let none = handle_user_message(&group_chat("user", "hi", None), &now, &mut reg).unwrap();
    assert!(none.stop);
    assert_eq!(personal_info(&none.dispatch), ("token错误,拒绝处理消息".to_string(), None));
}

#[test]
fn login_of_unregistered_user_fails_update() {
    let mut reg = Registry::new();
    let u = user(6, "n", false);
    let r = handle_user_message(&auth("user", "user"), &u, &mut reg);
    assert!(matches!(r, Err(HandleError::UpdateFailed)));
    assert_eq!(reg.token_of(&"user".to_string()), None);
    assert!(reg.addrs().is_empty());
}

#[test]
fn authenticated_messages_checked_against_stored_token() {
    let mut reg = Registry::new();
    let u = user(1, "admin", true);
    // no token on record: accepted whatever it carries
    let r = handle_user_message(&group_chat("admin", "hi", None), &u, &mut reg).unwrap();
    assert!(matches!(r.dispatch, Dispatch::Group(_)));
    add_token(&mut reg, 42, "admin".to_string()).unwrap();
    let ok = handle_user_message(&group_chat("admin", "hi", Some(42)), &u, &mut reg).unwrap();
    assert!(!ok.stop);
    assert!(matches!(ok.dispatch, Dispatch::Group(_)));
    let bad = handle_user_message(&group_chat("admin", "hi", Some(41)), &u, &mut reg).unwrap();
    assert!(bad.stop);
    assert_eq!(personal_info(&bad.dispatch).0, "token错误,拒绝处理消息");
}

#[test]
fn update_auth_rekeys_peer() {
    let mut reg = Registry::new();
    let u = user(3, "old", false);
    let _rx = register(&mut reg, &u);
    assert_eq!(update_auth(&mut reg, &u, "new"), Ok(()));
    assert_eq!(name_at(&reg, 3), Some(("new".to_string(), true)));
    assert_eq!(reg.addrs(), vec![addr(3)]);
    // a second call with the same user gives the same registry
    assert_eq!(update_auth(&mut reg, &u, "new"), Ok(()));
    assert_eq!(name_at(&reg, 3), Some(("new".to_string(), true)));
    assert_eq!(reg.addrs(), vec![addr(3)]);
    let stranger = user(4, "s", false);
    assert_eq!(update_auth(&mut reg, &stranger, "x"), Err(ServerError::UpdateFailed));
    assert_eq!(name_at(&reg, 4), None);
}

#[test]
fn recipients_of_room_and_private_lines() {
    let mut reg = Registry::new();
    let _a = register(&mut reg, &user(1, "carol", true));
    let _b = register(&mut reg, &user(2, "dave", true));
    let _c = register(&mut reg, &user(3, "carol", false));
    let g = route_message(&group_chat("dave", "hi", None));
    let mut all = recipients(&reg, addr(2), &g);
    all.sort_by_key(|a| a.port);
    assert_eq!(all, vec![addr(1), addr(2), addr(3)]);
    let p = route_message(&msg(
        MessageType::PrivateChat,
        MessageBody::PrivateChat(PrivateChatMessage {
            target_username: "carol".to_string(),
            sender_username: "dave".to_string(),
            content: "x".to_string(),
        }),
        None,
    ));
    let mut to = recipients(&reg, addr(2), &p);
    to.sort_by_key(|a| a.port);
    assert_eq!(to, vec![addr(1), addr(3)]);
    assert!(recipients(&reg, addr(9), &Dispatch::Ignore).is_empty());
    let personal = answer_authenticated(&group_chat("a", "b", None), Some(1));
    assert!(recipients(&reg, addr(9), &personal.dispatch).is_empty());
}

#[test]
fn reauthenticated_keeps_address() {
    let r = reauthenticated(user(9, "a", false), "b");
    assert_eq!(r.source_addr, addr(9));
    assert_eq!(r.username, "b");
    assert!(r.authenticated);
}

#[test]
fn tokens_added_and_removed() {
    let mut reg = Registry::new();
    assert!(add_token(&mut reg, 77, "a".to_string()).is_ok());
    assert_eq!(reg.token_of(&"a".to_string()), Some(77));
    assert!(add_token(&mut reg, 78, "a".to_string()).is_ok());
    assert_eq!(reg.token_of(&"a".to_string()), Some(78));
    assert!(add_token(&mut reg, 5, "b".to_string()).is_ok());
    assert!(remove_token(&mut reg, "a").is_ok());
    assert_eq!(reg.token_of(&"a".to_string()), None);
    assert_eq!(reg.token_of(&"b".to_string()), Some(5));
    assert!(remove_token(&mut reg, "absent").is_ok());
    assert_eq!(reg.token_of(&"b".to_string()), Some(5));
}

#[test]
fn generated_usernames() {
    let n = generate_username();
    assert!(n.starts_with("unauth_user-"));
    assert_eq!(n.len(), 18);
    assert!(n["unauth_user-".len()..].chars().all(|c| c.is_ascii_alphanumeric()));
    assert_eq!(unauth_username(&"abc123".to_string()), "unauth_user-abc123");
}

#[test]
fn private_recipients_by_name() {
    assert!(addressed_to(&user(1, "carol", true), &"carol".to_string()));
    assert!(!addressed_to(&user(1, "carol", true), &"Carol".to_string()));
}

#[test]
fn new_connections_start_logged_out() {
    let u = connected_user(addr(12));
    assert!(u.username["unauth_user-".len()..].chars().all(|c| c.is_ascii_alphanumeric()));
    assert_eq!(u.source_addr, addr(12));
    assert!(!u.authenticated);
    assert!(u.username.starts_with("unauth_user-"));
    assert_eq!(u.username.len(), 18);
}

#[test]
fn login_keeps_each_peer_on_its_own_channel() {
    let mut reg = Registry::new();
    let u = user(21, "unauth_user-aaaaaa", false);
    let mut rx_u = register(&mut reg, &u);
    let mut rx_other = register(&mut reg, &user(22, "other", false));
    assert_eq!(update_auth(&mut reg, &u, "admin"), Ok(()));
    reg.sender_of(addr(21)).unwrap().try_send(Message::Text("to u".to_string())).unwrap();
    reg.sender_of(addr(22)).unwrap().try_send(Message::Text("to other".to_string())).unwrap();
    assert_eq!(rx_u.try_recv().unwrap(), Message::Text("to u".to_string()));
    assert_eq!(rx_other.try_recv().unwrap(), Message::Text("to other".to_string()));
    assert!(rx_u.try_recv().is_err());
    assert!(rx_other.try_recv().is_err());
    assert!(reg.sender_of(addr(23)).is_none());
}
