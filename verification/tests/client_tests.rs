use chat_server::client::{
    auth_request, group_message, group_sent, login_status, parse_command, plan_command,
    private_message, private_sent, render_incoming, token_from_reply, ClientStep, Command,
    UserStatus,
};
use chat_server::handle_msg::{route_message, Dispatch};
use chat_server::message::{
    AuthMessage, EnterMessage, GroupChatMessage, GroupInfoMessage, LeaveMessage, MessageBody,
    MessageType, PrivateChatMessage, PrivateInfoMessage, WebSocketMessage,
};

fn status(in_room: bool) -> UserStatus {
    UserStatus { username: Some("amy".to_string()), is_auth: true, in_room }
}

fn notice_of(step: ClientStep) -> String {
    match step {
        ClientStep::Notice(n) => n,
        _ => panic!("not a notice"),
    }
}

fn msg(message_type: MessageType, message_body: MessageBody, token: Option<u128>) -> WebSocketMessage {
    WebSocketMessage { message_type, message_body, token }
}

#[test]
fn login_request() {
    let (m, name) = auth_request("amy".to_string(), "pw".to_string());
    assert_eq!(name, "amy");
    assert_eq!(m.message_type, MessageType::Auth);
    assert_eq!(m.token, None);
    match m.message_body {
        MessageBody::Auth(a) => {
            assert_eq!(a.sender_username, "amy");
            assert_eq!(a.password, "pw");
        }
        _ => panic!("not a login"),
    }
}

#[test]
fn token_of_reply() {
    let ok = msg(MessageType::PrivateInfo, MessageBody::PrivateInfo(PrivateInfoMessage { info: "auth-success".to_string() }), Some(5));
    assert_eq!(token_from_reply(&ok), Some(5));
    let refused = msg(MessageType::PrivateInfo, MessageBody::PrivateInfo(PrivateInfoMessage { info: "no".to_string() }), None);
    assert_eq!(token_from_reply(&refused), None);
    let other = msg(MessageType::GroupInfo, MessageBody::GroupInfo(GroupInfoMessage { info: "x".to_string() }), Some(5));
    assert_eq!(token_from_reply(&other), None);
}

#[test]
fn status_after_login() {
    let s = login_status("amy".to_string(), Some(1)).unwrap();
    assert_eq!(s.username.as_deref(), Some("amy"));
    assert!(s.is_auth);
    assert!(!s.in_room);
    assert!(login_status("amy".to_string(), None).is_none());
}

#[test]
fn command_words() {
    assert_eq!(parse_command(&"in".to_string()), Command::Enter);
    assert_eq!(parse_command(&"out".to_string()), Command::Leave);
    assert_eq!(parse_command(&"group".to_string()), Command::Group);
    assert_eq!(parse_command(&"private".to_string()), Command::Private);
    assert_eq!(parse_command(&"IN".to_string()), Command::Unknown);
    assert_eq!(parse_command(&String::new()), Command::Unknown);
}

#[test]
fn entering_the_room() {
    match plan_command(&status(false), Command::Enter, Some(3)) {
        ClientStep::Send(m, in_room, done) => {
            assert!(in_room);
            assert_eq!(done, "进入聊天室成功");
            assert_eq!(m.message_type, MessageType::Enter);
            assert_eq!(m.token, Some(3));
            assert!(matches!(m.message_body, MessageBody::Enter(ref e) if e.sender_username == "amy"));
        }
        _ => panic!("enter not sent"),
    }
    assert_eq!(notice_of(plan_command(&status(true), Command::Enter, Some(3))), "您已经在聊天室中，请勿重复进入");
}

#[test]
fn leaving_the_room() {
    match plan_command(&status(true), Command::Leave, None) {
        ClientStep::Send(m, in_room, done) => {
            assert!(!in_room);
            assert_eq!(done, "退出聊天室成功");
            assert_eq!(m.message_type, MessageType::Leave);
            assert!(matches!(m.message_body, MessageBody::Leave(ref e) if e.sender_username == "amy"));
        }
        _ => panic!("leave not sent"),
    }
    assert_eq!(notice_of(plan_command(&status(false), Command::Leave, None)), "您已经退出聊天室，请勿重复退出");
}

#[test]
fn enter_then_leave_returns_outside() {
    let mut s = status(false);
    if let ClientStep::Send(_, in_room, _) = plan_command(&s, Command::Enter, None) {
        s.in_room = in_room;
    }
    assert!(s.in_room);
    assert!(matches!(plan_command(&s, Command::Enter, None), ClientStep::Notice(_)));
    if let ClientStep::Send(_, in_room, _) = plan_command(&s, Command::Leave, None) {
        s.in_room = in_room;
    }
    assert!(!s.in_room);
}

#[test]
fn group_and_private_need_the_right_place() {
    assert!(matches!(plan_command(&status(true), Command::Group, None), ClientStep::ReadGroupContent));
    assert_eq!(notice_of(plan_command(&status(false), Command::Group, None)), "您还未进入聊天室，请先进入聊天室");
    assert!(matches!(plan_command(&status(false), Command::Private, None), ClientStep::ReadPrivateInput));
    assert_eq!(notice_of(plan_command(&status(true), Command::Private, None)), "您已经在聊天室中，无法进行私聊");
    assert_eq!(notice_of(plan_command(&status(true), Command::Unknown, None)), "输入错误，请重新输入");
}

#[test]
fn chat_messages_carry_name_and_token() {
    let g = group_message(&status(true), "hello".to_string(), Some(8));
    assert_eq!(g.message_type, MessageType::GroupChat);
    assert_eq!(g.token, Some(8));
    assert!(matches!(g.message_body, MessageBody::GroupChat(ref c) if c.sender_username == "amy" && c.content == "hello"));
    let p = private_message(&status(false), "bo".to_string(), "psst".to_string(), Some(8));
    assert_eq!(p.message_type, MessageType::PrivateChat);
    assert_eq!(p.token, Some(8));
    assert!(matches!(p.message_body, MessageBody::PrivateChat(ref c)
        if c.sender_username == "amy" && c.target_username == "bo" && c.content == "psst"));
    assert_eq!(group_sent(), "发送群聊消息成功");
    assert_eq!(private_sent(), "发送私聊消息成功");
}

#[test]
fn rendering_incoming_messages() {
    let e = msg(MessageType::Enter, MessageBody::Enter(EnterMessage { sender_username: "b".to_string() }), None);
    assert_eq!(render_incoming(&e), "b 进入了聊天室");
    let l = msg(MessageType::Leave, MessageBody::Leave(LeaveMessage { sender_username: "b".to_string() }), None);
    assert_eq!(render_incoming(&l), "b 离开了聊天室");
    let g = msg(MessageType::GroupChat, MessageBody::GroupChat(GroupChatMessage { sender_username: "b".to_string(), content: "c".to_string() }), None);
    assert_eq!(render_incoming(&g), "(群聊)b: c");
    let p = msg(MessageType::PrivateChat, MessageBody::PrivateChat(PrivateChatMessage {
        target_username: "t".to_string(), sender_username: "b".to_string(), content: "c".to_string() }), None);
    assert_eq!(render_incoming(&p), "(私聊)b to 'me': c");
    let pi = msg(MessageType::PrivateInfo, MessageBody::PrivateInfo(PrivateInfoMessage { info: "i".to_string() }), None);
    assert_eq!(render_incoming(&pi), "(通知): i");
    let gi = msg(MessageType::GroupInfo, MessageBody::GroupInfo(GroupInfoMessage { info: "i".to_string() }), None);
    assert_eq!(render_incoming(&gi), "(通知): i");
    let a = msg(MessageType::Auth, MessageBody::Auth(AuthMessage { sender_username: "u".to_string(), password: "p".to_string() }), None);
    assert_eq!(render_incoming(&a), "e");
    let mismatched = msg(MessageType::GroupChat, MessageBody::Enter(EnterMessage { sender_username: "b".to_string() }), None);
    assert_eq!(render_incoming(&mismatched), "e");
}

#[test]
fn room_sees_group_line() {
    let sent = group_message(&status(true), "hi".to_string(), Some(1));
    match route_message(&sent) {
        Dispatch::Group(m) => assert_eq!(render_incoming(&m), "(群聊)amy: amy说：hi"),
        _ => panic!("not sent to the room"),
    }
}

#[test]
fn room_sees_entry_notice() {
    if let ClientStep::Send(sent, _, _) = plan_command(&status(false), Command::Enter, Some(1)) {
        match route_message(&sent) {
            Dispatch::Group(m) => assert_eq!(render_incoming(&m), "(通知): amy 进入了聊天室"),
            _ => panic!("not sent to the room"),
        }
    } else {
        panic!("enter refused");
    }
}

#[test]
fn target_sees_private_line() {
    let sent = private_message(&status(false), "bo".to_string(), "x".to_string(), None);
    match route_message(&sent) {
        Dispatch::Private(m, target) => {
            assert_eq!(target, "bo");
            assert_eq!(render_incoming(&m), "(私聊)amy to 'me': amy对你说：x");
        }
        _ => panic!("not sent privately"),
    }
}
