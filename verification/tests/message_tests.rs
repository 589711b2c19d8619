use chat_server::message::{
    enter_text, group_info, group_text, joined, leave_text, prefixed, private_info, private_text,
    suffixed, MessageBody, MessageType,
};

#[test]
fn enter_and_leave_notices() {
    assert_eq!(enter_text(&"bob".to_string()), "bob 进入了聊天室");
    assert_eq!(leave_text(&"bob".to_string()), "bob 离开了聊天室");
    assert_eq!(enter_text(&String::new()), " 进入了聊天室");
}

#[test]
fn chat_lines() {
    assert_eq!(group_text(&"alice".to_string(), &"hello".to_string()), "alice说：hello");
    assert_eq!(private_text(&"alice".to_string(), &"psst".to_string()), "alice对你说：psst");
    assert_eq!(group_text(&"a".to_string(), &String::new()), "a说：");
}

#[test]
fn string_joining() {
    assert_eq!(prefixed("x-", &"y".to_string()), "x-y");
    assert_eq!(suffixed(&"y".to_string(), "-z"), "y-z");
    assert_eq!(joined(&"a".to_string(), "+", &"b".to_string()), "a+b");
}

#[test]
fn info_messages() {
    let p = private_info("hi".to_string(), Some(7));
    assert_eq!(p.message_type, MessageType::PrivateInfo);
    assert_eq!(p.token, Some(7));
    assert!(matches!(p.message_body, MessageBody::PrivateInfo(ref m) if m.info == "hi"));
    let g = group_info("all".to_string());
    assert_eq!(g.message_type, MessageType::GroupInfo);
    assert_eq!(g.token, None);
    assert!(matches!(g.message_body, MessageBody::GroupInfo(ref m) if m.info == "all"));
}
