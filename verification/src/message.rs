//! The messages exchanged over the WebSocket connection, their abstract
//! views, and the texts that the server composes for them.
use vstd::prelude::*;

verus! {

/// The kind of a WebSocket message.
#[derive(Clone, Copy, Debug, PartialEq, Eq, Structural)]
pub enum MessageType {
    Auth,
    Enter,
    Leave,
    GroupChat,
    PrivateChat,
    PrivateInfo,
    GroupInfo,
}

#[derive(Clone, Debug)]
pub struct EnterMessage {
    pub sender_username: String,
}

#[derive(Clone, Debug)]
pub struct LeaveMessage {
    pub sender_username: String,
}

#[derive(Clone, Debug)]
pub struct GroupChatMessage {
    pub sender_username: String,
    pub content: String,
}

#[derive(Clone, Debug)]
pub struct PrivateChatMessage {
    pub target_username: String,
    pub sender_username: String,
    pub content: String,
}

#[derive(Clone, Debug)]
pub struct AuthMessage {
    pub sender_username: String,
    pub password: String,
}

/// A notice that only the server sends, to one user.
#[derive(Clone, Debug)]
pub struct PrivateInfoMessage {
    pub info: String,
}

/// A notice that only the server sends, to every user.
#[derive(Clone, Debug)]
pub struct GroupInfoMessage {
    pub info: String,
}

#[derive(Clone, Debug)]
pub enum MessageBody {
    Auth(AuthMessage),
    Enter(EnterMessage),
    Leave(LeaveMessage),
    GroupChat(GroupChatMessage),
    PrivateChat(PrivateChatMessage),
    PrivateInfo(PrivateInfoMessage),
    GroupInfo(GroupInfoMessage),
}

/// A whole message: its kind, its body, and the session token of the sender
/// (the 128 bits of a UUID), if it carries one.
#[derive(Clone, Debug)]
pub struct WebSocketMessage {
    pub message_type: MessageType,
    pub message_body: MessageBody,
    pub token: Option<u128>,
}

/// The body of a message with its texts as character sequences.
pub enum BodyView {
    Auth { sender_username: Seq<char>, password: Seq<char> },
    Enter { sender_username: Seq<char> },
    Leave { sender_username: Seq<char> },
    GroupChat { sender_username: Seq<char>, content: Seq<char> },
    PrivateChat { target_username: Seq<char>, sender_username: Seq<char>, content: Seq<char> },
    PrivateInfo { info: Seq<char> },
    GroupInfo { info: Seq<char> },
}

/// A message with its texts as character sequences.
pub struct MessageView {
    pub message_type: MessageType,
    pub body: BodyView,
    pub token: Option<u128>,
}

impl View for MessageBody {
    type V = BodyView;

    open spec fn view(&self) -> BodyView {
        match self {
            MessageBody::Auth(m) => BodyView::Auth {
                sender_username: m.sender_username@,
                password: m.password@,
            },
            MessageBody::Enter(m) => BodyView::Enter { sender_username: m.sender_username@ },
            MessageBody::Leave(m) => BodyView::Leave { sender_username: m.sender_username@ },
            MessageBody::GroupChat(m) => BodyView::GroupChat {
                sender_username: m.sender_username@,
                content: m.content@,
            },
            MessageBody::PrivateChat(m) => BodyView::PrivateChat {
                target_username: m.target_username@,
                sender_username: m.sender_username@,
                content: m.content@,
            },
            MessageBody::PrivateInfo(m) => BodyView::PrivateInfo { info: m.info@ },
            MessageBody::GroupInfo(m) => BodyView::GroupInfo { info: m.info@ },
        }
    }
}

impl View for WebSocketMessage {
    type V = MessageView;

    open spec fn view(&self) -> MessageView {
        MessageView {
            message_type: self.message_type,
            body: self.message_body@,
            token: self.token,
        }
    }
}

/// A private notice carrying `info`, with the given token.
pub open spec fn private_info_view(info: Seq<char>, token: Option<u128>) -> MessageView {
    MessageView {
        message_type: MessageType::PrivateInfo,
        body: BodyView::PrivateInfo { info },
        token,
    }
}

/// A notice to the whole room carrying `info`, with no token.
pub open spec fn group_info_view(info: Seq<char>) -> MessageView {
    MessageView {
        message_type: MessageType::GroupInfo,
        body: BodyView::GroupInfo { info },
        token: None,
    }
}

/// The notice that someone entered the room: `"<name> 进入了聊天室"`.
pub open spec fn enter_notice(name: Seq<char>) -> Seq<char> {
    name + " 进入了聊天室"@
}

/// The notice that someone left the room: `"<name> 离开了聊天室"`.
pub open spec fn leave_notice(name: Seq<char>) -> Seq<char> {
    name + " 离开了聊天室"@
}

/// The text of a group chat line as the room sees it: `"<sender>说：<content>"`.
pub open spec fn group_line(sender: Seq<char>, content: Seq<char>) -> Seq<char> {
    sender + "说："@ + content
}

/// The text of a private line as the target sees it: `"<sender>对你说：<content>"`.
pub open spec fn private_line(sender: Seq<char>, content: Seq<char>) -> Seq<char> {
    sender + "对你说："@ + content
}

/// `prefix` followed by `text`.
pub fn prefixed(prefix: &str, text: &String) -> (r: String)
    ensures
        r@ == prefix@ + text@,
{
    let mut r = String::from_str(prefix);
    r.append(text.as_str());
    r
}

/// `text` followed by `suffix`.
pub fn suffixed(text: &String, suffix: &str) -> (r: String)
    ensures
        r@ == text@ + suffix@,
{
    let mut r = text.clone();
    r.append(suffix);
    r
}

/// `first`, then `middle`, then `last`.
pub fn joined(first: &String, middle: &str, last: &String) -> (r: String)
    ensures
        r@ == first@ + middle@ + last@,
{
    let mut r = first.clone();
    r.append(middle);
    r.append(last.as_str());
    r
}

/// A private notice carrying `info` and `token`.
pub fn private_info(info: String, token: Option<u128>) -> (r: WebSocketMessage)
    ensures
        r@ == private_info_view(info@, token),
{
    WebSocketMessage {
        message_type: MessageType::PrivateInfo,
        message_body: MessageBody::PrivateInfo(PrivateInfoMessage { info }),
        token,
    }
}

/// A notice to the whole room carrying `info`.
pub fn group_info(info: String) -> (r: WebSocketMessage)
    ensures
        r@ == group_info_view(info@),
{
    WebSocketMessage {
        message_type: MessageType::GroupInfo,
        message_body: MessageBody::GroupInfo(GroupInfoMessage { info }),
        token: None,
    }
}

/// The room's notice that `name` entered.
pub fn enter_text(name: &String) -> (r: String)
    ensures
        r@ == enter_notice(name@),
        r@ == name@ + " 进入了聊天室"@,
{
    suffixed(name, " 进入了聊天室")
}

/// The room's notice that `name` left.
pub fn leave_text(name: &String) -> (r: String)
    ensures
        r@ == leave_notice(name@),
        r@ == name@ + " 离开了聊天室"@,
{
    suffixed(name, " 离开了聊天室")
}

/// The room's line for `content` said by `sender`.
pub fn group_text(sender: &String, content: &String) -> (r: String)
    ensures
        r@ == group_line(sender@, content@),
        r@ == sender@ + "说："@ + content@,
{
    joined(sender, "说：", content)
}

/// The target's line for `content` said privately by `sender`.
pub fn private_text(sender: &String, content: &String) -> (r: String)
    ensures
        r@ == private_line(sender@, content@),
        r@ == sender@ + "对你说："@ + content@,
{
    joined(sender, "对你说：", content)
}

/// A private line is the sender's name, the four characters `对你说：`, and
/// the whole content, unchanged: the name and the content can be read back
/// from it.
pub proof fn lemma_private_line_parts(sender: Seq<char>, content: Seq<char>)
    ensures
        private_line(sender, content).len() == sender.len() + 4int + content.len(),
        private_line(sender, content).subrange(0, sender.len() as int) == sender,
        private_line(sender, content).subrange(sender.len() as int, sender.len() + 4int) == "对你说："@,
        private_line(sender, content).subrange(sender.len() + 4int, private_line(sender, content).len() as int)
            == content,
{
    reveal_strlit("对你说：");
    let l = private_line(sender, content);
    assert(l.subrange(0, sender.len() as int) =~= sender);
    assert(l.subrange(sender.len() as int, sender.len() + 4int) =~= "对你说："@);
    assert(l.subrange(sender.len() + 4int, l.len() as int) =~= content);
}

/// A group line is the sender's name, the two characters `说：`, and the
/// whole content, unchanged.
pub proof fn lemma_group_line_parts(sender: Seq<char>, content: Seq<char>)
    ensures
        group_line(sender, content).len() == sender.len() + 2int + content.len(),
        group_line(sender, content).subrange(0, sender.len() as int) == sender,
        group_line(sender, content).subrange(sender.len() as int, sender.len() + 2int) == "说："@,
        group_line(sender, content).subrange(sender.len() + 2int, group_line(sender, content).len() as int)
            == content,
{
    reveal_strlit("说：");
    let l = group_line(sender, content);
    assert(l.subrange(0, sender.len() as int) =~= sender);
    assert(l.subrange(sender.len() as int, sender.len() + 2int) =~= "说："@);
    assert(l.subrange(sender.len() + 2int, l.len() as int) =~= content);
}

/// The notices of entering and leaving are the whole name followed by the
/// seven characters ` 进入了聊天室` or ` 离开了聊天室`.
pub proof fn lemma_room_notice_parts(name: Seq<char>)
    ensures
        enter_notice(name).len() == name.len() + 7int,
        enter_notice(name).subrange(0, name.len() as int) == name,
        enter_notice(name).subrange(name.len() as int, name.len() + 7int) == " 进入了聊天室"@,
        leave_notice(name).len() == name.len() + 7int,
        leave_notice(name).subrange(0, name.len() as int) == name,
        leave_notice(name).subrange(name.len() as int, name.len() + 7int) == " 离开了聊天室"@,
{
    reveal_strlit(" 进入了聊天室");
    reveal_strlit(" 离开了聊天室");
    assert(enter_notice(name).subrange(0, name.len() as int) =~= name);
    assert(enter_notice(name).subrange(name.len() as int, name.len() + 7int) =~= " 进入了聊天室"@);
    assert(leave_notice(name).subrange(0, name.len() as int) =~= name);
    assert(leave_notice(name).subrange(name.len() as int, name.len() + 7int) =~= " 离开了聊天室"@);
}

} // verus!
