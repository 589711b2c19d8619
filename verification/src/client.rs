//! The console client's decisions: the login request, the token in the
//! server's answer, what each command does given whether the user is in
//! the room, and how an incoming message is shown.
use vstd::prelude::*;
use crate::handle_msg::{granted_token, is_login_success, notice, route_view, DispatchView, OutcomeView};
use crate::message::{
    enter_notice, group_info_view, group_line, leave_notice, private_line, AuthMessage, BodyView, EnterMessage, GroupChatMessage,
    LeaveMessage, MessageBody, MessageType, MessageView, PrivateChatMessage, WebSocketMessage,
};

verus! {

#[verifier::external_type_specification]
#[verifier::external_body]
pub struct ExJsonError(serde_json::Error);

/// What can go wrong on the client's side of the connection.
pub enum WsError {
    ParseError(serde_json::Error),
    AuthError(String),
}

/// What the client knows of its user: the login name, whether the login
/// succeeded, and whether the user is in the chat room.
pub struct UserStatus {
    pub username: Option<String>,
    pub is_auth: bool,
    pub in_room: bool,
}

/// The login request for `username` with `password`, and the name itself.
pub fn auth_request(username: String, password: String) -> (r: (WebSocketMessage, String))
    ensures
        r.0@ == (MessageView {
            message_type: MessageType::Auth,
            body: BodyView::Auth { sender_username: username@, password: password@ },
            token: None,
        }),
        r.1@ == username@,
{
    let name = username.clone();
    let msg = WebSocketMessage {
        message_type: MessageType::Auth,
        message_body: MessageBody::Auth(AuthMessage { sender_username: username, password }),
        token: None,
    };
    (msg, name)
}

/// The token in the server's first answer: the token of a private notice,
/// and none for any other body.
pub open spec fn reply_token(msg: MessageView) -> Option<u128> {
    match msg.body {
        BodyView::PrivateInfo { .. } => msg.token,
        _ => None,
    }
}

/// The token that the server's first answer grants.
pub fn token_from_reply(msg: &WebSocketMessage) -> (r: Option<u128>)
    ensures
        r == reply_token(msg@),
        msg.message_body is PrivateInfo ==> r == msg.token,
        !(msg.message_body is PrivateInfo) ==> r is None,
{
    match &msg.message_body {
        MessageBody::PrivateInfo(_) => msg.token,
        _ => None,
    }
}

/// The status after the login of `username`: logged in and outside the room
/// when a token was granted, and no status otherwise.
pub fn login_status(username: String, token: Option<u128>) -> (r: Option<UserStatus>)
    ensures
        r is Some <==> token is Some,
        r matches Some(s) ==> s.is_auth && !s.in_room && (s.username matches Some(n) && n@ == username@),
{
    match token {
        Some(_) => Some(UserStatus { username: Some(username), is_auth: true, in_room: false }),
        None => None,
    }
}

// ---------------------------------------------------------------------------
// Commands
// ---------------------------------------------------------------------------

/// A command typed by the user.
#[derive(Clone, Copy, Debug, PartialEq, Eq, Structural)]
pub enum Command {
    /// `in`: enter the room.
    Enter,
    /// `out`: leave the room.
    Leave,
    /// `group`: say something to the room.
    Group,
    /// `private`: say something to one user.
    Private,
    /// Anything else.
    Unknown,
}

/// The command named by `word` (already trimmed and lower-cased).
pub open spec fn command_of(word: Seq<char>) -> Command {
    if word == "in"@ {
        Command::Enter
    } else if word == "out"@ {
        Command::Leave
    } else if word == "group"@ {
        Command::Group
    } else if word == "private"@ {
        Command::Private
    } else {
        Command::Unknown
    }
}

/// Reads the command named by `word` (already trimmed and lower-cased).
pub fn parse_command(word: &String) -> (r: Command)
    ensures
        r == command_of(word@),
{
    if *word == String::from_str("in") {
        Command::Enter
    } else if *word == String::from_str("out") {
        Command::Leave
    } else if *word == String::from_str("group") {
        Command::Group
    } else if *word == String::from_str("private") {
        Command::Private
    } else {
        Command::Unknown
    }
}

/// What the client does with a command.
pub enum ClientStep {
    /// Shows the notice and waits for the next command; nothing changes.
    Notice(String),
    /// Sends the message, records whether the user is now in the room, and
    /// shows the second text.
    Send(WebSocketMessage, bool, String),
    /// Asks for the text to say to the room.
    ReadGroupContent,
    /// Asks for the user to talk to and the text to say.
    ReadPrivateInput,
}

pub enum ClientStepView {
    Notice(Seq<char>),
    Send(MessageView, bool, Seq<char>),
    ReadGroupContent,
    ReadPrivateInput,
}

impl View for ClientStep {
    type V = ClientStepView;

    open spec fn view(&self) -> ClientStepView {
        match self {
            ClientStep::Notice(n) => ClientStepView::Notice(n@),
            ClientStep::Send(m, b, t) => ClientStepView::Send(m@, *b, t@),
            ClientStep::ReadGroupContent => ClientStepView::ReadGroupContent,
            ClientStep::ReadPrivateInput => ClientStepView::ReadPrivateInput,
        }
    }
}

pub open spec fn already_in_room_notice() -> Seq<char> {
    "您已经在聊天室中，请勿重复进入"@
}

pub open spec fn already_out_notice() -> Seq<char> {
    "您已经退出聊天室，请勿重复退出"@
}

pub open spec fn not_in_room_notice() -> Seq<char> {
    "您还未进入聊天室，请先进入聊天室"@
}

pub open spec fn no_private_in_room_notice() -> Seq<char> {
    "您已经在聊天室中，无法进行私聊"@
}

pub open spec fn bad_input_notice() -> Seq<char> {
    "输入错误，请重新输入"@
}

pub open spec fn entered_text() -> Seq<char> {
    "进入聊天室成功"@
}

pub open spec fn left_text() -> Seq<char> {
    "退出聊天室成功"@
}

pub open spec fn group_sent_text() -> Seq<char> {
    "发送群聊消息成功"@
}

pub open spec fn private_sent_text() -> Seq<char> {
    "发送私聊消息成功"@
}

/// The message of kind `kind` and body `body` sent with the client's token.
pub open spec fn outgoing(kind: MessageType, body: BodyView, token: Option<u128>) -> MessageView {
    MessageView { message_type: kind, body, token }
}

/// What a command does, for a user named `name` who is (or is not) in the
/// room and holds `token`: `in` is refused in the room, `out` and `group`
/// outside it, `private` in it; `in` and `out` send the notice of entering
/// or leaving and change whether the user is in the room.
pub open spec fn step_view(name: Seq<char>, in_room: bool, command: Command, token: Option<u128>) -> ClientStepView {
    match command {
        Command::Enter => if in_room {
            ClientStepView::Notice(already_in_room_notice())
        } else {
            ClientStepView::Send(
                outgoing(MessageType::Enter, BodyView::Enter { sender_username: name }, token),
                true,
                entered_text(),
            )
        },
        Command::Leave => if !in_room {
            ClientStepView::Notice(already_out_notice())
        } else {
            ClientStepView::Send(
                outgoing(MessageType::Leave, BodyView::Leave { sender_username: name }, token),
                false,
                left_text(),
            )
        },
        Command::Group => if !in_room {
            ClientStepView::Notice(not_in_room_notice())
        } else {
            ClientStepView::ReadGroupContent
        },
        Command::Private => if in_room {
            ClientStepView::Notice(no_private_in_room_notice())
        } else {
            ClientStepView::ReadPrivateInput
        },
        Command::Unknown => ClientStepView::Notice(bad_input_notice()),
    }
}

fn text(s: &str) -> (r: String)
    ensures
        r@ == s@,
{
    String::from_str(s)
}

/// What the client does with `command`. The client only takes commands
/// once logged in, so the user has a name.
pub fn plan_command(status: &UserStatus, command: Command, token: Option<u128>) -> (r: ClientStep)
    requires
        status.username is Some,
    ensures
        r@ == step_view(status.username->0@, status.in_room, command, token),
        r matches ClientStep::Send(m, _, _) ==> m.token == token,
{
    let name = match &status.username {
        Some(n) => n.clone(),
        None => String::new(),
    };
    match command {
        Command::Enter => if status.in_room {
            ClientStep::Notice(text("您已经在聊天室中，请勿重复进入"))
        } else {
            let msg = WebSocketMessage {
                message_type: MessageType::Enter,
                message_body: MessageBody::Enter(EnterMessage { sender_username: name }),
                token,
            };
            ClientStep::Send(msg, true, text("进入聊天室成功"))
        },
        Command::Leave => if !status.in_room {
            ClientStep::Notice(text("您已经退出聊天室，请勿重复退出"))
        } else {
            let msg = WebSocketMessage {
                message_type: MessageType::Leave,
                message_body: MessageBody::Leave(LeaveMessage { sender_username: name }),
                token,
            };
            ClientStep::Send(msg, false, text("退出聊天室成功"))
        },
        Command::Group => if !status.in_room {
            ClientStep::Notice(text("您还未进入聊天室，请先进入聊天室"))
        } else {
            ClientStep::ReadGroupContent
        },
        Command::Private => if status.in_room {
            ClientStep::Notice(text("您已经在聊天室中，无法进行私聊"))
        } else {
            ClientStep::ReadPrivateInput
        },
        Command::Unknown => ClientStep::Notice(text("输入错误，请重新输入")),
    }
}

/// Whether the user is in the room after `command`.
pub open spec fn in_room_after(name: Seq<char>, in_room: bool, command: Command, token: Option<u128>) -> bool {
    match step_view(name, in_room, command, token) {
        ClientStepView::Send(_, now_in, _) => now_in,
        _ => in_room,
    }
}

/// Entering and then leaving the room brings a user who was outside back
/// outside, and each of the two commands sends a message; entering twice
/// and leaving twice are refused the second time.
pub proof fn lemma_enter_then_leave(name: Seq<char>, token: Option<u128>)
    ensures
        step_view(name, false, Command::Enter, token) is Send,
        in_room_after(name, false, Command::Enter, token),
        step_view(name, true, Command::Leave, token) is Send,
        !in_room_after(name, in_room_after(name, false, Command::Enter, token), Command::Leave, token),
        step_view(name, in_room_after(name, false, Command::Enter, token), Command::Enter, token) is Notice,
        step_view(name, in_room_after(name, true, Command::Leave, token), Command::Leave, token) is Notice,
{
}

/// Only `in` and `out` change whether the user is in the room, and a
/// refused command changes nothing.
pub proof fn lemma_only_enter_and_leave_move(name: Seq<char>, in_room: bool, command: Command, token: Option<u128>)
    ensures
        (command != Command::Enter && command != Command::Leave) ==> in_room_after(name, in_room, command, token) == in_room,
        step_view(name, in_room, command, token) is Notice ==> in_room_after(name, in_room, command, token) == in_room,
{
}

/// The group chat line `content`, sent with the user's name and token.
pub fn group_message(status: &UserStatus, content: String, token: Option<u128>) -> (r: WebSocketMessage)
    requires
        status.username is Some,
    ensures
        r@ == outgoing(
            MessageType::GroupChat,
            BodyView::GroupChat { sender_username: status.username->0@, content: content@ },
            token,
        ),
        r.token == token,
        r.message_type == MessageType::GroupChat,
{
    let name = match &status.username {
        Some(n) => n.clone(),
        None => String::new(),
    };
    WebSocketMessage {
        message_type: MessageType::GroupChat,
        message_body: MessageBody::GroupChat(GroupChatMessage { sender_username: name, content }),
        token,
    }
}

/// The private line `content` to `target`, sent with the user's name and
/// token.
pub fn private_message(status: &UserStatus, target: String, content: String, token: Option<u128>) -> (r: WebSocketMessage)
    requires
        status.username is Some,
    ensures
        r@ == outgoing(
            MessageType::PrivateChat,
            BodyView::PrivateChat {
                target_username: target@,
                sender_username: status.username->0@,
                content: content@,
            },
            token,
        ),
        r.token == token,
        r.message_type == MessageType::PrivateChat,
{
    let name = match &status.username {
        Some(n) => n.clone(),
        None => String::new(),
    };
    WebSocketMessage {
        message_type: MessageType::PrivateChat,
        message_body: MessageBody::PrivateChat(
            PrivateChatMessage { target_username: target, sender_username: name, content },
        ),
        token,
    }
}

/// The text shown once a group chat line is sent.
pub fn group_sent() -> (r: String)
    ensures
        r@ == group_sent_text(),
{
    text("发送群聊消息成功")
}

/// The text shown once a private line is sent.
pub fn private_sent() -> (r: String)
    ensures
        r@ == private_sent_text(),
{
    text("发送私聊消息成功")
}

// ---------------------------------------------------------------------------
// Showing incoming messages
// ---------------------------------------------------------------------------

/// The line shown for an incoming message; `e` where the body does not
/// match the kind, and for a login.
pub open spec fn shown(msg: MessageView) -> Seq<char> {
    match msg.message_type {
        MessageType::Enter => match msg.body {
            BodyView::Enter { sender_username } => enter_notice(sender_username),
            _ => "e"@,
        },
        MessageType::Leave => match msg.body {
            BodyView::Leave { sender_username } => leave_notice(sender_username),
            _ => "e"@,
        },
        MessageType::GroupChat => match msg.body {
            BodyView::GroupChat { sender_username, content } => "(群聊)"@ + sender_username + ": "@ + content,
            _ => "e"@,
        },
        MessageType::PrivateChat => match msg.body {
            BodyView::PrivateChat { sender_username, content, .. } => "(私聊)"@ + sender_username
                + " to 'me': "@ + content,
            _ => "e"@,
        },
        MessageType::PrivateInfo => match msg.body {
            BodyView::PrivateInfo { info } => "(通知): "@ + info,
            _ => "e"@,
        },
        MessageType::GroupInfo => match msg.body {
            BodyView::GroupInfo { info } => "(通知): "@ + info,
            _ => "e"@,
        },
        MessageType::Auth => "e"@,
    }
}

/// The line shown for an incoming message.
pub fn render_incoming(msg: &WebSocketMessage) -> (r: String)
    ensures
        r@ == shown(msg@),
        msg.message_type == MessageType::PrivateInfo ==> match &msg.message_body {
            MessageBody::PrivateInfo(m) => r@ == "(通知): "@ + m.info@,
            _ => r@ == "e"@,
        },
        msg.message_type == MessageType::GroupInfo ==> match &msg.message_body {
            MessageBody::GroupInfo(m) => r@ == "(通知): "@ + m.info@,
            _ => r@ == "e"@,
        },
        msg.message_type == MessageType::GroupChat ==> match &msg.message_body {
            MessageBody::GroupChat(m) => r@ == "(群聊)"@ + m.sender_username@ + ": "@ + m.content@,
            _ => r@ == "e"@,
        },
        msg.message_type == MessageType::PrivateChat ==> match &msg.message_body {
            MessageBody::PrivateChat(m) => r@ == "(私聊)"@ + m.sender_username@ + " to 'me': "@ + m.content@,
            _ => r@ == "e"@,
        },
        msg.message_type == MessageType::Enter ==> match &msg.message_body {
            MessageBody::Enter(m) => r@ == m.sender_username@ + " 进入了聊天室"@,
            _ => r@ == "e"@,
        },
        msg.message_type == MessageType::Leave ==> match &msg.message_body {
            MessageBody::Leave(m) => r@ == m.sender_username@ + " 离开了聊天室"@,
            _ => r@ == "e"@,
        },
        msg.message_type == MessageType::Auth ==> r@ == "e"@,
{
    match msg.message_type {
        MessageType::Enter => match &msg.message_body {
            MessageBody::Enter(m) => crate::message::enter_text(&m.sender_username),
            _ => text("e"),
        },
        MessageType::Leave => match &msg.message_body {
            MessageBody::Leave(m) => crate::message::leave_text(&m.sender_username),
            _ => text("e"),
        },
        MessageType::GroupChat => match &msg.message_body {
            MessageBody::GroupChat(m) => {
                let mut r = text("(群聊)");
                r.append(m.sender_username.as_str());
                r.append(": ");
                r.append(m.content.as_str());
                r
            },
            _ => text("e"),
        },
        MessageType::PrivateChat => match &msg.message_body {
            MessageBody::PrivateChat(m) => {
                let mut r = text("(私聊)");
                r.append(m.sender_username.as_str());
                r.append(" to 'me': ");
                r.append(m.content.as_str());
                r
            },
            _ => text("e"),
        },
        MessageType::PrivateInfo => match &msg.message_body {
            MessageBody::PrivateInfo(m) => crate::message::prefixed("(通知): ", &m.info),
            _ => text("e"),
        },
        MessageType::GroupInfo => match &msg.message_body {
            MessageBody::GroupInfo(m) => crate::message::prefixed("(通知): ", &m.info),
            _ => text("e"),
        },
        MessageType::Auth => text("e"),
    }
}

// ---------------------------------------------------------------------------
// Client and server together
// ---------------------------------------------------------------------------

/// The client takes a token from the server's answer to a login exactly
/// when the login succeeded: a success carries the token, every refusal is
/// a notice without one.
pub proof fn lemma_login_reply_token(o: OutcomeView, info: Seq<char>)
    ensures
        is_login_success(o) ==> (o.dispatch matches DispatchView::Personal(m) && reply_token(m) == Some(granted_token(o))),
        notice(info).dispatch matches DispatchView::Personal(m) && reply_token(m) is None,
{
}

/// When a user named `name` enters the room, the server announces it to the
/// room, and every client shows `"(通知): <name> 进入了聊天室"`; leaving
/// likewise shows `"(通知): <name> 离开了聊天室"`.
pub proof fn lemma_room_hears_entry_and_exit(name: Seq<char>, token: Option<u128>)
    ensures
        step_view(name, false, Command::Enter, token) matches ClientStepView::Send(m, _, _)
            && route_view(m) == DispatchView::Group(group_info_view(enter_notice(name)))
            && shown(group_info_view(enter_notice(name))) == "(通知): "@ + enter_notice(name),
        step_view(name, true, Command::Leave, token) matches ClientStepView::Send(m, _, _)
            && route_view(m) == DispatchView::Group(group_info_view(leave_notice(name)))
            && shown(group_info_view(leave_notice(name))) == "(通知): "@ + leave_notice(name),
{
}

/// A group line `content` said by `name` reaches the whole room and shows
/// as `"(群聊)<name>: <name>说：<content>"`; a private line to `target`
/// reaches the users named `target` and shows as
/// `"(私聊)<name> to 'me': <name>对你说：<content>"`.
pub proof fn lemma_chat_lines_as_shown(name: Seq<char>, target: Seq<char>, content: Seq<char>, token: Option<u128>)
    ensures
        ({
            let sent = outgoing(
                MessageType::GroupChat,
                BodyView::GroupChat { sender_username: name, content },
                token,
            );
            route_view(sent) matches DispatchView::Group(m)
                && shown(m) == "(群聊)"@ + name + ": "@ + group_line(name, content)
        }),
        ({
            let sent = outgoing(
                MessageType::PrivateChat,
                BodyView::PrivateChat { target_username: target, sender_username: name, content },
                token,
            );
            route_view(sent) matches DispatchView::Private(m, to)
                && to == target
                && shown(m) == "(私聊)"@ + name + " to 'me': "@ + private_line(name, content)
        }),
{
}

/// Every message the client sends for a command carries the client's
/// token and the user's own name as its sender: `in` sends an `Enter` and
/// `out` a `Leave`, and nothing else is sent directly.
pub proof fn lemma_commands_send_own_name_and_token(name: Seq<char>, in_room: bool, command: Command, token: Option<u128>)
    ensures
        step_view(name, in_room, command, token) matches ClientStepView::Send(m, now_in, _) ==> {
            &&& m.token == token
            &&& (command == Command::Enter ==> m.message_type == MessageType::Enter
                && m.body == (BodyView::Enter { sender_username: name }) && now_in)
            &&& (command == Command::Leave ==> m.message_type == MessageType::Leave
                && m.body == (BodyView::Leave { sender_username: name }) && !now_in)
            &&& (command == Command::Enter || command == Command::Leave)
        },
{
}

/// The client keeps from a private notice exactly the token it carries,
/// all 128 bits, and from any other message none.
pub proof fn lemma_reply_token_is_carried_token(msg: MessageView)
    ensures
        msg.body is PrivateInfo ==> reply_token(msg) == msg.token,
        !(msg.body is PrivateInfo) ==> reply_token(msg) is None,
        forall|info: Seq<char>, t: Option<u128>|
            #[trigger] reply_token(crate::message::private_info_view(info, t)) == t,
{
}

/// A notice is shown as the six characters `(通知): ` followed by its whole
/// info, unchanged.
pub proof fn lemma_notices_shown_whole(info: Seq<char>, t: Option<u128>)
    ensures
        shown(crate::message::private_info_view(info, t)).len() == 6 + info.len(),
        shown(crate::message::private_info_view(info, t)).subrange(0, 6) == "(通知): "@,
        shown(crate::message::private_info_view(info, t)).subrange(6, 6 + info.len() as int) == info,
        shown(crate::message::group_info_view(info)).len() == 6 + info.len(),
        shown(crate::message::group_info_view(info)).subrange(6, 6 + info.len() as int) == info,
{
    reveal_strlit("(通知): ");
    let a = shown(crate::message::private_info_view(info, t));
    assert(a.subrange(0, 6) =~= "(通知): "@);
    assert(a.subrange(6, 6 + info.len() as int) =~= info);
    let b = shown(crate::message::group_info_view(info));
    assert(b.subrange(6, 6 + info.len() as int) =~= info);
}

/// Chat lines are shown with the whole sender and the whole content: a
/// group line as `(群聊)<sender>: <content>`, a private one as
/// `(私聊)<sender> to 'me': <content>`.
pub proof fn lemma_chat_lines_shown_whole(sender: Seq<char>, content: Seq<char>, target: Seq<char>, t: Option<u128>)
    ensures
        ({
            let g = shown(outgoing(MessageType::GroupChat, BodyView::GroupChat { sender_username: sender, content }, t));
            &&& g.len() == 4 + sender.len() + 2 + content.len()
            &&& g.subrange(4, 4 + sender.len() as int) == sender
            &&& g.subrange(4 + sender.len() as int + 2, g.len() as int) == content
        }),
        ({
            let p = shown(outgoing(
                MessageType::PrivateChat,
                BodyView::PrivateChat { target_username: target, sender_username: sender, content },
                t,
            ));
            &&& p.len() == 4 + sender.len() + 10 + content.len()
            &&& p.subrange(4, 4 + sender.len() as int) == sender
            &&& p.subrange(4 + sender.len() as int + 10, p.len() as int) == content
        }),
{
    reveal_strlit("(群聊)");
    reveal_strlit(": ");
    reveal_strlit("(私聊)");
    reveal_strlit(" to 'me': ");
    let g = shown(outgoing(MessageType::GroupChat, BodyView::GroupChat { sender_username: sender, content }, t));
    assert(g.subrange(4, 4 + sender.len() as int) =~= sender);
    assert(g.subrange(4 + sender.len() as int + 2, g.len() as int) =~= content);
    let p = shown(outgoing(
        MessageType::PrivateChat,
        BodyView::PrivateChat { target_username: target, sender_username: sender, content },
        t,
    ));
    assert(p.subrange(4, 4 + sender.len() as int) =~= sender);
    assert(p.subrange(4 + sender.len() as int + 10, p.len() as int) =~= content);
}

} // verus!
