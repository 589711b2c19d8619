//! The server's answer to one message from one connected user: who gets
//! what, and what changes in the registries on the way.
use vstd::prelude::*;
use crate::message::{
    lemma_group_line_parts, lemma_private_line_parts, lemma_room_notice_parts, enter_notice, enter_text, group_info, group_info_view, group_line, group_text, leave_notice,
    leave_text, private_info, private_info_view, private_line, private_text, BodyView,
    GroupChatMessage, MessageBody, MessageType, MessageView, PrivateChatMessage, WebSocketMessage,
};
use crate::user::{
    auth_user, credentials_pass, credentials_refused, is_builtin_account, is_builtin_login, new_uuid,
    AuthError, PeerAddr, User,
};
use crate::server::{add_token, on_record, update_auth, Registry};

verus! {

/// Where the answer to a message goes.
pub enum Dispatch {
    /// To the user who sent the message.
    Personal(WebSocketMessage),
    /// To every registered peer.
    Group(WebSocketMessage),
    /// To every registered peer with the given name.
    Private(WebSocketMessage, String),
    /// Nowhere.
    Ignore,
}

/// The answer to a message: its dispatch, and whether the server stops
/// looking at the message (it does when the token was wrong).
pub struct Outcome {
    pub dispatch: Dispatch,
    pub stop: bool,
}

/// Why no answer could be given: hashing the built-in passwords failed (the
/// server then gives up on the connection), or the user who logged in is
/// not registered.
#[derive(Debug)]
pub enum HandleError {
    Auth(AuthError),
    UpdateFailed,
}

pub enum DispatchView {
    Personal(MessageView),
    Group(MessageView),
    Private(MessageView, Seq<char>),
    Ignore,
}

pub struct OutcomeView {
    pub dispatch: DispatchView,
    pub stop: bool,
}

impl View for Dispatch {
    type V = DispatchView;

    open spec fn view(&self) -> DispatchView {
        match self {
            Dispatch::Personal(m) => DispatchView::Personal(m@),
            Dispatch::Group(m) => DispatchView::Group(m@),
            Dispatch::Private(m, t) => DispatchView::Private(m@, t@),
            Dispatch::Ignore => DispatchView::Ignore,
        }
    }
}

impl View for Outcome {
    type V = OutcomeView;

    open spec fn view(&self) -> OutcomeView {
        OutcomeView { dispatch: self.dispatch@, stop: self.stop }
    }
}

// ---------------------------------------------------------------------------
// The notices
// ---------------------------------------------------------------------------

pub open spec fn already_authenticated_info() -> Seq<char> {
    "你已经登录认证成功，无需继续操作"@
}

pub open spec fn auth_success_info() -> Seq<char> {
    "auth-success"@
}

pub open spec fn auth_failed_info() -> Seq<char> {
    "登录认证失败,请检查账号或密码"@
}

pub open spec fn invalid_auth_info() -> Seq<char> {
    "收到无效的认证消息格式"@
}

pub open spec fn token_error_info() -> Seq<char> {
    "token错误,拒绝处理消息"@
}

pub open spec fn unauthenticated_info() -> Seq<char> {
    "未认证，拒绝处理消息"@
}

/// A notice to the sender alone, without a token.
pub open spec fn notice(info: Seq<char>) -> OutcomeView {
    OutcomeView { dispatch: DispatchView::Personal(private_info_view(info, None)), stop: false }
}

fn personal_notice(info: &str) -> (r: Outcome)
    ensures
        r@ == notice(info@),
{
    Outcome { dispatch: Dispatch::Personal(private_info(String::from_str(info), None)), stop: false }
}

// ---------------------------------------------------------------------------
// Messages of authenticated users
// ---------------------------------------------------------------------------

/// What an authenticated user's message becomes once its token is accepted:
/// entering and leaving are announced to the room, a group chat line goes
/// to the room as `"<sender>说：<content>"`, a private line goes to the
/// users named by its target as `"<sender>对你说：<content>"`. A body that
/// does not match the kind, and the other kinds, go nowhere.
pub open spec fn route_view(msg: MessageView) -> DispatchView {
    match msg.message_type {
        MessageType::Enter => match msg.body {
            BodyView::Enter { sender_username } => DispatchView::Group(
                group_info_view(enter_notice(sender_username)),
            ),
            _ => DispatchView::Ignore,
        },
        MessageType::Leave => match msg.body {
            BodyView::Leave { sender_username } => DispatchView::Group(
                group_info_view(leave_notice(sender_username)),
            ),
            _ => DispatchView::Ignore,
        },
        MessageType::GroupChat => match msg.body {
            BodyView::GroupChat { sender_username, content } => DispatchView::Group(
                MessageView {
                    message_type: MessageType::GroupChat,
                    body: BodyView::GroupChat {
                        sender_username,
                        content: group_line(sender_username, content),
                    },
                    token: None,
                },
            ),
            _ => DispatchView::Ignore,
        },
        MessageType::PrivateChat => match msg.body {
            BodyView::PrivateChat { target_username, sender_username, content } => DispatchView::Private(
                MessageView {
                    message_type: MessageType::PrivateChat,
                    body: BodyView::PrivateChat {
                        target_username,
                        sender_username,
                        content: private_line(sender_username, content),
                    },
                    token: None,
                },
                target_username,
            ),
            _ => DispatchView::Ignore,
        },
        _ => DispatchView::Ignore,
    }
}

/// The dispatch of an authenticated user's message whose token is accepted.
pub fn route_message(msg: &WebSocketMessage) -> (r: Dispatch)
    ensures
        r@ == route_view(msg@),
{
    match msg.message_type {
        MessageType::Enter => match &msg.message_body {
            MessageBody::Enter(m) => Dispatch::Group(group_info(enter_text(&m.sender_username))),
            _ => Dispatch::Ignore,
        },
        MessageType::Leave => match &msg.message_body {
            MessageBody::Leave(m) => Dispatch::Group(group_info(leave_text(&m.sender_username))),
            _ => Dispatch::Ignore,
        },
        MessageType::GroupChat => match &msg.message_body {
            MessageBody::GroupChat(m) => {
                let content = group_text(&m.sender_username, &m.content);
                Dispatch::Group(
                    WebSocketMessage {
                        message_type: MessageType::GroupChat,
                        message_body: MessageBody::GroupChat(
                            GroupChatMessage { sender_username: m.sender_username.clone(), content },
                        ),
                        token: None,
                    },
                )
            },
            _ => Dispatch::Ignore,
        },
        MessageType::PrivateChat => match &msg.message_body {
            MessageBody::PrivateChat(m) => {
                let content = private_text(&m.sender_username, &m.content);
                Dispatch::Private(
                    WebSocketMessage {
                        message_type: MessageType::PrivateChat,
                        message_body: MessageBody::PrivateChat(
                            PrivateChatMessage {
                                target_username: m.target_username.clone(),
                                sender_username: m.sender_username.clone(),
                                content,
                            },
                        ),
                        token: None,
                    },
                    m.target_username.clone(),
                )
            },
            _ => Dispatch::Ignore,
        },
        _ => Dispatch::Ignore,
    }
}

/// The verdict on the token a message presents.
#[derive(Clone, Copy, Debug, PartialEq, Eq, Structural)]
pub enum TokenCheck {
    Accepted,
    Rejected,
}

/// A message is checked only when a token is on record for its sender; it
/// is then accepted exactly when it carries that token, and a message with
/// no token is rejected like one with a wrong token.
pub open spec fn token_verdict(stored: Option<u128>, presented: Option<u128>) -> TokenCheck {
    match stored {
        None => TokenCheck::Accepted,
        Some(s) => if presented == Some(s) {
            TokenCheck::Accepted
        } else {
            TokenCheck::Rejected
        },
    }
}

/// Checks the token `presented` against the token `stored` on record.
pub fn check_token(stored: Option<u128>, presented: Option<u128>) -> (r: TokenCheck)
    ensures
        r == token_verdict(stored, presented),
{
    match stored {
        None => TokenCheck::Accepted,
        Some(s) => match presented {
            Some(t) => if s == t {
                TokenCheck::Accepted
            } else {
                TokenCheck::Rejected
            },
            None => TokenCheck::Rejected,
        },
    }
}

/// The refusal of a message whose token is wrong or missing: a private
/// notice, after which the server stops looking at the message.
pub open spec fn token_refusal() -> OutcomeView {
    OutcomeView { dispatch: DispatchView::Personal(private_info_view(token_error_info(), None)), stop: true }
}

/// The answer to an authenticated user's message that is not a login, given
/// the token on record for the user.
pub open spec fn authenticated_answer(msg: MessageView, stored: Option<u128>) -> OutcomeView {
    match token_verdict(stored, msg.token) {
        TokenCheck::Rejected => token_refusal(),
        TokenCheck::Accepted => OutcomeView { dispatch: route_view(msg), stop: false },
    }
}

/// Answers an authenticated user's message that is not a login, given the
/// token on record for the user: a wrong or missing token is refused to the
/// sender and ends the handling; otherwise the message is routed.
pub fn answer_authenticated(msg: &WebSocketMessage, stored: Option<u128>) -> (r: Outcome)
    ensures
        r@ == authenticated_answer(msg@, stored),
{
    match check_token(stored, msg.token) {
        TokenCheck::Rejected => Outcome {
            dispatch: Dispatch::Personal(private_info(String::from_str("token错误,拒绝处理消息"), None)),
            stop: true,
        },
        TokenCheck::Accepted => Outcome { dispatch: route_message(msg), stop: false },
    }
}

/// After a login that records `id` as the token of `name`, every later
/// message (other than a login) of the user `name` is routed exactly when it
/// carries `id`, and is otherwise refused to the sender.
pub proof fn lemma_granted_token_guards_messages(tokens: Map<Seq<char>, u128>, name: Seq<char>, id: u128, msg: MessageView)
    requires
        tokens.contains_key(name),
        tokens[name] == id,
    ensures
        authenticated_answer(msg, on_record(tokens, name)) == (if msg.token == Some(id) {
            OutcomeView { dispatch: route_view(msg), stop: false }
        } else {
            token_refusal()
        }),
{
}

// ---------------------------------------------------------------------------
// One message from one user
// ---------------------------------------------------------------------------

/// Whether an outcome is the answer to a successful login: a private notice
/// `auth-success` carrying the new session token.
pub open spec fn is_login_success(o: OutcomeView) -> bool {
    &&& !o.stop
    &&& o.dispatch matches DispatchView::Personal(m)
    &&& m.message_type == MessageType::PrivateInfo
    &&& m.body == (BodyView::PrivateInfo { info: auth_success_info() })
    &&& m.token is Some
}

/// The token granted by a successful login.
pub open spec fn granted_token(o: OutcomeView) -> u128 {
    match o.dispatch {
        DispatchView::Personal(m) => m.token->0,
        _ => 0,
    }
}

/// Whether the answer `o` goes to someone other than the sender.
pub open spec fn reaches_others(o: OutcomeView) -> bool {
    !(o.dispatch is Personal) && !(o.dispatch is Ignore)
}

/// Answers `msg`, received from the connected user `user`, in the registry
/// `reg`.
///
/// A login (`Auth`) from a user already authenticated, with a body that is
/// not a login, or with credentials that bcrypt refuses is answered to the
/// sender alone. A login that bcrypt accepts registers the user again under
/// the login name as authenticated (`update_auth`), records a fresh random
/// token under that name (`add_token`), and sends the token to the sender.
/// Any other message from a user who has not logged in is refused to the
/// sender; from an authenticated user it is checked against the token on
/// record for the user's name and routed (`authenticated_answer`). Only a
/// successful login changes the registry.
pub fn handle_user_message(msg: &WebSocketMessage, user: &User, reg: &mut Registry) -> (r: Result<Outcome, HandleError>)
    ensures
        // logins
        msg.message_type == MessageType::Auth && user.authenticated
            ==> (r matches Ok(o) && o@ == notice(already_authenticated_info())),
        msg.message_type == MessageType::Auth && !user.authenticated && !(msg.message_body is Auth)
            ==> (r matches Ok(o) && o@ == notice(invalid_auth_info())),
        msg.message_type == MessageType::Auth && !user.authenticated && msg.message_body is Auth
            ==> match r {
                Ok(o) => o@ == notice(auth_failed_info()) || is_login_success(o@),
                Err(e) => e is Auth || e is UpdateFailed,
            },
        msg.message_type == MessageType::Auth ==> match msg.message_body {
            MessageBody::Auth(a) => match r {
                Ok(o) => {
                    &&& o@ == notice(auth_failed_info()) ==> !user.authenticated
                        && credentials_refused(a.sender_username@, a.password@)
                    &&& is_login_success(o@) ==> {
                        &&& !user.authenticated
                        &&& credentials_pass(a.sender_username@, a.password@)
                        &&& final(reg).registered() == old(reg).registered().insert(
                            user.source_addr,
                            (a.sender_username@, true),
                        )
                        &&& final(reg).tokens() == old(reg).tokens().insert(
                            a.sender_username@,
                            granted_token(o@),
                        )
                    }
                },
                Err(e) => e is UpdateFailed ==> !user.authenticated
                    && !old(reg).registered().contains_key(user.source_addr),
            },
            _ => true,
        },
        msg.message_type == MessageType::Auth && (msg.message_body matches MessageBody::Auth(a)
            && !is_builtin_account(a.sender_username@)) ==> !(r matches Ok(o) && is_login_success(o@)),
        msg.message_type == MessageType::Auth && !user.authenticated && (msg.message_body matches MessageBody::Auth(a)
            && is_builtin_login(a.sender_username@, a.password@)) ==> !(r matches Ok(o) && o@ == notice(auth_failed_info())),
        // other messages
        msg.message_type != MessageType::Auth && !user.authenticated
            ==> (r matches Ok(o) && o@ == notice(unauthenticated_info())),
        msg.message_type != MessageType::Auth && user.authenticated
            ==> (r matches Ok(o) && o@ == authenticated_answer(msg@, on_record(old(reg).tokens(), user.username@))),
        // the channels never change
        final(reg).senders() == old(reg).senders(),
        // the registry changes only on a successful login
        !(r matches Ok(o) && is_login_success(o@)) ==> final(reg).registered() == old(reg).registered()
            && final(reg).tokens() == old(reg).tokens(),
        // only an authenticated user's accepted message reaches others
        match r {
            Ok(o) => reaches_others(o@) ==> user.authenticated && msg.message_type != MessageType::Auth
                && o@.dispatch == route_view(msg@),
            Err(_) => true,
        },
{
    proof {
        reveal_strlit("你已经登录认证成功，无需继续操作");
        reveal_strlit("登录认证失败,请检查账号或密码");
        reveal_strlit("收到无效的认证消息格式");
        reveal_strlit("auth-success");
        assert(already_authenticated_info()[0] != auth_failed_info()[0]);
    }
    match msg.message_type {
        MessageType::Auth => {
            if user.authenticated {
                Ok(personal_notice("你已经登录认证成功，无需继续操作"))
            } else {
                match &msg.message_body {
                    MessageBody::Auth(a) => match auth_user(a) {
                        Err(e) => Err(HandleError::Auth(e)),
                        Ok(true) => match update_auth(reg, user, a.sender_username.as_str()) {
                            Err(_) => Err(HandleError::UpdateFailed),
                            Ok(()) => {
                                let id = new_uuid();
                                let _ = add_token(reg, id, a.sender_username.clone());
                                let reply = private_info(String::from_str("auth-success"), Some(id));
                                Ok(Outcome { dispatch: Dispatch::Personal(reply), stop: false })
                            },
                        },
                        Ok(false) => Ok(personal_notice("登录认证失败,请检查账号或密码")),
                    },
                    _ => Ok(personal_notice("收到无效的认证消息格式")),
                }
            }
        },
        _ => {
            if user.authenticated {
                let stored = reg.token_of(&user.username);
                Ok(answer_authenticated(msg, stored))
            } else {
                Ok(personal_notice("未认证，拒绝处理消息"))
            }
        },
    }
}

/// Whether the peer `user` is a recipient of a private message to `target`.
pub fn addressed_to(user: &User, target: &String) -> (r: bool)
    ensures
        r == (user.username@ == target@),
{
    user.username == *target
}

/// The addresses that an answer to a message from `from` goes to: the sender
/// for a personal answer (if registered), every registered peer for the
/// room, every peer named by the target for a private line, none otherwise.
pub open spec fn is_recipient(registered: Map<PeerAddr, (Seq<char>, bool)>, from: PeerAddr, d: DispatchView, a: PeerAddr) -> bool {
    match d {
        DispatchView::Personal(_) => a == from && registered.contains_key(from),
        DispatchView::Group(_) => registered.contains_key(a),
        DispatchView::Private(_, target) => registered.contains_key(a) && registered[a].0 == target,
        DispatchView::Ignore => false,
    }
}

/// The addresses, each once, that `dispatch` (answering `from`) goes to.
pub fn recipients(reg: &Registry, from: PeerAddr, dispatch: &Dispatch) -> (r: Vec<PeerAddr>)
    ensures
        r@.no_duplicates(),
        forall|a: PeerAddr| r@.contains(a) <==> is_recipient(reg.registered(), from, dispatch@, a),
        match dispatch@ {
            DispatchView::Personal(_) => forall|a: PeerAddr|
                r@.contains(a) <==> (a == from && reg.registered().contains_key(from)),
            DispatchView::Group(_) => forall|a: PeerAddr| r@.contains(a) <==> reg.registered().contains_key(a),
            DispatchView::Private(_, t) => forall|a: PeerAddr|
                r@.contains(a) <==> (reg.registered().contains_key(a) && reg.registered()[a].0 == t),
            DispatchView::Ignore => r@.len() == 0,
        },
{
    match dispatch {
        Dispatch::Personal(_) => {
            let mut r: Vec<PeerAddr> = Vec::new();
            if reg.user_at(from).is_some() {
                r.push(from);
                proof {
                    assert forall|a: PeerAddr| r@.contains(a) <==> a == from by {
                        if r@.contains(a) {
                            assert(r@[0] == a);
                        }
                        if a == from {
                            assert(r@[0] == a);
                        }
                    }
                }
            }
            r
        },
        Dispatch::Group(_) => reg.addrs(),
        Dispatch::Private(_, target) => reg.peers_named(target),
        Dispatch::Ignore => Vec::new(),
    }
}

/// A private line reaches only registered peers that bear the target's
/// name, and reaches nobody when no registered peer bears it; a personal
/// answer reaches at most the sender; the room is every registered peer.
pub proof fn lemma_who_is_reached(
    registered: Map<PeerAddr, (Seq<char>, bool)>,
    from: PeerAddr,
    m: MessageView,
    target: Seq<char>,
    a: PeerAddr,
)
    ensures
        is_recipient(registered, from, DispatchView::Private(m, target), a)
            ==> registered.contains_key(a) && registered[a].0 == target,
        (forall|b: PeerAddr| registered.contains_key(b) ==> registered[b].0 != target)
            ==> !is_recipient(registered, from, DispatchView::Private(m, target), a),
        (registered.contains_key(a) && registered[a].0 == target)
            ==> is_recipient(registered, from, DispatchView::Private(m, target), a),
        is_recipient(registered, from, DispatchView::Personal(m), a) ==> a == from,
        is_recipient(registered, from, DispatchView::Group(m), a) <==> registered.contains_key(a),
        !is_recipient(registered, from, DispatchView::Ignore, a),
{
}

/// Routing keeps what was said: the room's line and the target's line are
/// the sender's name, a fixed connective, and the whole content; the
/// private line goes to the target named in the message and keeps the
/// target and sender; the notices of entering and leaving start with the
/// whole name. Nothing routed carries a token.
pub proof fn lemma_route_keeps_content(msg: MessageView)
    ensures
        msg.message_type == MessageType::PrivateChat ==> match msg.body {
            BodyView::PrivateChat { target_username, sender_username, content } => {
                &&& route_view(msg) matches DispatchView::Private(m, to)
                &&& to == target_username
                &&& m.message_type == MessageType::PrivateChat
                &&& m.token is None
                &&& m.body matches BodyView::PrivateChat { target_username: t2, sender_username: s2, content: c2 }
                &&& t2 == target_username
                &&& s2 == sender_username
                &&& c2.len() == sender_username.len() + 4 + content.len()
                &&& c2.subrange(0, sender_username.len() as int) == sender_username
                &&& c2.subrange(sender_username.len() + 4int, c2.len() as int) == content
            },
            _ => route_view(msg) is Ignore,
        },
        msg.message_type == MessageType::GroupChat ==> match msg.body {
            BodyView::GroupChat { sender_username, content } => {
                &&& route_view(msg) matches DispatchView::Group(m)
                &&& m.message_type == MessageType::GroupChat
                &&& m.token is None
                &&& m.body matches BodyView::GroupChat { sender_username: s2, content: c2 }
                &&& s2 == sender_username
                &&& c2.len() == sender_username.len() + 2 + content.len()
                &&& c2.subrange(0, sender_username.len() as int) == sender_username
                &&& c2.subrange(sender_username.len() + 2int, c2.len() as int) == content
            },
            _ => route_view(msg) is Ignore,
        },
        msg.message_type == MessageType::Enter ==> match msg.body {
            BodyView::Enter { sender_username } => {
                &&& route_view(msg) matches DispatchView::Group(m)
                &&& m.message_type == MessageType::GroupInfo
                &&& m.token is None
                &&& m.body matches BodyView::GroupInfo { info }
                &&& info.len() == sender_username.len() + 7
                &&& info.subrange(0, sender_username.len() as int) == sender_username
            },
            _ => route_view(msg) is Ignore,
        },
        msg.message_type == MessageType::Leave ==> match msg.body {
            BodyView::Leave { sender_username } => {
                &&& route_view(msg) matches DispatchView::Group(m)
                &&& m.message_type == MessageType::GroupInfo
                &&& m.token is None
                &&& m.body matches BodyView::GroupInfo { info }
                &&& info.len() == sender_username.len() + 7
                &&& info.subrange(0, sender_username.len() as int) == sender_username
            },
            _ => route_view(msg) is Ignore,
        },
{
    match msg.body {
        BodyView::PrivateChat { target_username, sender_username, content } => {
            lemma_private_line_parts(sender_username, content);
        },
        BodyView::GroupChat { sender_username, content } => {
            lemma_group_line_parts(sender_username, content);
        },
        BodyView::Enter { sender_username } => {
            lemma_room_notice_parts(sender_username);
        },
        BodyView::Leave { sender_username } => {
            lemma_room_notice_parts(sender_username);
        },
        _ => {},
    }
}

} // verus!
