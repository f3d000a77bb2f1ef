//! The chat endpoints used by widgets and signed-in users, and the widget
//! handshake.

use vstd::prelude::*;
use crate::handlers::{signed_in, Refusal};
use crate::ids::{is_same_id, NanoId};
use crate::model::UserRole;
use crate::rows::{AppConfigRow, ChatSession, ChatSessionRow};

verus! {

/// A widget's connection on behalf of an anonymous visitor.
pub struct MethodAppConnect;

/// What an accepted widget connection is registered with and answered.
pub struct AppConnectGrant {
    /// The app the connection is registered for.
    pub app_public_id: NanoId,
    /// The visitor the connection is registered for.
    pub user_public_id: NanoId,
    /// The app's name, sent back.
    pub app_name: Option<String>,
    /// The role number the connection is granted.
    pub role_id: u32,
}

impl MethodAppConnect {
    /// Accepts a widget connection for `app_public_id` and the visitor
    /// `user_public_id`, given the app's row (if any) and whether the visitor
    /// id is a registered account. An app that does not exist or is not
    /// active is refused first; then the id of any registered account, which
    /// signs in with `Init` instead. An accepted connection gets the `App`
    /// role.
    pub fn auth(
        app_public_id: NanoId,
        user_public_id: NanoId,
        app: Option<AppConfigRow>,
        registered_account: bool,
    ) -> (r: Result<AppConnectGrant, Refusal>)
        ensures
            r is Ok <==> (app matches Some(a) && a.active && !registered_account),
            !(app matches Some(a) && a.active) ==> r matches Err(Refusal::NoSuchApp),
            (app matches Some(a) && a.active) && registered_account ==> r matches Err(
                Refusal::RegisteredAccount,
            ),
            r matches Ok(g) ==> {
                &&& g.app_public_id == app_public_id
                &&& g.user_public_id == user_public_id
                &&& g.app_name == app.unwrap().app_name
                &&& g.role_id == UserRole::App.code_of() as u32
            },
    {
        let row = match app {
            Some(a) => {
                if !a.active {
                    return Err(Refusal::NoSuchApp);
                }
                a
            },
            None => {
                return Err(Refusal::NoSuchApp);
            },
        };
        if registered_account {
            return Err(Refusal::RegisteredAccount);
        }
        Ok(
            AppConnectGrant {
                app_public_id,
                user_public_id,
                app_name: row.app_name,
                role_id: UserRole::App.role_id(),
            },
        )
    }
}

/// Opens a chat session.
pub struct MethodCreateChatSession;

/// The app a new session is opened in.
pub enum SessionDesk {
    /// The app of the widget connection; no further check.
    Connected(NanoId),
    /// The app named in the request; it must accept chats.
    Named(NanoId),
}

impl MethodCreateChatSession {
    /// Decides who may open the session and in which app. A session is opened
    /// only by the user it is for: the connection's user must be the requested
    /// user. The app is the widget connection's app; without one, the app
    /// named in the request, which must then be checked; without either, the
    /// request is refused.
    pub fn desk(
        req_user: &NanoId,
        conn_user: &Option<NanoId>,
        conn_app: Option<NanoId>,
        req_app: Option<NanoId>,
    ) -> (r: Result<SessionDesk, Refusal>)
        ensures
            !(conn_user matches Some(u) && u@ == req_user@) ==> r matches Err(Refusal::NotYourSession),
            r is Ok ==> (conn_user matches Some(u) && u@ == req_user@),
            (conn_user matches Some(u) && u@ == req_user@) ==> {
                &&& conn_app matches Some(a) ==> r == Ok::<SessionDesk, Refusal>(SessionDesk::Connected(a))
                &&& conn_app is None && req_app is Some ==> r == Ok::<SessionDesk, Refusal>(
                    SessionDesk::Named(req_app.unwrap()),
                )
                &&& conn_app is None && req_app is None ==> r matches Err(Refusal::DeskNotNamed)
            },
    {
        if !is_same_id(conn_user, req_user) {
            return Err(Refusal::NotYourSession);
        }
        match conn_app {
            Some(a) => Ok(SessionDesk::Connected(a)),
            None => match req_app {
                Some(a) => Ok(SessionDesk::Named(a)),
                None => Err(Refusal::DeskNotNamed),
            },
        }
    }

    /// The app of a named desk, once checked: refused unless it accepts
    /// chats.
    pub fn after_check(app: NanoId, accepts_chats: bool) -> (r: Result<NanoId, Refusal>)
        ensures
            accepts_chats ==> r == Ok::<NanoId, Refusal>(app),
            !accepts_chats ==> r matches Err(Refusal::NoSuchApp),
    {
        if accepts_chats {
            Ok(app)
        } else {
            Err(Refusal::NoSuchApp)
        }
    }
}

/// The answer to an opened chat session.
pub struct CreateChatSessionResponse {
    pub session_id: NanoId,
    pub created_at: i64,
}

impl MethodCreateChatSession {
    /// The answer: the id and creation time of the session row created.
    pub fn respond(row: &ChatSessionRow) -> (r: CreateChatSessionResponse)
        ensures
            r.session_id@ == row.session_id@,
            r.created_at == row.created_at,
    {
        CreateChatSessionResponse { session_id: row.session_id.clone(), created_at: row.created_at }
    }
}

/// Opens a session for a widget connection.
pub struct MethodCreateSession;

impl MethodCreateSession {
    /// The app the session is opened in: the connection's app; refused when
    /// the connection is not an app's.
    pub fn desk(conn_app: Option<NanoId>) -> (r: Result<NanoId, Refusal>)
        ensures
            conn_app matches Some(a) ==> r == Ok::<NanoId, Refusal>(a),
            conn_app is None ==> r matches Err(Refusal::NotAuthenticatedAsApp),
    {
        signed_in(conn_app, Refusal::NotAuthenticatedAsApp)
    }
}

/// Sends a message into a session.
pub struct MethodSendMessage;

impl MethodSendMessage {
    /// The sender: the connection's user; refused when not signed in.
    pub fn sender(conn_user: Option<NanoId>) -> (r: Result<NanoId, Refusal>)
        ensures
            conn_user matches Some(u) ==> r == Ok::<NanoId, Refusal>(u),
            conn_user is None ==> r matches Err(Refusal::NotAuthenticated),
    {
        signed_in(conn_user, Refusal::NotAuthenticated)
    }
}

/// Closes a chat session on behalf of its user.
pub struct MethodCloseChatSession;

impl MethodCloseChatSession {
    /// The user closing the session: the connection's user; refused when not
    /// signed in.
    pub fn closer(conn_user: Option<NanoId>) -> (r: Result<NanoId, Refusal>)
        ensures
            conn_user matches Some(u) ==> r == Ok::<NanoId, Refusal>(u),
            conn_user is None ==> r matches Err(Refusal::NotAuthenticated),
    {
        signed_in(conn_user, Refusal::NotAuthenticated)
    }
}

/// Closes a session by id.
pub struct MethodCloseSession;

/// The session rows before `i` with the given session id.
pub open spec fn session_found_before(sessions: Seq<ChatSessionRow>, session_id: Seq<char>, i: int) -> bool {
    exists|k: int| 0 <= k < i && #[trigger] sessions[k].session_id@ == session_id
}

impl MethodCloseSession {
    /// The row id of the first session with `session_id`; refused when there
    /// is none.
    pub fn locate(sessions: &Vec<ChatSessionRow>, session_id: &NanoId) -> (r: Result<u64, Refusal>)
        ensures
            r is Err <==> !session_found_before(sessions@, session_id@, sessions@.len() as int),
            r is Err ==> r matches Err(Refusal::SessionNotFound),
            r matches Ok(id) ==> exists|k: int|
                0 <= k < sessions@.len() && sessions@[k].session_id@ == session_id@ && sessions@[k].id == id
                    && !session_found_before(sessions@, session_id@, k),
    {
        let mut i: usize = 0;
        while i < sessions.len()
            invariant
                i <= sessions@.len(),
                !session_found_before(sessions@, session_id@, i as int),
            decreases sessions@.len() - i,
        {
            if sessions[i].session_id.same(session_id) {
                return Ok(sessions[i].id);
            }
            assert forall|k: int| 0 <= k < i + 1 implies #[trigger] sessions@[k].session_id@ != session_id@ by {
                if k < i {
                    assert(!session_found_before(sessions@, session_id@, i as int));
                }
            }
            i = i + 1;
        }
        Err(Refusal::SessionNotFound)
    }
}

/// Lists the messages of a session.
pub struct MethodListMessages;

impl MethodListMessages {
    /// The user whose access to the session is checked: the connection's
    /// user; refused when not signed in.
    pub fn reader(conn_user: Option<NanoId>) -> (r: Result<NanoId, Refusal>)
        ensures
            conn_user matches Some(u) ==> r == Ok::<NanoId, Refusal>(u),
            conn_user is None ==> r matches Err(Refusal::NotAuthenticated),
    {
        signed_in(conn_user, Refusal::NotAuthenticated)
    }

    /// After the app check of a widget connection: refused when the session
    /// belongs to another app.
    pub fn after_app_check(session_is_for_app: bool) -> (r: Result<(), Refusal>)
        ensures
            session_is_for_app ==> r is Ok,
            !session_is_for_app ==> r matches Err(Refusal::SessionNotForApp),
    {
        if session_is_for_app {
            Ok(())
        } else {
            Err(Refusal::SessionNotForApp)
        }
    }
}

/// Lists the sessions of the connection's user.
pub struct MethodListSessions;

/// The listed form of a stored session: the same ids and times.
pub open spec fn listed_session(row: ChatSessionRow) -> ChatSession {
    ChatSession {
        session_id: row.session_id,
        app_public_id: row.app_public_id,
        user_pub_id: row.user_pub_id,
        created_at: row.created_at,
        closed_at: row.closed_at,
    }
}

/// A listed session carries its stored row's own session, app and user ids
/// and its own times.
pub proof fn lemma_listed_session_fields(row: ChatSessionRow)
    ensures
        listed_session(row).session_id == row.session_id,
        listed_session(row).app_public_id == row.app_public_id,
        listed_session(row).user_pub_id == row.user_pub_id,
        listed_session(row).created_at == row.created_at,
        listed_session(row).closed_at == row.closed_at,
{
}

impl MethodListSessions {
    /// The user whose sessions are listed: the connection's user; refused
    /// when not signed in.
    pub fn owner(conn_user: Option<NanoId>) -> (r: Result<NanoId, Refusal>)
        ensures
            conn_user matches Some(u) ==> r == Ok::<NanoId, Refusal>(u),
            conn_user is None ==> r matches Err(Refusal::NotAuthenticated),
    {
        signed_in(conn_user, Refusal::NotAuthenticated)
    }

    /// The listing of the sessions found, one entry per row, in order.
    pub fn respond(rows: Vec<ChatSessionRow>) -> (r: Vec<ChatSession>)
        ensures
            r@.len() == rows@.len(),
            forall|i: int| 0 <= i < rows@.len() ==> #[trigger] r@[i] == listed_session(rows@[i]),
            forall|i: int|
                0 <= i < rows@.len() ==> #[trigger] r@[i].session_id == rows@[i].session_id && r@[i].app_public_id
                    == rows@[i].app_public_id && r@[i].user_pub_id == rows@[i].user_pub_id && r@[i].created_at
                    == rows@[i].created_at && r@[i].closed_at == rows@[i].closed_at,
    {
        let ghost src = rows@;
        let mut out: Vec<ChatSession> = Vec::new();
        for row in it: rows
            invariant
                it.seq() == src,
                out@.len() == it.index(),
                forall|j: int| 0 <= j < it.index() ==> #[trigger] out@[j] == listed_session(src[j]),
        {
            out.push(
                ChatSession {
                    session_id: row.session_id,
                    app_public_id: row.app_public_id,
                    user_pub_id: row.user_pub_id,
                    created_at: row.created_at,
                    closed_at: row.closed_at,
                },
            );
        }
        out
    }
}

/// What a subscription request does to the connection.
pub enum SubscriptionChange {
    /// Stop receiving events.
    Unsubscribe,
    /// Receive the events of the session `session_id` of app `app_public_id`.
    Subscribe { app_public_id: NanoId, session_id: NanoId },
}

/// Subscribes to, or unsubscribes from, the events of a session.
pub struct MethodSubscribeEvents;

impl MethodSubscribeEvents {
    /// The user whose access to the session is checked: the connection's
    /// user; refused when not signed in.
    pub fn subscriber(conn_user: Option<NanoId>) -> (r: Result<NanoId, Refusal>)
        ensures
            conn_user matches Some(u) ==> r == Ok::<NanoId, Refusal>(u),
            conn_user is None ==> r matches Err(Refusal::NotAuthenticated),
    {
        signed_in(conn_user, Refusal::NotAuthenticated)
    }

    /// The change, once access to the session is granted: unsubscribing when
    /// asked to, otherwise subscribing to the session under the app of its
    /// stored row.
    pub fn change(unsub: Option<bool>, session: &ChatSessionRow, session_id: NanoId) -> (r:
        SubscriptionChange)
        ensures
            unsub == Some(true) ==> r is Unsubscribe,
            unsub != Some(true) ==> (r matches SubscriptionChange::Subscribe { app_public_id, session_id: s }
                && app_public_id@ == session.app_public_id@ && s == session_id),
    {
        let unsubscribe = match unsub {
            Some(b) => b,
            None => false,
        };
        if unsubscribe {
            SubscriptionChange::Unsubscribe
        } else {
            SubscriptionChange::Subscribe { app_public_id: session.app_public_id.clone(), session_id }
        }
    }
}

} // verus!
