//! Endpoints for the platform's own back office, which acts on any app by
//! its id.

use vstd::prelude::*;
use crate::handlers::app_admin::{listed_support_user, new_support_user, support_user_listing, support_user_row};
use crate::handlers::Refusal;
use crate::ids::NanoId;
use crate::rows::{SupportUser, SupportUserRow};

verus! {

/// Adds a support user to any app.
pub struct MethodAddSupportUser;

impl MethodAddSupportUser {
    /// The row inserted.
    pub fn row(id: u64, app_public_id: NanoId, tg_handle: String) -> (r: SupportUserRow)
        ensures
            r == new_support_user(id, app_public_id, tg_handle),
    {
        support_user_row(id, app_public_id, tg_handle)
    }
}

/// Lists the support users of any app.
pub struct MethodListSupportUsers;

impl MethodListSupportUsers {
    /// The listing, one entry per row, in order.
    pub fn respond(rows: Vec<SupportUserRow>) -> (r: Vec<SupportUser>)
        ensures
            r@.len() == rows@.len(),
            forall|i: int| 0 <= i < rows@.len() ==> #[trigger] r@[i] == listed_support_user(rows@[i]),
    {
        support_user_listing(rows)
    }
}

/// Removes a support user of an app, named by handle.
pub struct MethodRemoveSupportUser;

/// Whether a support user row is the one of `tg_handle` in `app_public_id`.
pub open spec fn is_support_user(row: SupportUserRow, app_public_id: Seq<char>, tg_handle: Seq<char>) -> bool {
    row.app_public_id@ == app_public_id && row.tg_handle@ == tg_handle
}

/// Whether such a row stands before position `i`.
pub open spec fn support_user_before(
    rows: Seq<SupportUserRow>,
    app_public_id: Seq<char>,
    tg_handle: Seq<char>,
    i: int,
) -> bool {
    exists|k: int| 0 <= k < i && is_support_user(#[trigger] rows[k], app_public_id, tg_handle)
}

impl MethodRemoveSupportUser {
    /// The row id of the first support user with `tg_handle` in
    /// `app_public_id`; refused when there is none.
    pub fn locate(rows: &Vec<SupportUserRow>, app_public_id: &NanoId, tg_handle: &String) -> (r: Result<
        u64,
        Refusal,
    >)
        ensures
            r is Err <==> !support_user_before(rows@, app_public_id@, tg_handle@, rows@.len() as int),
            r is Err ==> r matches Err(Refusal::SupportUserNotFound),
            r matches Ok(id) ==> exists|k: int|
                0 <= k < rows@.len() && is_support_user(rows@[k], app_public_id@, tg_handle@) && rows@[k].id
                    == id && !support_user_before(rows@, app_public_id@, tg_handle@, k),
    {
        let mut i: usize = 0;
        while i < rows.len()
            invariant
                i <= rows@.len(),
                !support_user_before(rows@, app_public_id@, tg_handle@, i as int),
            decreases rows@.len() - i,
        {
            if rows[i].app_public_id.same(app_public_id) && rows[i].tg_handle == *tg_handle {
                return Ok(rows[i].id);
            }
            assert forall|k: int| 0 <= k < i + 1 implies !is_support_user(
                #[trigger] rows@[k],
                app_public_id@,
                tg_handle@,
            ) by {
                if k < i {
                    assert(!support_user_before(rows@, app_public_id@, tg_handle@, i as int));
                }
            }
            i = i + 1;
        }
        Err(Refusal::SupportUserNotFound)
    }
}

/// Edits any app.
pub struct MethodEditApp;

/// A step of a back-office edit, in the order taken.
pub enum PlatformEditStep {
    /// Store a new bot token.
    SetToken(String),
    /// Stop the bot.
    UnregisterBot,
    /// Start the bot with this token.
    RegisterBot(String),
    /// Store a new name.
    SetName(String),
    /// Store the active flag.
    SetActive(bool),
}

/// A back-office edit step with its texts as character sequences.
pub enum PlatformEditStepView {
    SetToken(Seq<char>),
    UnregisterBot,
    RegisterBot(Seq<char>),
    SetName(Seq<char>),
    SetActive(bool),
}

/// The view of a back-office edit step.
pub open spec fn platform_step_view(s: PlatformEditStep) -> PlatformEditStepView {
    match s {
        PlatformEditStep::SetToken(t) => PlatformEditStepView::SetToken(t@),
        PlatformEditStep::UnregisterBot => PlatformEditStepView::UnregisterBot,
        PlatformEditStep::RegisterBot(t) => PlatformEditStepView::RegisterBot(t@),
        PlatformEditStep::SetName(n) => PlatformEditStepView::SetName(n@),
        PlatformEditStep::SetActive(a) => PlatformEditStepView::SetActive(a),
    }
}

/// The steps of a back-office edit: a new token is stored and the bot
/// restarted with it; then a new name is stored; then the active flag.
pub open spec fn platform_edit_steps(
    tg_bot_token: Option<Seq<char>>,
    app_name: Option<Seq<char>>,
    active: Option<bool>,
) -> Seq<PlatformEditStepView> {
    let token = match tg_bot_token {
        Some(t) => seq![
            PlatformEditStepView::SetToken(t),
            PlatformEditStepView::UnregisterBot,
            PlatformEditStepView::RegisterBot(t),
        ],
        None => Seq::empty(),
    };
    let name = match app_name {
        Some(n) => seq![PlatformEditStepView::SetName(n)],
        None => Seq::empty(),
    };
    let flag = match active {
        Some(a) => seq![PlatformEditStepView::SetActive(a)],
        None => Seq::empty(),
    };
    token + name + flag
}

/// What a back-office edit does with each field given: a new token is
/// stored, the bot stopped and started with it, first; a new name is stored
/// next; a given active flag, true or false, is stored exactly once, last.
/// A field that is not given leaves no step.
pub proof fn lemma_platform_edit_steps(t: Option<Seq<char>>, n: Option<Seq<char>>, a: Option<bool>)
    ensures
        platform_edit_steps(t, n, a).len() == (if t is Some { 3int } else { 0int }) + (if n is Some {
            1int
        } else {
            0int
        }) + (if a is Some { 1int } else { 0int }),
        t matches Some(x) ==> platform_edit_steps(t, n, a)[0] == PlatformEditStepView::SetToken(x)
            && platform_edit_steps(t, n, a)[1] == PlatformEditStepView::UnregisterBot && platform_edit_steps(
            t,
            n,
            a,
        )[2] == PlatformEditStepView::RegisterBot(x),
        n matches Some(x) ==> platform_edit_steps(t, n, a)[if t is Some { 3int } else { 0int }]
            == PlatformEditStepView::SetName(x),
        a matches Some(x) ==> platform_edit_steps(t, n, a).last() == PlatformEditStepView::SetActive(x),
        forall|i: int|
            0 <= i < platform_edit_steps(t, n, a).len() ==> (#[trigger] platform_edit_steps(t, n, a)[i] matches
                PlatformEditStepView::SetActive(x) ==> a == Some(x) && i == platform_edit_steps(t, n, a).len() - 1),
        t is None ==> forall|i: int|
            0 <= i < platform_edit_steps(t, n, a).len() ==> !(#[trigger] platform_edit_steps(t, n, a)[i] is SetToken
                || platform_edit_steps(t, n, a)[i] is UnregisterBot || platform_edit_steps(t, n, a)[i] is RegisterBot),
        n is None ==> forall|i: int|
            0 <= i < platform_edit_steps(t, n, a).len() ==> !(#[trigger] platform_edit_steps(t, n, a)[i] is SetName),
{
    let s = platform_edit_steps(t, n, a);
    let tok: Seq<PlatformEditStepView> = match t {
        Some(x) => seq![
            PlatformEditStepView::SetToken(x),
            PlatformEditStepView::UnregisterBot,
            PlatformEditStepView::RegisterBot(x),
        ],
        None => Seq::empty(),
    };
    let nm: Seq<PlatformEditStepView> = match n {
        Some(x) => seq![PlatformEditStepView::SetName(x)],
        None => Seq::empty(),
    };
    let fl: Seq<PlatformEditStepView> = match a {
        Some(x) => seq![PlatformEditStepView::SetActive(x)],
        None => Seq::empty(),
    };
    assert(s == tok + nm + fl);
    assert forall|i: int| 0 <= i < s.len() implies (#[trigger] s[i] matches PlatformEditStepView::SetActive(x)
        ==> a == Some(x) && i == s.len() - 1) by {
        if i < tok.len() + nm.len() {
            assert(s[i] == (tok + nm)[i]);
            if i < tok.len() {
                assert((tok + nm)[i] == tok[i]);
            } else {
                assert((tok + nm)[i] == nm[i - tok.len()]);
            }
        } else {
            assert(s[i] == fl[i - tok.len() - nm.len()]);
        }
    }
    if t is None {
        assert forall|i: int| 0 <= i < s.len() implies !(#[trigger] s[i] is SetToken || s[i] is UnregisterBot
            || s[i] is RegisterBot) by {
            if i < nm.len() {
                assert(s[i] == nm[i]);
            } else {
                assert(s[i] == fl[i - nm.len()]);
            }
        }
    }
    if n is None {
        assert forall|i: int| 0 <= i < s.len() implies !(#[trigger] s[i] is SetName) by {
            if i < tok.len() {
                assert(s[i] == tok[i]);
            } else {
                assert(s[i] == fl[i - tok.len()]);
            }
        }
    }
}

impl MethodEditApp {
    /// The steps of the edit.
    pub fn steps(tg_bot_token: &Option<String>, app_name: &Option<String>, active: Option<bool>) -> (r: Vec<
        PlatformEditStep,
    >)
        ensures
            r@.map_values(|s: PlatformEditStep| platform_step_view(s)) == platform_edit_steps(
                crate::config::opt_view(*tg_bot_token),
                crate::config::opt_view(*app_name),
                active,
            ),
    {
        let mut r: Vec<PlatformEditStep> = Vec::new();
        if let Some(t) = tg_bot_token {
            r.push(PlatformEditStep::SetToken(t.clone()));
            r.push(PlatformEditStep::UnregisterBot);
            r.push(PlatformEditStep::RegisterBot(t.clone()));
        }
        if let Some(n) = app_name {
            r.push(PlatformEditStep::SetName(n.clone()));
        }
        if let Some(a) = active {
            r.push(PlatformEditStep::SetActive(a));
        }
        assert(r@.map_values(|s: PlatformEditStep| platform_step_view(s)) =~= platform_edit_steps(
            crate::config::opt_view(*tg_bot_token),
            crate::config::opt_view(*app_name),
            active,
        ));
        r
    }
}

/// The back office's connection, authenticated by the platform key.
pub struct MethodPlatformConnect;

impl MethodPlatformConnect {
    /// Accepts the connection when the presented key is the configured one.
    pub fn check_key(presented: &String, platform_api_key: &String) -> (r: Result<(), Refusal>)
        ensures
            r is Ok <==> presented@ == platform_api_key@,
            r is Err ==> r matches Err(Refusal::InvalidPlatformKey),
    {
        if *presented == *platform_api_key {
            Ok(())
        } else {
            Err(Refusal::InvalidPlatformKey)
        }
    }
}

} // verus!
