//! The sign-in callback as a state machine. After Google redirects the user
//! back with a code, the flow fetches Google's discovery document, trades the
//! code for tokens at the token endpoint it names, reads the profile out of
//! the ID token, and either finds the user's Google account (login) or
//! registers the user and the account (registration). The outside work
//! (HTTP, JSON, database) is done by the caller, who performs each action
//! and hands the result back as the next event.

use vstd::prelude::*;
use vstd::utf8::{decode_utf8, valid_utf8};

use crate::claims::{
    claims_of, claims_piece, decode_claims, has_claims, has_claims_piece, ClaimsError,
};
use crate::external::base64_url_no_pad_decoded;
use crate::client::{code_exchange_request, request_fields, CodeExchangeRequest};

verus! {

/// Where Google publishes its OpenID configuration, token endpoint included.
pub const GOOGLE_DOCUMENT_DISCOVERY_URL: &'static str =
    "https://accounts.google.com/.well-known/openid-configuration";

/// The provider name stored with Google accounts.
pub const GOOGLE_PROVIDER: &'static str = "google";

/// The answer when the user's Google account already exists.
pub const LOGIN_MESSAGE: &'static str = "Login successfullly";

/// The answer once a new user and account have been stored.
pub const REGISTRATION_MESSAGE: &'static str = "Registration completed successfully";

/// What the ID token's claims say about the user.
pub struct UserProfile {
    pub name: String,
    pub email: String,
    /// The user's identifier at Google.
    pub sub: String,
    pub email_verified: bool,
}

/// A user profile, each text by its view.
pub struct ProfileView {
    pub name: Seq<char>,
    pub email: Seq<char>,
    pub sub: Seq<char>,
    pub email_verified: bool,
}

impl View for UserProfile {
    type V = ProfileView;

    open spec fn view(&self) -> ProfileView {
        ProfileView {
            name: self.name@,
            email: self.email@,
            sub: self.sub@,
            email_verified: self.email_verified,
        }
    }
}

/// The user row to insert on registration; the database gives its id.
pub struct NewUser {
    pub name: String,
    pub email: String,
    pub email_verified: bool,
}

/// The account row to insert on registration, linked to its user.
pub struct NewAccount {
    pub user_id: u128,
    pub provider: String,
    pub password: Option<String>,
    pub provider_id: Option<String>,
}

/// Where the callback flow stands.
pub enum Stage {
    AwaitingDiscovery,
    AwaitingTokens,
    AwaitingProfile,
    AwaitingAccountLookup(UserProfile),
    AwaitingTransaction(UserProfile),
    AwaitingUser(UserProfile),
    AwaitingAccount(UserProfile),
    AwaitingCommit,
    Done,
    Failed,
}

/// A stage, with the profile it carries by its view.
pub enum StageView {
    AwaitingDiscovery,
    AwaitingTokens,
    AwaitingProfile,
    AwaitingAccountLookup(ProfileView),
    AwaitingTransaction(ProfileView),
    AwaitingUser(ProfileView),
    AwaitingAccount(ProfileView),
    AwaitingCommit,
    Done,
    Failed,
}

impl View for Stage {
    type V = StageView;

    open spec fn view(&self) -> StageView {
        match self {
            Stage::AwaitingDiscovery => StageView::AwaitingDiscovery,
            Stage::AwaitingTokens => StageView::AwaitingTokens,
            Stage::AwaitingProfile => StageView::AwaitingProfile,
            Stage::AwaitingAccountLookup(p) => StageView::AwaitingAccountLookup(p@),
            Stage::AwaitingTransaction(p) => StageView::AwaitingTransaction(p@),
            Stage::AwaitingUser(p) => StageView::AwaitingUser(p@),
            Stage::AwaitingAccount(p) => StageView::AwaitingAccount(p@),
            Stage::AwaitingCommit => StageView::AwaitingCommit,
            Stage::Done => StageView::Done,
            Stage::Failed => StageView::Failed,
        }
    }
}

/// What the caller reports back after performing an action.
pub enum CallbackEvent {
    /// The discovery document named this token endpoint.
    DiscoveryFetched { token_endpoint: String },
    /// The token endpoint answered with this ID token.
    TokensReceived { id_token: String },
    /// The claims text parsed into this profile.
    ProfileParsed(UserProfile),
    /// The lookup for the user's Google account found one, or not.
    AccountLookedUp { found: bool },
    /// The registration transaction has begun.
    TransactionBegun,
    /// The user row was stored under this id.
    UserInserted { user_id: u128 },
    /// The account row was stored.
    AccountInserted,
    /// The registration transaction was committed.
    Committed,
}

/// An event, each text by its view.
pub enum EventView {
    DiscoveryFetched(Seq<char>),
    TokensReceived(Seq<char>),
    ProfileParsed(ProfileView),
    AccountLookedUp(bool),
    TransactionBegun,
    UserInserted(u128),
    AccountInserted,
    Committed,
}

impl View for CallbackEvent {
    type V = EventView;

    open spec fn view(&self) -> EventView {
        match self {
            CallbackEvent::DiscoveryFetched { token_endpoint } => EventView::DiscoveryFetched(
                token_endpoint@,
            ),
            CallbackEvent::TokensReceived { id_token } => EventView::TokensReceived(id_token@),
            CallbackEvent::ProfileParsed(p) => EventView::ProfileParsed(p@),
            CallbackEvent::AccountLookedUp { found } => EventView::AccountLookedUp(*found),
            CallbackEvent::TransactionBegun => EventView::TransactionBegun,
            CallbackEvent::UserInserted { user_id } => EventView::UserInserted(*user_id),
            CallbackEvent::AccountInserted => EventView::AccountInserted,
            CallbackEvent::Committed => EventView::Committed,
        }
    }
}

/// What the caller is to do next.
pub enum CallbackAction {
    /// Fetch the discovery document at `url`.
    FetchDiscovery { url: String },
    /// Post `request` as JSON to `token_endpoint`.
    RequestTokens { token_endpoint: String, request: CodeExchangeRequest },
    /// Parse the claims text as a user profile.
    ParseProfile { claims: String },
    /// Look for an account with this provider and provider id.
    FindAccount { provider: String, provider_id: String },
    /// Begin the registration transaction.
    BeginTransaction,
    /// Store this user.
    InsertUser(NewUser),
    /// Store this account.
    InsertAccount(NewAccount),
    /// Commit the registration transaction.
    Commit,
    /// Answer the browser with this message; the flow is over.
    Respond { message: String },
    /// The ID token's claims could not be read; the flow is over.
    Fail(ClaimsError),
}

/// An action, each text by its view.
pub enum ActionView {
    FetchDiscovery(Seq<char>),
    RequestTokens(Seq<char>, (Seq<char>, Seq<char>, Seq<char>, Seq<char>, Seq<char>)),
    ParseProfile(Seq<char>),
    FindAccount(Seq<char>, Seq<char>),
    BeginTransaction,
    InsertUser(Seq<char>, Seq<char>, bool),
    InsertAccount(u128, Seq<char>, Option<Seq<char>>, Option<Seq<char>>),
    Commit,
    Respond(Seq<char>),
    Fail(ClaimsError),
}

/// An optional text by its view.
pub open spec fn opt_view(o: Option<String>) -> Option<Seq<char>> {
    match o {
        Some(s) => Some(s@),
        None => None,
    }
}

impl View for CallbackAction {
    type V = ActionView;

    open spec fn view(&self) -> ActionView {
        match self {
            CallbackAction::FetchDiscovery { url } => ActionView::FetchDiscovery(url@),
            CallbackAction::RequestTokens { token_endpoint, request } => ActionView::RequestTokens(
                token_endpoint@,
                request_fields(*request),
            ),
            CallbackAction::ParseProfile { claims } => ActionView::ParseProfile(claims@),
            CallbackAction::FindAccount { provider, provider_id } => ActionView::FindAccount(
                provider@,
                provider_id@,
            ),
            CallbackAction::BeginTransaction => ActionView::BeginTransaction,
            CallbackAction::InsertUser(u) => ActionView::InsertUser(
                u.name@,
                u.email@,
                u.email_verified,
            ),
            CallbackAction::InsertAccount(a) => ActionView::InsertAccount(
                a.user_id,
                a.provider@,
                opt_view(a.password),
                opt_view(a.provider_id),
            ),
            CallbackAction::Commit => ActionView::Commit,
            CallbackAction::Respond { message } => ActionView::Respond(message@),
            CallbackAction::Fail(e) => ActionView::Fail(*e),
        }
    }
}

/// The callback flow: the client's credentials, the code Google sent back,
/// and where the flow stands.
pub struct CallbackFlow {
    client_id: String,
    client_secret: String,
    redirect_uri: String,
    code: String,
    stage: Stage,
}

/// A callback flow, each text by its view.
pub struct FlowView {
    pub client_id: Seq<char>,
    pub client_secret: Seq<char>,
    pub redirect_uri: Seq<char>,
    pub code: Seq<char>,
    pub stage: StageView,
}

impl View for CallbackFlow {
    type V = FlowView;

    closed spec fn view(&self) -> FlowView {
        FlowView {
            client_id: self.client_id@,
            client_secret: self.client_secret@,
            redirect_uri: self.redirect_uri@,
            code: self.code@,
            stage: self.stage@,
        }
    }
}

/// Whether the flow, where it stands, takes the event: the event answers
/// the flow's last action, and an ID token has a claims piece.
pub open spec fn accepts(f: FlowView, e: EventView) -> bool {
    match (f.stage, e) {
        (StageView::AwaitingDiscovery, EventView::DiscoveryFetched(_)) => true,
        (StageView::AwaitingTokens, EventView::TokensReceived(t)) => has_claims_piece(t),
        (StageView::AwaitingProfile, EventView::ProfileParsed(_)) => true,
        (StageView::AwaitingAccountLookup(_), EventView::AccountLookedUp(_)) => true,
        (StageView::AwaitingTransaction(_), EventView::TransactionBegun) => true,
        (StageView::AwaitingUser(_), EventView::UserInserted(_)) => true,
        (StageView::AwaitingAccount(_), EventView::AccountInserted) => true,
        (StageView::AwaitingCommit, EventView::Committed) => true,
        _ => false,
    }
}

/// The stage the flow moves to on an event it takes, and the action that
/// comes with the move.
pub open spec fn transition(f: FlowView, e: EventView) -> (StageView, ActionView) {
    match (f.stage, e) {
        (StageView::AwaitingDiscovery, EventView::DiscoveryFetched(endpoint)) => (
            StageView::AwaitingTokens,
            ActionView::RequestTokens(
                endpoint,
                (f.code, f.client_id, f.client_secret, f.redirect_uri, "authorization_code"@),
            ),
        ),
        (StageView::AwaitingTokens, EventView::TokensReceived(t)) => match claims_of(t) {
            Ok(c) => (StageView::AwaitingProfile, ActionView::ParseProfile(c)),
            Err(err) => (StageView::Failed, ActionView::Fail(err)),
        },
        (StageView::AwaitingProfile, EventView::ProfileParsed(p)) => (
            StageView::AwaitingAccountLookup(p),
            ActionView::FindAccount(GOOGLE_PROVIDER@, p.sub),
        ),
        (StageView::AwaitingAccountLookup(p), EventView::AccountLookedUp(found)) => if found {
            (StageView::Done, ActionView::Respond(LOGIN_MESSAGE@))
        } else {
            (StageView::AwaitingTransaction(p), ActionView::BeginTransaction)
        },
        (StageView::AwaitingTransaction(p), EventView::TransactionBegun) => (
            StageView::AwaitingUser(p),
            ActionView::InsertUser(p.name, p.email, p.email_verified),
        ),
        (StageView::AwaitingUser(p), EventView::UserInserted(id)) => (
            StageView::AwaitingAccount(p),
            ActionView::InsertAccount(id, GOOGLE_PROVIDER@, None, Some(p.sub)),
        ),
        (StageView::AwaitingAccount(_), EventView::AccountInserted) => (
            StageView::AwaitingCommit,
            ActionView::Commit,
        ),
        (StageView::AwaitingCommit, EventView::Committed) => (
            StageView::Done,
            ActionView::Respond(REGISTRATION_MESSAGE@),
        ),
        _ => (StageView::Failed, ActionView::Commit),
    }
}

/// The flow after an event it takes.
pub open spec fn next_flow(f: FlowView, e: EventView) -> FlowView {
    FlowView { stage: transition(f, e).0, ..f }
}

impl CallbackFlow {
    /// A flow for the code Google sent back, and its first action: fetch
    /// Google's discovery document.
    pub fn new(client_id: String, client_secret: String, redirect_uri: String, code: String) -> (r: (
        CallbackFlow,
        CallbackAction,
    ))
        ensures
            r.0@ == (FlowView {
                client_id: client_id@,
                client_secret: client_secret@,
                redirect_uri: redirect_uri@,
                code: code@,
                stage: StageView::AwaitingDiscovery,
            }),
            r.1@ == ActionView::FetchDiscovery(GOOGLE_DOCUMENT_DISCOVERY_URL@),
    {
        (
            CallbackFlow { client_id, client_secret, redirect_uri, code, stage: Stage::AwaitingDiscovery },
            CallbackAction::FetchDiscovery { url: GOOGLE_DOCUMENT_DISCOVERY_URL.to_string() },
        )
    }

    /// Whether the flow takes `event` where it stands.
    pub fn accepts(&self, event: &CallbackEvent) -> (r: bool)
        ensures
            r == accepts(self@, event@),
    {
        match (&self.stage, event) {
            (Stage::AwaitingDiscovery, CallbackEvent::DiscoveryFetched { .. }) => true,
            (Stage::AwaitingTokens, CallbackEvent::TokensReceived { id_token }) => has_claims(
                id_token.as_str(),
            ),
            (Stage::AwaitingProfile, CallbackEvent::ProfileParsed(_)) => true,
            (Stage::AwaitingAccountLookup(_), CallbackEvent::AccountLookedUp { .. }) => true,
            (Stage::AwaitingTransaction(_), CallbackEvent::TransactionBegun) => true,
            (Stage::AwaitingUser(_), CallbackEvent::UserInserted { .. }) => true,
            (Stage::AwaitingAccount(_), CallbackEvent::AccountInserted) => true,
            (Stage::AwaitingCommit, CallbackEvent::Committed) => true,
            _ => false,
        }
    }

    /// Whether the flow is over: it answered the browser, or it failed.
    pub fn is_finished(&self) -> (r: bool)
        ensures
            r == (self@.stage is Done || self@.stage is Failed),
    {
        match self.stage {
            Stage::Done | Stage::Failed => true,
            _ => false,
        }
    }

    /// Takes an event that answers the last action, and gives the flow's
    /// next state and the action to perform.
    pub fn step(self, event: CallbackEvent) -> (r: (CallbackFlow, CallbackAction))
        requires
            accepts(self@, event@),
        ensures
            r.0@ == next_flow(self@, event@),
            r.1@ == transition(self@, event@).1,
            r.0@.code == self@.code,
            r.0@.client_id == self@.client_id,
            r.0@.client_secret == self@.client_secret,
            r.0@.redirect_uri == self@.redirect_uri,
            event@ matches EventView::DiscoveryFetched(endpoint) ==> r.1@ == ActionView::RequestTokens(
                endpoint,
                (
                    self@.code,
                    self@.client_id,
                    self@.client_secret,
                    self@.redirect_uri,
                    "authorization_code"@,
                ),
            ),
            event@ matches EventView::ProfileParsed(p) ==> r.1@ == ActionView::FindAccount(
                GOOGLE_PROVIDER@,
                p.sub,
            ),
    {
        proof {
            law_transitions(self@, event@);
        }
        let CallbackFlow { client_id, client_secret, redirect_uri, code, stage } = self;
        let (next, action) = match (stage, event) {
            (Stage::AwaitingDiscovery, CallbackEvent::DiscoveryFetched { token_endpoint }) => {
                let request = code_exchange_request(
                    client_id.as_str(),
                    client_secret.as_str(),
                    redirect_uri.as_str(),
                    code.as_str(),
                );
                (Stage::AwaitingTokens, CallbackAction::RequestTokens { token_endpoint, request })
            },
            (Stage::AwaitingTokens, CallbackEvent::TokensReceived { id_token }) => {
                match decode_claims(id_token.as_str()) {
                    Ok(claims) => (Stage::AwaitingProfile, CallbackAction::ParseProfile { claims }),
                    Err(err) => (Stage::Failed, CallbackAction::Fail(err)),
                }
            },
            (Stage::AwaitingProfile, CallbackEvent::ProfileParsed(profile)) => {
                let provider_id = profile.sub.clone();
                (
                    Stage::AwaitingAccountLookup(profile),
                    CallbackAction::FindAccount {
                        provider: GOOGLE_PROVIDER.to_string(),
                        provider_id,
                    },
                )
            },
            (Stage::AwaitingAccountLookup(profile), CallbackEvent::AccountLookedUp { found }) => {
                if found {
                    (Stage::Done, CallbackAction::Respond { message: LOGIN_MESSAGE.to_string() })
                } else {
                    (Stage::AwaitingTransaction(profile), CallbackAction::BeginTransaction)
                }
            },
            (Stage::AwaitingTransaction(profile), CallbackEvent::TransactionBegun) => {
                let user = NewUser {
                    name: profile.name.clone(),
                    email: profile.email.clone(),
                    email_verified: profile.email_verified,
                };
                (Stage::AwaitingUser(profile), CallbackAction::InsertUser(user))
            },
            (Stage::AwaitingUser(profile), CallbackEvent::UserInserted { user_id }) => {
                let account = NewAccount {
                    user_id,
                    provider: GOOGLE_PROVIDER.to_string(),
                    password: None,
                    provider_id: Some(profile.sub.clone()),
                };
                (Stage::AwaitingAccount(profile), CallbackAction::InsertAccount(account))
            },
            (Stage::AwaitingAccount(_), CallbackEvent::AccountInserted) => {
                (Stage::AwaitingCommit, CallbackAction::Commit)
            },
            (Stage::AwaitingCommit, CallbackEvent::Committed) => {
                (
                    Stage::Done,
                    CallbackAction::Respond { message: REGISTRATION_MESSAGE.to_string() },
                )
            },
            _ => {
                proof {
                    assert(false);
                }
                (Stage::Failed, CallbackAction::Commit)
            },
        };
        (CallbackFlow { client_id, client_secret, redirect_uri, code, stage: next }, action)
    }
}


/// What each move of the flow does, in terms of the flow and the event:
/// - the token request sends, to the token endpoint the discovery document
///   named, exactly the code the callback received and the client's id,
///   secret and redirect URI, with the grant type `authorization_code`;
/// - the ID token's claims piece, base64url-decoded and read as UTF-8, is
///   what gets parsed as the profile, and a piece that is not base64url or
///   not UTF-8 fails the flow;
/// - the account looked up is the Google account of the profile's subject;
/// - a found account ends the flow with the login answer, a missing one
///   begins registration with the same profile;
/// - the stored user carries the profile's name, email and flag, and the
///   stored account, linked to the stored user's id, carries no password and
///   the profile's subject.
pub proof fn law_transitions(f: FlowView, e: EventView)
    ensures
        (f.stage is AwaitingDiscovery && e is DiscoveryFetched) ==> transition(f, e) == (
            StageView::AwaitingTokens,
            ActionView::RequestTokens(
                e->DiscoveryFetched_0,
                (f.code, f.client_id, f.client_secret, f.redirect_uri, "authorization_code"@),
            ),
        ),
        (f.stage is AwaitingTokens && e is TokensReceived) ==> ({
            let decoded = base64_url_no_pad_decoded(claims_piece(e->TokensReceived_0));
            &&& decoded is None ==> transition(f, e) == (
                StageView::Failed,
                ActionView::Fail(ClaimsError::InvalidBase64),
            )
            &&& (decoded is Some && !valid_utf8(decoded->Some_0)) ==> transition(f, e) == (
                StageView::Failed,
                ActionView::Fail(ClaimsError::InvalidUtf8),
            )
            &&& (decoded is Some && valid_utf8(decoded->Some_0)) ==> transition(f, e) == (
                StageView::AwaitingProfile,
                ActionView::ParseProfile(decode_utf8(decoded->Some_0)),
            )
        }),
        (f.stage is AwaitingProfile && e is ProfileParsed) ==> transition(f, e) == (
            StageView::AwaitingAccountLookup(e->ProfileParsed_0),
            ActionView::FindAccount(GOOGLE_PROVIDER@, e->ProfileParsed_0.sub),
        ),
        (f.stage is AwaitingAccountLookup && e == EventView::AccountLookedUp(true))
            ==> transition(f, e) == (StageView::Done, ActionView::Respond(LOGIN_MESSAGE@)),
        (f.stage is AwaitingAccountLookup && e == EventView::AccountLookedUp(false))
            ==> transition(f, e) == (
            StageView::AwaitingTransaction(f.stage->AwaitingAccountLookup_0),
            ActionView::BeginTransaction,
        ),
        (f.stage is AwaitingTransaction && e is TransactionBegun) ==> transition(f, e) == (
            StageView::AwaitingUser(f.stage->AwaitingTransaction_0),
            ActionView::InsertUser(
                f.stage->AwaitingTransaction_0.name,
                f.stage->AwaitingTransaction_0.email,
                f.stage->AwaitingTransaction_0.email_verified,
            ),
        ),
        (f.stage is AwaitingUser && e is UserInserted) ==> transition(f, e) == (
            StageView::AwaitingAccount(f.stage->AwaitingUser_0),
            ActionView::InsertAccount(
                e->UserInserted_0,
                GOOGLE_PROVIDER@,
                None,
                Some(f.stage->AwaitingUser_0.sub),
            ),
        ),
        (f.stage is AwaitingAccount && e is AccountInserted) ==> transition(f, e) == (
            StageView::AwaitingCommit,
            ActionView::Commit,
        ),
        (f.stage is AwaitingCommit && e is Committed) ==> transition(f, e) == (
            StageView::Done,
            ActionView::Respond(REGISTRATION_MESSAGE@),
        ),
        next_flow(f, e).code == f.code && next_flow(f, e).client_id == f.client_id
            && next_flow(f, e).client_secret == f.client_secret && next_flow(f, e).redirect_uri
            == f.redirect_uri,
{
}

/// The flow and the actions after a sequence of events, each taken in turn.
pub open spec fn run(f: FlowView, events: Seq<EventView>) -> (FlowView, Seq<ActionView>)
    decreases events.len(),
{
    if events.len() == 0 {
        (f, Seq::<ActionView>::empty())
    } else {
        let rest = run(next_flow(f, events[0]), events.drop_first());
        (rest.0, seq![transition(f, events[0]).1] + rest.1)
    }
}

/// Whether the flow takes every event of the sequence, each in turn.
pub open spec fn run_accepted(f: FlowView, events: Seq<EventView>) -> bool
    decreases events.len(),
{
    events.len() == 0 || (accepts(f, events[0]) && run_accepted(
        next_flow(f, events[0]),
        events.drop_first(),
    ))
}

/// An action after which the flow is over: an answer or a failure.
pub open spec fn ends_flow(a: ActionView) -> bool {
    a is Respond || a is Fail
}

/// Once the flow answered or failed it takes no event at all: an answer or
/// a failure is the last action of any run, and the run then stands done
/// (after an answer) or failed (after a failure).
pub proof fn law_answer_is_last(f: FlowView, events: Seq<EventView>)
    requires
        run_accepted(f, events),
    ensures
        forall|i: int|
            0 <= i < run(f, events).1.len() && ends_flow(#[trigger] run(f, events).1[i]) ==> {
                &&& i == run(f, events).1.len() - 1
                &&& (run(f, events).1[i] is Respond ==> run(f, events).0.stage is Done)
                &&& (run(f, events).1[i] is Fail ==> run(f, events).0.stage is Failed)
            },
        run(f, events).1.len() == events.len(),
    decreases events.len(),
{
    if events.len() > 0 {
        let g = next_flow(f, events[0]);
        let rest = events.drop_first();
        law_answer_is_last(g, rest);
        let a = transition(f, events[0]).1;
        let acts = run(f, events).1;
        assert(acts == seq![a] + run(g, rest).1);
        assert(run_accepted(g, rest));
        if ends_flow(a) {
            assert(g.stage is Done || g.stage is Failed);
            if rest.len() > 0 {
                assert(accepts(g, rest[0]));
                assert(false);
            }
        }
        assert forall|i: int| 0 <= i < acts.len() && ends_flow(#[trigger] acts[i]) implies {
            &&& i == acts.len() - 1
            &&& (acts[i] is Respond ==> run(f, events).0.stage is Done)
            &&& (acts[i] is Fail ==> run(f, events).0.stage is Failed)
        } by {
            if i > 0 {
                assert(acts[i] == run(g, rest).1[i - 1]);
            }
        }
    }
}

/// The registration path: when no Google account exists for the profile, the
/// flow begins a transaction, stores the user with the profile's name, email
/// and verification flag, stores a Google account without password linked to
/// that user's id and holding the profile's subject, commits, and answers
/// that registration completed.
pub proof fn law_registration_path(f: FlowView, p: ProfileView, user_id: u128)
    requires
        f.stage == StageView::AwaitingAccountLookup(p),
    ensures
        ({
            let events = seq![
                EventView::AccountLookedUp(false),
                EventView::TransactionBegun,
                EventView::UserInserted(user_id),
                EventView::AccountInserted,
                EventView::Committed,
            ];
            &&& run_accepted(f, events)
            &&& run(f, events).0.stage == StageView::Done
            &&& run(f, events).1 == seq![
                ActionView::BeginTransaction,
                ActionView::InsertUser(p.name, p.email, p.email_verified),
                ActionView::InsertAccount(user_id, GOOGLE_PROVIDER@, None, Some(p.sub)),
                ActionView::Commit,
                ActionView::Respond(REGISTRATION_MESSAGE@),
            ]
        }),
{
    let events = seq![
        EventView::AccountLookedUp(false),
        EventView::TransactionBegun,
        EventView::UserInserted(user_id),
        EventView::AccountInserted,
        EventView::Committed,
    ];
    reveal_with_fuel(run, 6);
    reveal_with_fuel(run_accepted, 6);
    let f1 = next_flow(f, events[0]);
    let f2 = next_flow(f1, events[1]);
    let f3 = next_flow(f2, events[2]);
    let f4 = next_flow(f3, events[3]);
    let f5 = next_flow(f4, events[4]);
    assert(events.drop_first() =~= seq![
        EventView::TransactionBegun,
        EventView::UserInserted(user_id),
        EventView::AccountInserted,
        EventView::Committed,
    ]);
    assert(events.drop_first().drop_first() =~= seq![
        EventView::UserInserted(user_id),
        EventView::AccountInserted,
        EventView::Committed,
    ]);
    assert(events.drop_first().drop_first().drop_first() =~= seq![
        EventView::AccountInserted,
        EventView::Committed,
    ]);
    assert(events.drop_first().drop_first().drop_first().drop_first() =~= seq![
        EventView::Committed,
    ]);
    assert(events.drop_first().drop_first().drop_first().drop_first().drop_first()
        =~= Seq::<EventView>::empty());
    assert(run(f, events).1 =~= seq![
        ActionView::BeginTransaction,
        ActionView::InsertUser(p.name, p.email, p.email_verified),
        ActionView::InsertAccount(user_id, GOOGLE_PROVIDER@, None, Some(p.sub)),
        ActionView::Commit,
        ActionView::Respond(REGISTRATION_MESSAGE@),
    ]);
}

/// The login path: when a Google account exists for the profile, the flow
/// stores nothing and answers that the login succeeded.
pub proof fn law_login_path(f: FlowView, p: ProfileView)
    requires
        f.stage == StageView::AwaitingAccountLookup(p),
    ensures
        run_accepted(f, seq![EventView::AccountLookedUp(true)]),
        run(f, seq![EventView::AccountLookedUp(true)]).0.stage == StageView::Done,
        run(f, seq![EventView::AccountLookedUp(true)]).1 == seq![
            ActionView::Respond(LOGIN_MESSAGE@),
        ],
{
    let events = seq![EventView::AccountLookedUp(true)];
    reveal_with_fuel(run, 2);
    reveal_with_fuel(run_accepted, 2);
    assert(events.drop_first() =~= Seq::<EventView>::empty());
    assert(run(f, events).1 =~= seq![ActionView::Respond(LOGIN_MESSAGE@)]);
}


/// The key an account is found and stored under: provider and provider id.
pub open spec fn google_account_key(sub: Seq<char>) -> (Seq<char>, Seq<char>) {
    (GOOGLE_PROVIDER@, sub)
}

/// The events the caller reports for one callback, from the parsed profile
/// on, when the account lookup answers `found` and a stored user gets
/// `user_id`.
pub open spec fn callback_events(p: ProfileView, found: bool, user_id: u128) -> Seq<EventView> {
    if found {
        seq![EventView::ProfileParsed(p), EventView::AccountLookedUp(true)]
    } else {
        seq![
            EventView::ProfileParsed(p),
            EventView::AccountLookedUp(false),
            EventView::TransactionBegun,
            EventView::UserInserted(user_id),
            EventView::AccountInserted,
            EventView::Committed,
        ]
    }
}

/// The account keys a database holds after the actions ran against it,
/// each stored account adding its provider and provider id.
pub open spec fn stored_after(db: Set<(Seq<char>, Seq<char>)>, actions: Seq<ActionView>) -> Set<
    (Seq<char>, Seq<char>),
>
    decreases actions.len(),
{
    if actions.len() == 0 {
        db
    } else {
        let next = match actions[0] {
            ActionView::InsertAccount(_, provider, _, Some(provider_id)) => db.insert(
                (provider, provider_id),
            ),
            _ => db,
        };
        stored_after(next, actions.drop_first())
    }
}

/// The first callback's run, from the parsed profile on, against a
/// database that holds the account keys `db`.
pub open spec fn callback_run(
    f: FlowView,
    p: ProfileView,
    db: Set<(Seq<char>, Seq<char>)>,
    user_id: u128,
) -> (FlowView, Seq<ActionView>) {
    run(f, callback_events(p, db.contains(google_account_key(p.sub)), user_id))
}

/// Two callbacks in a row for the same Google subject never register
/// twice. The first looks the account up under the key ("google", subject)
/// and, when it is missing, stores an account under that very key; the
/// second, run against what the first left in the database, finds the
/// account, answers that the login succeeded, and stores nothing.
pub proof fn law_no_double_registration(
    f: FlowView,
    g: FlowView,
    p: ProfileView,
    q: ProfileView,
    db: Set<(Seq<char>, Seq<char>)>,
    first_user: u128,
    second_user: u128,
)
    requires
        f.stage == StageView::AwaitingProfile,
        g.stage == StageView::AwaitingProfile,
        q.sub == p.sub,
    ensures
        ({
            let found = db.contains(google_account_key(p.sub));
            let first = callback_run(f, p, db, first_user);
            let after_first = stored_after(db, first.1);
            let second = callback_run(g, q, after_first, second_user);
            &&& run_accepted(f, callback_events(p, found, first_user))
            &&& first.1[0] == ActionView::FindAccount(
                google_account_key(p.sub).0,
                google_account_key(p.sub).1,
            )
            &&& first.0.stage == StageView::Done
            &&& after_first.contains(google_account_key(p.sub))
            &&& run_accepted(g, callback_events(q, true, second_user))
            &&& second.1 == seq![
                ActionView::FindAccount(GOOGLE_PROVIDER@, q.sub),
                ActionView::Respond(LOGIN_MESSAGE@),
            ]
            &&& second.0.stage == StageView::Done
            &&& stored_after(after_first, second.1) == after_first
        }),
{
    let key = google_account_key(p.sub);
    let found = db.contains(key);
    reveal_with_fuel(run, 7);
    reveal_with_fuel(run_accepted, 7);
    reveal_with_fuel(stored_after, 7);
    let ev = callback_events(p, found, first_user);
    let f1 = next_flow(f, ev[0]);
    assert(f1.stage == StageView::AwaitingAccountLookup(p));
    assert(ev.drop_first() =~= (if found {
        seq![EventView::AccountLookedUp(true)]
    } else {
        seq![
            EventView::AccountLookedUp(false),
            EventView::TransactionBegun,
            EventView::UserInserted(first_user),
            EventView::AccountInserted,
            EventView::Committed,
        ]
    }));
    let first = run(f, ev);
    if found {
        law_login_path(f1, p);
        assert(first.1 =~= seq![
            ActionView::FindAccount(GOOGLE_PROVIDER@, p.sub),
            ActionView::Respond(LOGIN_MESSAGE@),
        ]);
        assert(first.1.drop_first() =~= seq![ActionView::Respond(LOGIN_MESSAGE@)]);
        assert(first.1.drop_first().drop_first() =~= Seq::<ActionView>::empty());
        assert(stored_after(db, first.1) == db);
    } else {
        law_registration_path(f1, p, first_user);
        let acts = seq![
            ActionView::FindAccount(GOOGLE_PROVIDER@, p.sub),
            ActionView::BeginTransaction,
            ActionView::InsertUser(p.name, p.email, p.email_verified),
            ActionView::InsertAccount(first_user, GOOGLE_PROVIDER@, None, Some(p.sub)),
            ActionView::Commit,
            ActionView::Respond(REGISTRATION_MESSAGE@),
        ];
        assert(first.1 =~= acts);
        assert(acts.drop_first() =~= seq![
            ActionView::BeginTransaction,
            ActionView::InsertUser(p.name, p.email, p.email_verified),
            ActionView::InsertAccount(first_user, GOOGLE_PROVIDER@, None, Some(p.sub)),
            ActionView::Commit,
            ActionView::Respond(REGISTRATION_MESSAGE@),
        ]);
        assert(acts.drop_first().drop_first() =~= seq![
            ActionView::InsertUser(p.name, p.email, p.email_verified),
            ActionView::InsertAccount(first_user, GOOGLE_PROVIDER@, None, Some(p.sub)),
            ActionView::Commit,
            ActionView::Respond(REGISTRATION_MESSAGE@),
        ]);
        assert(acts.drop_first().drop_first().drop_first() =~= seq![
            ActionView::InsertAccount(first_user, GOOGLE_PROVIDER@, None, Some(p.sub)),
            ActionView::Commit,
            ActionView::Respond(REGISTRATION_MESSAGE@),
        ]);
        assert(acts.drop_first().drop_first().drop_first().drop_first() =~= seq![
            ActionView::Commit,
            ActionView::Respond(REGISTRATION_MESSAGE@),
        ]);
        assert(acts.drop_first().drop_first().drop_first().drop_first().drop_first() =~= seq![
            ActionView::Respond(REGISTRATION_MESSAGE@),
        ]);
        assert(acts.drop_first().drop_first().drop_first().drop_first().drop_first().drop_first()
            =~= Seq::<ActionView>::empty());
        assert(stored_after(db, first.1) == db.insert(key));
    }
    let after_first = stored_after(db, first.1);
    assert(after_first.contains(google_account_key(q.sub)));
    let ev2 = callback_events(q, true, second_user);
    let g1 = next_flow(g, ev2[0]);
    assert(g1.stage == StageView::AwaitingAccountLookup(q));
    assert(ev2.drop_first() =~= seq![EventView::AccountLookedUp(true)]);
    law_login_path(g1, q);
    let second = run(g, ev2);
    assert(second.1 =~= seq![
        ActionView::FindAccount(GOOGLE_PROVIDER@, q.sub),
        ActionView::Respond(LOGIN_MESSAGE@),
    ]);
    assert(second.1.drop_first() =~= seq![ActionView::Respond(LOGIN_MESSAGE@)]);
    assert(second.1.drop_first().drop_first() =~= Seq::<ActionView>::empty());
}

} // verus!
