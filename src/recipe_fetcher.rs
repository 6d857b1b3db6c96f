//! The synchronisation scheduler as a state machine: each step takes the
//! answer to the last request (or a tick) and says what to do next. The
//! caller performs the request (login, listing, cache lookup, fetch, rest)
//! and hands back its outcome.
use crate::paprika::{
    invalidated, needs_account_login, AuthError, Paprika, SessionCheck, SessionState,
};
use crate::recipe::{Recipe, RecipeEntry};
use crate::registry::{upserted, Registry};
use vstd::prelude::*;

verus! {

/// The pause after a failed login or listing before the cycle is retried.
pub const RETRY_DELAY_MS: u64 = 5000;

/// The pause after the whole catalog was worked through.
pub const CYCLE_DELAY_MS: u64 = 5000;

/// The outcome of the last request, or a tick that asks for the next step.
#[derive(Clone, Debug, PartialEq, Eq)]
pub enum SyncEvent {
    Tick,
    LoggedIn(String),
    LoginFailed,
    CatalogListed(Vec<RecipeEntry>),
    CatalogFailed,
    /// The cache held a valid record for the requested entry.
    CacheHit(Recipe),
    CacheMiss,
    /// The remote service returned the recipe; it has been written to the cache.
    Fetched(Recipe),
    /// The fetch failed. The entry is skipped for the rest of this cycle (the
    /// cursor already moved past it) and is tried again in the next cycle.
    FetchFailed,
}

/// What the scheduler asks its driver to do.
#[derive(Clone, Debug, PartialEq, Eq)]
pub enum SyncAction {
    /// Log in; answer `LoggedIn` or `LoginFailed`.
    Login { identity: String, secret: String },
    /// List the catalog; answer `CatalogListed` or `CatalogFailed`.
    ListCatalog { token: String },
    /// Look the entry up in the disk cache; answer `CacheHit` or `CacheMiss`.
    ReadCache { uid: String, hash: String },
    /// Fetch the recipe and write it to the disk cache; answer `Fetched` or
    /// `FetchFailed`.
    Fetch { token: String, uid: String },
    /// Nothing to wait for: tick again.
    Proceed,
    /// Wait this long, then tick.
    Rest { millis: u64 },
    /// No session could be had: report the error, wait this long, then tick.
    AuthFailed { error: AuthError, millis: u64 },
}

/// The abstract form of a [`SyncAction`].
pub enum ActionModel {
    Login { identity: Seq<char>, secret: Seq<char> },
    ListCatalog { token: Seq<char> },
    ReadCache { uid: Seq<char>, hash: Seq<char> },
    Fetch { token: Seq<char>, uid: Seq<char> },
    Proceed,
    Rest { millis: u64 },
    AuthFailed { error: AuthError, millis: u64 },
}

impl View for SyncAction {
    type V = ActionModel;

    open spec fn view(&self) -> ActionModel {
        match self {
            SyncAction::Login { identity, secret } => ActionModel::Login {
                identity: identity@,
                secret: secret@,
            },
            SyncAction::ListCatalog { token } => ActionModel::ListCatalog { token: token@ },
            SyncAction::ReadCache { uid, hash } => ActionModel::ReadCache { uid: uid@, hash: hash@ },
            SyncAction::Fetch { token, uid } => ActionModel::Fetch { token: token@, uid: uid@ },
            SyncAction::Proceed => ActionModel::Proceed,
            SyncAction::Rest { millis } => ActionModel::Rest { millis: *millis },
            SyncAction::AuthFailed { error, millis } => ActionModel::AuthFailed {
                error: *error,
                millis: *millis,
            },
        }
    }
}

/// The request whose answer the scheduler awaits.
enum Pending {
    Idle,
    Login { fingerprint: Option<String> },
    Catalog { token: String },
    Cache { uid: String, hash: String, token: String },
    Fetch { uid: String, token: String },
}

/// The abstract form of the awaited request; each remembers the token it was
/// made under.
pub enum PendingState {
    Idle,
    Login { fingerprint: Option<Seq<char>> },
    Catalog { token: Seq<char> },
    Cache { uid: Seq<char>, hash: Seq<char>, token: Seq<char> },
    Fetch { uid: Seq<char>, token: Seq<char> },
}

/// Drives one synchronisation cycle after another.
pub struct RecipeFetcher {
    pending: Pending,
}

/// The whole state a step reads and changes.
pub struct SyncState {
    pub session: SessionState,
    pub pending: PendingState,
    pub registry: Seq<Recipe>,
}

pub open spec fn sync_state(fetcher: RecipeFetcher, paprika: Paprika, registry: Registry) -> SyncState {
    SyncState { session: paprika@, pending: fetcher@, registry: registry@ }
}

/// The next step when nothing is awaited: ensure the session, then the
/// catalog, then take the entry under the cursor; at the end of the catalog,
/// rewind and rest.
pub open spec fn tick(st: SyncState) -> (SyncState, ActionModel) {
    let s = st.session;
    if needs_account_login(s) {
        (
            SyncState {
                session: invalidated(s),
                pending: PendingState::Login { fingerprint: Some(s.account.fingerprint()) },
                registry: Seq::empty(),
            },
            ActionModel::Login { identity: s.account.username@, secret: s.account.password@ },
        )
    } else if s.token.len() == 0 {
        match s.fallback {
            Some(f) => (
                SyncState { pending: PendingState::Login { fingerprint: None }, ..st },
                ActionModel::Login { identity: f.username@, secret: f.password@ },
            ),
            None => (
                st,
                ActionModel::AuthFailed {
                    error: AuthError::MissingCredentials,
                    millis: RETRY_DELAY_MS,
                },
            ),
        }
    } else if s.catalog.len() == 0 {
        (
            SyncState { pending: PendingState::Catalog { token: s.token }, ..st },
            ActionModel::ListCatalog { token: s.token },
        )
    } else if s.cursor < s.catalog.len() {
        let e = s.catalog[s.cursor];
        (
            SyncState {
                session: SessionState { cursor: s.cursor + 1, ..s },
                pending: PendingState::Cache { uid: e.uid@, hash: e.hash@, token: s.token },
                ..st
            },
            ActionModel::ReadCache { uid: e.uid@, hash: e.hash@ },
        )
    } else {
        (
            SyncState { session: SessionState { catalog: Seq::empty(), cursor: 0, ..s }, ..st },
            ActionModel::Rest { millis: CYCLE_DELAY_MS },
        )
    }
}

/// The remote service refused the login.
pub open spec fn rejected() -> ActionModel {
    ActionModel::AuthFailed { error: AuthError::RemoteRejected, millis: RETRY_DELAY_MS }
}

/// The session after a login that gave `token`; an account login records the
/// account's fingerprint.
pub open spec fn logged_in(s: SessionState, token: Seq<char>, fingerprint: Option<Seq<char>>) -> SessionState {
    SessionState {
        token,
        account_hash: match fingerprint {
            Some(f) => f,
            None => s.account_hash,
        },
        ..s
    }
}

/// One step of the scheduler. A login answer is dropped when the credentials
/// changed while it was awaited. An answer that does not match the awaited
/// request counts as a tick. Answers to requests made under a token that is
/// no longer held are dropped.
pub open spec fn next(st: SyncState, event: SyncEvent) -> (SyncState, ActionModel) {
    let idle = SyncState { pending: PendingState::Idle, ..st };
    match event {
        SyncEvent::Tick => tick(idle),
        SyncEvent::LoggedIn(token) => match st.pending {
            PendingState::Login { fingerprint } => {
                let session = logged_in(st.session, token@, fingerprint);
                if token@.len() == 0 {
                    (idle, rejected())
                } else if needs_account_login(session) {
                    (idle, ActionModel::Proceed)
                } else {
                    (SyncState { session, ..idle }, ActionModel::Proceed)
                }
            },
            _ => tick(idle),
        },
        SyncEvent::LoginFailed => match st.pending {
            PendingState::Login { .. } => (idle, rejected()),
            _ => tick(idle),
        },
        SyncEvent::CatalogListed(entries) => match st.pending {
            PendingState::Catalog { token } => if token == st.session.token {
                (
                    SyncState {
                        session: SessionState { catalog: entries@, cursor: 0, ..st.session },
                        ..idle
                    },
                    if entries@.len() > 0 {
                        ActionModel::Proceed
                    } else {
                        ActionModel::Rest { millis: CYCLE_DELAY_MS }
                    },
                )
            } else {
                (idle, ActionModel::Proceed)
            },
            _ => tick(idle),
        },
        SyncEvent::CatalogFailed => match st.pending {
            PendingState::Catalog { .. } => (idle, ActionModel::Rest { millis: RETRY_DELAY_MS }),
            _ => tick(idle),
        },
        SyncEvent::CacheHit(recipe) => match st.pending {
            PendingState::Cache { uid, hash, token } => if token != st.session.token {
                (idle, ActionModel::Proceed)
            } else if recipe.uid@ == uid && recipe.hash@ == hash {
                (SyncState { registry: upserted(st.registry, recipe), ..idle }, ActionModel::Proceed)
            } else {
                (
                    SyncState { pending: PendingState::Fetch { uid, token }, ..st },
                    ActionModel::Fetch { token, uid },
                )
            },
            _ => tick(idle),
        },
        SyncEvent::CacheMiss => match st.pending {
            PendingState::Cache { uid, hash, token } => if token != st.session.token {
                (idle, ActionModel::Proceed)
            } else {
                (
                    SyncState { pending: PendingState::Fetch { uid, token }, ..st },
                    ActionModel::Fetch { token, uid },
                )
            },
            _ => tick(idle),
        },
        SyncEvent::Fetched(recipe) => match st.pending {
            PendingState::Fetch { uid, token } => if token == st.session.token {
                (SyncState { registry: upserted(st.registry, recipe), ..idle }, ActionModel::Proceed)
            } else {
                (idle, ActionModel::Proceed)
            },
            _ => tick(idle),
        },
        SyncEvent::FetchFailed => match st.pending {
            PendingState::Fetch { .. } => (idle, ActionModel::Proceed),
            _ => tick(idle),
        },
    }
}

/// Taking `event` in state `from` leads to state `to` and asks for `action`.
pub open spec fn is_step(from: SyncState, event: SyncEvent, to: SyncState, action: ActionModel) -> bool {
    next(from, event) == (to, action)
}

/// The state after one step.
pub open spec fn after(st: SyncState, event: SyncEvent) -> SyncState {
    next(st, event).0
}

/// The action one step asks for.
pub open spec fn action_after(st: SyncState, event: SyncEvent) -> ActionModel {
    next(st, event).1
}

/// The state after each event in turn.
pub open spec fn run(st: SyncState, events: Seq<SyncEvent>) -> SyncState
    decreases events.len(),
{
    if events.len() == 0 {
        st
    } else {
        after(run(st, events.drop_last()), events.last())
    }
}

/// How the entry that a tick took gets resolved.
pub enum Resolution {
    /// The cache held the entry's recipe.
    FromCache(Recipe),
    /// The cache missed and the remote service returned the recipe.
    FromRemote(Recipe),
    /// The cache missed and the fetch failed; the entry is skipped.
    Skipped,
}

/// The events of one fetch step: the tick that takes the entry, then the
/// answers that resolve it.
pub open spec fn round_events(r: Resolution) -> Seq<SyncEvent> {
    match r {
        Resolution::FromCache(recipe) => seq![SyncEvent::Tick, SyncEvent::CacheHit(recipe)],
        Resolution::FromRemote(recipe) => seq![
            SyncEvent::Tick,
            SyncEvent::CacheMiss,
            SyncEvent::Fetched(recipe),
        ],
        Resolution::Skipped => seq![SyncEvent::Tick, SyncEvent::CacheMiss, SyncEvent::FetchFailed],
    }
}

/// The events of consecutive fetch steps.
pub open spec fn rounds_events(rounds: Seq<Resolution>) -> Seq<SyncEvent>
    decreases rounds.len(),
{
    if rounds.len() == 0 {
        Seq::empty()
    } else {
        rounds_events(rounds.drop_last()) + round_events(rounds.last())
    }
}

/// A token is held and no account login is due.
pub open spec fn session_ready(s: SessionState) -> bool {
    !needs_account_login(s) && s.token.len() > 0
}

/// Each recipe that the cache gives back is the one of the entry it resolves;
/// the steps resolve the entries from index `from` on.
pub open spec fn resolves(catalog: Seq<RecipeEntry>, from: int, rounds: Seq<Resolution>) -> bool {
    forall|i: int|
        0 <= i < rounds.len() ==> (#[trigger] rounds[i] matches Resolution::FromCache(r) ==> r.uid@
            == catalog[from + i].uid@ && r.hash@ == catalog[from + i].hash@)
}

proof fn lemma_run_concat(st: SyncState, a: Seq<SyncEvent>, b: Seq<SyncEvent>)
    ensures
        run(st, a + b) == run(run(st, a), b),
    decreases b.len(),
{
    if b.len() == 0 {
        assert(a + b =~= a);
    } else {
        assert((a + b).drop_last() =~= a + b.drop_last());
        assert((a + b).last() == b.last());
        lemma_run_concat(st, a, b.drop_last());
    }
}

proof fn lemma_run_one(st: SyncState, e: SyncEvent)
    ensures
        run(st, seq![e]) == after(st, e),
{
    assert(seq![e].drop_last() =~= Seq::<SyncEvent>::empty());
    assert(run(st, Seq::<SyncEvent>::empty()) == st);
    assert(seq![e].last() == e);
}

proof fn lemma_run_two(st: SyncState, e1: SyncEvent, e2: SyncEvent)
    ensures
        run(st, seq![e1, e2]) == after(after(st, e1), e2),
{
    assert(seq![e1, e2].drop_last() =~= seq![e1]);
    lemma_run_one(st, e1);
}

proof fn lemma_run_three(st: SyncState, e1: SyncEvent, e2: SyncEvent, e3: SyncEvent)
    ensures
        run(st, seq![e1, e2, e3]) == after(after(after(st, e1), e2), e3),
{
    assert(seq![e1, e2, e3].drop_last() =~= seq![e1, e2]);
    lemma_run_two(st, e1, e2);
}

proof fn lemma_one_round(st: SyncState, r: Resolution)
    requires
        session_ready(st.session),
        st.pending == PendingState::Idle,
        0 <= st.session.cursor < st.session.catalog.len(),
        r matches Resolution::FromCache(recipe) ==> recipe.uid@
            == st.session.catalog[st.session.cursor].uid@ && recipe.hash@
            == st.session.catalog[st.session.cursor].hash@,
    ensures
        run(st, round_events(r)).session == (SessionState {
            cursor: st.session.cursor + 1,
            ..st.session
        }),
        run(st, round_events(r)).pending == PendingState::Idle,
{
    match r {
        Resolution::FromCache(recipe) => {
            lemma_run_two(st, SyncEvent::Tick, SyncEvent::CacheHit(recipe));
        },
        Resolution::FromRemote(recipe) => {
            lemma_run_three(st, SyncEvent::Tick, SyncEvent::CacheMiss, SyncEvent::Fetched(recipe));
        },
        Resolution::Skipped => {
            lemma_run_three(st, SyncEvent::Tick, SyncEvent::CacheMiss, SyncEvent::FetchFailed);
        },
    }
}

proof fn lemma_rounds(st: SyncState, rounds: Seq<Resolution>)
    requires
        session_ready(st.session),
        st.pending == PendingState::Idle,
        0 <= st.session.cursor,
        st.session.cursor + rounds.len() <= st.session.catalog.len(),
        resolves(st.session.catalog, st.session.cursor, rounds),
    ensures
        run(st, rounds_events(rounds)).session == (SessionState {
            cursor: st.session.cursor + rounds.len(),
            ..st.session
        }),
        run(st, rounds_events(rounds)).pending == PendingState::Idle,
    decreases rounds.len(),
{
    if rounds.len() == 0 {
        assert(rounds_events(rounds) =~= Seq::<SyncEvent>::empty());
    } else {
        let init = rounds.drop_last();
        assert forall|i: int| 0 <= i < init.len() implies (#[trigger] init[i] matches Resolution::FromCache(r) ==> r.uid@
            == st.session.catalog[st.session.cursor + i].uid@ && r.hash@
            == st.session.catalog[st.session.cursor + i].hash@) by {
            assert(init[i] == rounds[i]);
        }
        lemma_rounds(st, init);
        let mid = run(st, rounds_events(init));
        lemma_run_concat(st, rounds_events(init), round_events(rounds.last()));
        assert(rounds[rounds.len() - 1] == rounds.last());
        lemma_one_round(mid, rounds.last());
    }
}

/// Over a catalog of N entries, N fetch steps (each resolving its entry from
/// the cache, from the remote service, or by skipping it) leave the cursor at
/// N with the catalog unchanged; the step after them rewinds the cursor to
/// zero, drops the catalog, and rests.
pub proof fn lemma_cursor_bound(st: SyncState, rounds: Seq<Resolution>)
    requires
        session_ready(st.session),
        st.pending == PendingState::Idle,
        st.session.cursor == 0,
        rounds.len() == st.session.catalog.len(),
        rounds.len() > 0,
        resolves(st.session.catalog, 0, rounds),
    ensures
        run(st, rounds_events(rounds)).session.cursor == rounds.len(),
        run(st, rounds_events(rounds)).session.catalog == st.session.catalog,
        after(run(st, rounds_events(rounds)), SyncEvent::Tick).session.cursor == 0,
        after(run(st, rounds_events(rounds)), SyncEvent::Tick).session.catalog.len() == 0,
        action_after(run(st, rounds_events(rounds)), SyncEvent::Tick) == (ActionModel::Rest {
            millis: CYCLE_DELAY_MS,
        }),
{
    lemma_rounds(st, rounds);
}

/// No step moves the cursor past the end of the catalog.
pub proof fn lemma_cursor_within_catalog(st: SyncState, event: SyncEvent)
    requires
        0 <= st.session.cursor <= st.session.catalog.len(),
    ensures
        0 <= after(st, event).session.cursor <= after(st, event).session.catalog.len(),
{
}

/// When the explicit account's credentials changed since its last successful
/// login, the tick that notices it drops the token, the catalog, the cursor
/// and the registry, and asks for the account's login.
pub proof fn lemma_credential_change_clears(st: SyncState)
    requires
        needs_account_login(st.session),
    ensures
        after(st, SyncEvent::Tick).session.token.len() == 0,
        after(st, SyncEvent::Tick).session.catalog.len() == 0,
        after(st, SyncEvent::Tick).session.cursor == 0,
        after(st, SyncEvent::Tick).registry.len() == 0,
        after(st, SyncEvent::Tick).pending == (PendingState::Login {
            fingerprint: Some(st.session.account.fingerprint()),
        }),
        action_after(st, SyncEvent::Tick) == (ActionModel::Login {
            identity: st.session.account.username@,
            secret: st.session.account.password@,
        }),
{
}

/// An awaited login of the current account was asked for from a cleared
/// state: no token, catalog, cursor or registry.
pub open spec fn account_login_clean(st: SyncState) -> bool {
    (st.session.account.is_configured() && st.pending == (PendingState::Login {
        fingerprint: Some(st.session.account.fingerprint()),
    })) ==> {
        &&& st.session.token.len() == 0
        &&& st.session.catalog.len() == 0
        &&& st.session.cursor == 0
        &&& st.registry.len() == 0
    }
}

proof fn lemma_clean_after_step(st: SyncState, event: SyncEvent)
    ensures
        account_login_clean(after(st, event)),
{
}

proof fn lemma_clean_along_run(st: SyncState, events: Seq<SyncEvent>)
    requires
        account_login_clean(st),
    ensures
        account_login_clean(run(st, events)),
    decreases events.len(),
{
    if events.len() > 0 {
        lemma_clean_after_step(run(st, events.drop_last()), events.last());
    }
}

/// Whatever events follow a change of credentials, the step at which the
/// account's login succeeds (after which no account login is due any more)
/// starts from a state with no token, catalog, cursor or registry left.
pub proof fn lemma_login_after_clearing(st: SyncState, events: Seq<SyncEvent>, k: int)
    requires
        account_login_clean(st),
        0 <= k < events.len(),
        needs_account_login(run(st, events.take(k)).session),
        !needs_account_login(run(st, events.take(k + 1)).session),
    ensures
        run(st, events.take(k)).session.token.len() == 0,
        run(st, events.take(k)).session.catalog.len() == 0,
        run(st, events.take(k)).session.cursor == 0,
        run(st, events.take(k)).registry.len() == 0,
{
    assert(events.take(k + 1).drop_last() =~= events.take(k));
    assert(events.take(k + 1).last() == events[k]);
    lemma_clean_along_run(st, events.take(k));
}

/// Every catalog, cache or fetch request carries a token.
pub open spec fn requests_hold_tokens(st: SyncState) -> bool {
    match st.pending {
        PendingState::Catalog { token } => token.len() > 0,
        PendingState::Cache { token, .. } => token.len() > 0,
        PendingState::Fetch { token, .. } => token.len() > 0,
        _ => true,
    }
}

/// A fetch is only ever asked for under the token the session holds, and
/// never without one; every step keeps the requests' tokens non-empty.
pub proof fn lemma_fetch_within_session(st: SyncState, event: SyncEvent)
    requires
        requests_hold_tokens(st),
    ensures
        requests_hold_tokens(after(st, event)),
        action_after(st, event) matches ActionModel::Fetch { token, .. } ==> token.len() > 0 && token
            == after(st, event).session.token,
{
}

impl View for RecipeFetcher {
    type V = PendingState;

    closed spec fn view(&self) -> PendingState {
        match self.pending {
            Pending::Idle => PendingState::Idle,
            Pending::Login { fingerprint } => PendingState::Login {
                fingerprint: match fingerprint {
                    Some(f) => Some(f@),
                    None => None,
                },
            },
            Pending::Catalog { token } => PendingState::Catalog { token: token@ },
            Pending::Cache { uid, hash, token } => PendingState::Cache {
                uid: uid@,
                hash: hash@,
                token: token@,
            },
            Pending::Fetch { uid, token } => PendingState::Fetch { uid: uid@, token: token@ },
        }
    }
}

impl RecipeFetcher {
    pub fn new() -> (r: RecipeFetcher)
        ensures
            r@ == PendingState::Idle,
    {
        RecipeFetcher { pending: Pending::Idle }
    }

    fn tick(&mut self, paprika: &mut Paprika, registry: &mut Registry) -> (r: SyncAction)
        requires
            old(self)@ == PendingState::Idle,
        ensures
            tick(sync_state(*old(self), *old(paprika), *old(registry))) == (
                sync_state(*final(self), *final(paprika), *final(registry)),
                r@,
            ),
    {
        match paprika.ensure_session(registry) {
            Err(error) => SyncAction::AuthFailed { error, millis: RETRY_DELAY_MS },
            Ok(SessionCheck::Login { identity, secret, fingerprint }) => {
                self.pending = Pending::Login { fingerprint };
                SyncAction::Login { identity, secret }
            },
            Ok(SessionCheck::Ready) => {
                if !paprika.has_catalog() {
                    self.pending = Pending::Catalog { token: paprika.token_copy() };
                    SyncAction::ListCatalog { token: paprika.token_copy() }
                } else {
                    match paprika.take_next() {
                        Some(entry) => {
                            self.pending = Pending::Cache {
                                uid: entry.uid.clone(),
                                hash: entry.hash.clone(),
                                token: paprika.token_copy(),
                            };
                            SyncAction::ReadCache { uid: entry.uid, hash: entry.hash }
                        },
                        None => {
                            paprika.restart_cycle();
                            SyncAction::Rest { millis: CYCLE_DELAY_MS }
                        },
                    }
                }
            },
        }
    }

    /// Takes the outcome of the last request, or a tick, and says what to do
    /// next; see [`next`].
    pub fn step(&mut self, paprika: &mut Paprika, registry: &mut Registry, event: SyncEvent) -> (r:
        SyncAction)
        ensures
            next(sync_state(*old(self), *old(paprika), *old(registry)), event) == (
                sync_state(*final(self), *final(paprika), *final(registry)),
                r@,
            ),
    {
        let mut pending = Pending::Idle;
        std::mem::swap(&mut self.pending, &mut pending);
        match event {
            SyncEvent::Tick => self.tick(paprika, registry),
            SyncEvent::LoggedIn(token) => match pending {
                Pending::Login { fingerprint } => {
                    if token.as_str().is_empty() {
                        SyncAction::AuthFailed {
                            error: AuthError::RemoteRejected,
                            millis: RETRY_DELAY_MS,
                        }
                    } else if !paprika.login_is_current(&fingerprint) {
                        SyncAction::Proceed
                    } else {
                        paprika.accept_login(token, fingerprint);
                        SyncAction::Proceed
                    }
                },
                _ => self.tick(paprika, registry),
            },
            SyncEvent::LoginFailed => match pending {
                Pending::Login { .. } => SyncAction::AuthFailed {
                    error: AuthError::RemoteRejected,
                    millis: RETRY_DELAY_MS,
                },
                _ => self.tick(paprika, registry),
            },
            SyncEvent::CatalogListed(entries) => match pending {
                Pending::Catalog { token } => {
                    if paprika.holds_token(&token) {
                        let listed_some = entries.len() > 0;
                        paprika.replace_catalog(entries);
                        if listed_some {
                            SyncAction::Proceed
                        } else {
                            SyncAction::Rest { millis: CYCLE_DELAY_MS }
                        }
                    } else {
                        SyncAction::Proceed
                    }
                },
                _ => self.tick(paprika, registry),
            },
            SyncEvent::CatalogFailed => match pending {
                Pending::Catalog { .. } => SyncAction::Rest { millis: RETRY_DELAY_MS },
                _ => self.tick(paprika, registry),
            },
            SyncEvent::CacheHit(recipe) => match pending {
                Pending::Cache { uid, hash, token } => {
                    if !paprika.holds_token(&token) {
                        SyncAction::Proceed
                    } else if recipe.uid == uid && recipe.hash == hash {
                        registry.upsert(recipe);
                        SyncAction::Proceed
                    } else {
                        let action = SyncAction::Fetch { token: token.clone(), uid: uid.clone() };
                        self.pending = Pending::Fetch { uid, token };
                        action
                    }
                },
                _ => self.tick(paprika, registry),
            },
            SyncEvent::CacheMiss => match pending {
                Pending::Cache { uid, hash, token } => {
                    if !paprika.holds_token(&token) {
                        SyncAction::Proceed
                    } else {
                        let action = SyncAction::Fetch { token: token.clone(), uid: uid.clone() };
                        self.pending = Pending::Fetch { uid, token };
                        action
                    }
                },
                _ => self.tick(paprika, registry),
            },
            SyncEvent::Fetched(recipe) => match pending {
                Pending::Fetch { uid, token } => {
                    if paprika.holds_token(&token) {
                        registry.upsert(recipe);
                    }
                    SyncAction::Proceed
                },
                _ => self.tick(paprika, registry),
            },
            SyncEvent::FetchFailed => match pending {
                Pending::Fetch { .. } => SyncAction::Proceed,
                _ => self.tick(paprika, registry),
            },
        }
    }
}

} // verus!
