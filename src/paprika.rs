//! The session with the remote service and the catalog being worked through.
use crate::account::Account;
use crate::recipe::{Recipe, RecipeEntry};
use crate::registry::Registry;
use vstd::prelude::*;

verus! {

/// Why no session could be had.
#[derive(PartialEq, Eq, Structural, Clone, Copy, Debug)]
pub enum AuthError {
    /// Neither an explicit account nor fallback credentials are usable.
    MissingCredentials,
    /// The remote service refused the login.
    RemoteRejected,
}

/// The session state with the service, and the catalog and cursor of the
/// current cycle.
pub struct Paprika {
    /// The access token; empty when unauthenticated.
    pub token: String,
    /// The catalog of the current cycle, in fetch order.
    pub recipe_entries: Vec<RecipeEntry>,
    /// The cursor: entries before it have been taken this cycle.
    pub last_fetched: usize,
    /// The explicit account, used when both its fields are present.
    pub account: Account,
    account_hash: String,
    fallback: Option<Account>,
}

/// The abstract state of a [`Paprika`].
pub struct SessionState {
    pub token: Seq<char>,
    pub catalog: Seq<RecipeEntry>,
    pub cursor: int,
    pub account: Account,
    /// The fingerprint of the account of the last successful account login.
    pub account_hash: Seq<char>,
    /// The fallback credentials from the environment, when both are present.
    pub fallback: Option<Account>,
}

/// What the session needs before the catalog can be worked on.
#[derive(Clone, Debug, PartialEq, Eq)]
pub enum SessionCheck {
    /// A token is held and still belongs to the current credentials.
    Ready,
    /// Log in with these credentials; `fingerprint` is the account's when the
    /// credentials are the explicit account's.
    Login { identity: String, secret: String, fingerprint: Option<String> },
}

/// The explicit account is configured and differs from the one of the last
/// successful account login.
pub open spec fn needs_account_login(s: SessionState) -> bool {
    s.account.is_configured() && s.account.fingerprint() != s.account_hash
}

/// The session without its token, catalog and cursor.
pub open spec fn invalidated(s: SessionState) -> SessionState {
    SessionState { token: Seq::empty(), catalog: Seq::empty(), cursor: 0, ..s }
}

/// The session as a logout leaves it: no token, no catalog, no remembered
/// account login.
pub open spec fn logged_out(s: SessionState) -> SessionState {
    SessionState { account_hash: Seq::empty(), ..invalidated(s) }
}

impl View for Paprika {
    type V = SessionState;

    closed spec fn view(&self) -> SessionState {
        SessionState {
            token: self.token@,
            catalog: self.recipe_entries@,
            cursor: self.last_fetched as int,
            account: self.account,
            account_hash: self.account_hash@,
            fallback: self.fallback,
        }
    }
}

impl Paprika {
    pub fn new() -> (r: Paprika)
        ensures
            r@.token.len() == 0,
            r@.catalog.len() == 0,
            r@.cursor == 0,
            r@.account.username@.len() == 0,
            r@.account.password@.len() == 0,
            r@.account_hash.len() == 0,
            r@.fallback is None,
    {
        Paprika {
            token: String::new(),
            recipe_entries: Vec::new(),
            last_fetched: 0,
            account: Account::new(String::new(), String::new()),
            account_hash: String::new(),
            fallback: None,
        }
    }

    /// Records the fallback credentials; they are usable only when both are
    /// present.
    pub fn set_fallback_credentials(&mut self, email: Option<String>, password: Option<String>)
        ensures
            final(self)@ == (SessionState {
                fallback: match (email, password) {
                    (Some(e), Some(p)) => Some(Account { username: e, password: p }),
                    _ => None,
                },
                ..old(self)@
            }),
    {
        self.fallback = match (email, password) {
            (Some(e), Some(p)) => Some(Account::new(e, p)),
            _ => None,
        };
    }

    /// Forgets the token, the catalog, the cursor and the last account login.
    pub fn logout(&mut self)
        ensures
            final(self)@ == logged_out(old(self)@),
    {
        self.token = String::new();
        self.recipe_entries = Vec::new();
        self.last_fetched = 0;
        self.account_hash = String::new();
    }

    /// Replaces the explicit account; the session of the former credentials
    /// is dropped.
    pub fn set_account(&mut self, account: Account)
        ensures
            final(self)@ == (SessionState { account: account, ..logged_out(old(self)@) }),
    {
        self.logout();
        self.account = account;
    }

    /// Whether the explicit account must log in before anything else.
    pub fn needs_account_login(&self) -> (r: bool)
        ensures
            r == needs_account_login(self@),
    {
        if self.account.has_credentials() {
            let fingerprint = self.account.get_hash();
            !(fingerprint == self.account_hash)
        } else {
            false
        }
    }

    /// Whether a login whose result is recorded with `fingerprint` (the
    /// account's, for an account login) leaves no account login due.
    pub fn login_is_current(&self, fingerprint: &Option<String>) -> (r: bool)
        ensures
            r == !needs_account_login(
                (SessionState {
                    account_hash: match fingerprint {
                        Some(f) => f@,
                        None => self@.account_hash,
                    },
                    ..self@
                }),
            ),
    {
        match fingerprint {
            Some(f) => {
                if self.account.has_credentials() {
                    let current = self.account.get_hash();
                    current == *f
                } else {
                    true
                }
            },
            None => !self.needs_account_login(),
        }
    }

    /// Decides how a session is had. When the explicit account changed since
    /// its last successful login, the token, catalog, cursor and registry are
    /// cleared and the account logs in; otherwise, without a token, the
    /// fallback credentials log in; otherwise the session is ready.
    pub fn ensure_session(&mut self, registry: &mut Registry) -> (r: Result<
        SessionCheck,
        AuthError,
    >)
        ensures
            needs_account_login(old(self)@) ==> {
                &&& final(self)@ == invalidated(old(self)@)
                &&& final(registry)@ == Seq::<Recipe>::empty()
                &&& r matches Ok(SessionCheck::Login { identity, secret, fingerprint: Some(f) })
                &&& identity@ == old(self)@.account.username@
                &&& secret@ == old(self)@.account.password@
                &&& f@ == old(self)@.account.fingerprint()
            },
            !needs_account_login(old(self)@) ==> {
                &&& final(self)@ == old(self)@
                &&& final(registry)@ == old(registry)@
            },
            !needs_account_login(old(self)@) && old(self)@.token.len() == 0 ==> match old(
                self,
            )@.fallback {
                Some(f) => r matches Ok(SessionCheck::Login { identity, secret, fingerprint: None })
                    && identity@ == f.username@ && secret@ == f.password@,
                None => r == Err::<SessionCheck, AuthError>(AuthError::MissingCredentials),
            },
            !needs_account_login(old(self)@) && old(self)@.token.len() > 0 ==> r matches Ok(
                SessionCheck::Ready,
            ),
    {
        if self.account.has_credentials() {
            let fingerprint = self.account.get_hash();
            if !(fingerprint == self.account_hash) {
                self.token = String::new();
                self.recipe_entries = Vec::new();
                self.last_fetched = 0;
                registry.clear();
                return Ok(
                    SessionCheck::Login {
                        identity: self.account.username.clone(),
                        secret: self.account.password.clone(),
                        fingerprint: Some(fingerprint),
                    },
                );
            }
        }
        if self.token.as_str().is_empty() {
            match &self.fallback {
                Some(f) => Ok(
                    SessionCheck::Login {
                        identity: f.username.clone(),
                        secret: f.password.clone(),
                        fingerprint: None,
                    },
                ),
                None => Err(AuthError::MissingCredentials),
            }
        } else {
            Ok(SessionCheck::Ready)
        }
    }

    /// Takes a token from a successful login; an account login also records
    /// the account's fingerprint.
    pub fn accept_login(&mut self, token: String, fingerprint: Option<String>)
        ensures
            final(self)@ == (SessionState {
                token: token@,
                account_hash: match fingerprint {
                    Some(f) => f@,
                    None => old(self)@.account_hash,
                },
                ..old(self)@
            }),
    {
        self.token = token;
        match fingerprint {
            Some(f) => {
                self.account_hash = f;
            },
            None => {},
        }
    }

    /// Replaces the catalog whole and rewinds the cursor.
    pub fn replace_catalog(&mut self, entries: Vec<RecipeEntry>)
        ensures
            final(self)@ == (SessionState { catalog: entries@, cursor: 0, ..old(self)@ }),
    {
        self.recipe_entries = entries;
        self.last_fetched = 0;
    }

    pub fn token_copy(&self) -> (r: String)
        ensures
            r@ == self@.token,
    {
        self.token.clone()
    }

    pub fn holds_token(&self, token: &String) -> (r: bool)
        ensures
            r == (self@.token == token@),
    {
        self.token == *token
    }

    pub fn has_catalog(&self) -> (r: bool)
        ensures
            r == (self@.catalog.len() > 0),
    {
        self.recipe_entries.len() > 0
    }

    /// Takes the entry under the cursor and moves the cursor past it; nothing
    /// when the cursor has reached the end of the catalog.
    pub fn take_next(&mut self) -> (r: Option<RecipeEntry>)
        ensures
            old(self)@.cursor < old(self)@.catalog.len() ==> {
                &&& r == Some(old(self)@.catalog[old(self)@.cursor])
                &&& final(self)@ == (SessionState { cursor: old(self)@.cursor + 1, ..old(self)@ })
            },
            old(self)@.cursor >= old(self)@.catalog.len() ==> r is None && final(self)@ == old(
                self,
            )@,
    {
        if self.last_fetched < self.recipe_entries.len() {
            let entry = &self.recipe_entries[self.last_fetched];
            let taken = RecipeEntry { uid: entry.uid.clone(), hash: entry.hash.clone() };
            self.last_fetched = self.last_fetched + 1;
            Some(taken)
        } else {
            None
        }
    }

    /// Ends the cycle: the cursor goes back to the start and the catalog is
    /// dropped, so that the next cycle lists it anew.
    pub fn restart_cycle(&mut self)
        ensures
            final(self)@ == (SessionState { catalog: Seq::empty(), cursor: 0, ..old(self)@ }),
    {
        self.recipe_entries = Vec::new();
        self.last_fetched = 0;
    }
}

} // verus!
