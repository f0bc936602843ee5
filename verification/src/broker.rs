//! The token broker: how the upstream bearer of an account is found,
//! exchanged and refreshed. The broker decides; its caller takes the lock,
//! reads the store and calls the token endpoints, and reports what came back.

use vstd::prelude::*;
use crate::records::{Account, Token};
use crate::text::{is_blank, nonblank, nonblank_text, owned_view, str_eq, trimmed};

verus! {

/// The issuer and client id that hold where an account names none.
#[derive(Debug)]
pub struct BrokerDefaults {
    pub issuer: String,
    pub client_id: String,
}

/// What a token refresh hands back.
#[derive(Debug)]
pub struct RefreshedTokens {
    pub access_token: String,
    pub refresh_token: Option<String>,
    pub id_token: Option<String>,
}

/// What the broker waits for.
#[derive(Debug, Clone, Copy, PartialEq, Eq, Structural)]
pub enum BrokerPhase {
    AwaitLock,
    AwaitStored,
    AwaitExchange,
    AwaitRefresh,
    AwaitSecondExchange,
    Done,
}

/// What the caller reports to the broker.
#[derive(Debug)]
pub enum BrokerEvent {
    /// The account's token-exchange lock is held.
    LockAcquired,
    /// The account's token-exchange lock is poisoned.
    LockPoisoned,
    /// The token rows of the store, or nothing where they could not be read.
    StoredTokens(Option<Vec<Token>>),
    /// The outcome of the exchange of an id token for a bearer.
    Exchanged(Result<String, String>),
    /// The outcome of a token refresh.
    Refreshed(Result<RefreshedTokens, String>),
}

/// What the broker asks of its caller. `persist` and `persist_first` say
/// that the token record, as the broker has left it, is to be written to the
/// store, failures of the store being ignored.
#[derive(Debug)]
pub enum BrokerAction {
    /// Take the token-exchange lock of the account.
    AcquireLock,
    /// Read the token rows of the store again.
    ReadStoredTokens,
    /// Exchange the id token for a bearer.
    Exchange { issuer: String, client_id: String, id_token: String, persist_first: bool },
    /// Refresh the tokens.
    Refresh { issuer: String, client_id: String, refresh_token: String },
    /// The resolution has ended with this result.
    Finish { result: Result<String, String>, persist: bool },
    /// The resolution had ended before; nothing is left to do.
    Nothing,
}

/// The texts of an action.
pub enum ActionView {
    AcquireLock,
    ReadStoredTokens,
    Exchange { issuer: Seq<char>, client_id: Seq<char>, id_token: Seq<char>, persist_first: bool },
    Refresh { issuer: Seq<char>, client_id: Seq<char>, refresh_token: Seq<char> },
    Finish { result: Result<Seq<char>, Seq<char>>, persist: bool },
    Nothing,
}

impl View for BrokerAction {
    type V = ActionView;

    open spec fn view(&self) -> ActionView {
        match *self {
            BrokerAction::AcquireLock => ActionView::AcquireLock,
            BrokerAction::ReadStoredTokens => ActionView::ReadStoredTokens,
            BrokerAction::Exchange { issuer, client_id, id_token, persist_first } => {
                ActionView::Exchange {
                    issuer: issuer@,
                    client_id: client_id@,
                    id_token: id_token@,
                    persist_first,
                }
            },
            BrokerAction::Refresh { issuer, client_id, refresh_token } => ActionView::Refresh {
                issuer: issuer@,
                client_id: client_id@,
                refresh_token: refresh_token@,
            },
            BrokerAction::Finish { result, persist } => ActionView::Finish {
                result: match result {
                    Ok(bearer) => Ok(bearer@),
                    Err(error) => Err(error@),
                },
                persist,
            },
            BrokerAction::Nothing => ActionView::Nothing,
        }
    }
}

/// The state of one bearer resolution.
#[derive(Debug)]
pub struct BearerResolution {
    pub phase: BrokerPhase,
    pub exchange_error: String,
}

/// The bearer that a token record already holds: its exchanged bearer,
/// trimmed, unless that is blank.
pub open spec fn held_bearer(token: Token) -> Option<Seq<char>> {
    nonblank(owned_view(token.api_key_access_token))
}

/// The position from `from` on of the first token row of an account, or
/// the length of the list.
pub open spec fn first_token_index(tokens: Seq<Token>, id: Seq<char>, from: int) -> int
    decreases tokens.len() - from,
{
    if from < 0 || from >= tokens.len() {
        tokens.len() as int
    } else if tokens[from].account_id@ == id {
        from
    } else {
        first_token_index(tokens, id, from + 1)
    }
}

/// The bearer that the store holds for an account: that of its first token
/// row, trimmed, unless it is blank.
pub open spec fn stored_bearer(tokens: Seq<Token>, id: Seq<char>) -> Option<Seq<char>> {
    let k = first_token_index(tokens, id, 0);
    if k < tokens.len() {
        held_bearer(tokens[k])
    } else {
        None
    }
}

/// The issuer of an account, or the default where the account names none.
pub open spec fn issuer_for(account: Account, defaults: BrokerDefaults) -> Seq<char> {
    if trimmed(account.issuer@).len() == 0 {
        defaults.issuer@
    } else {
        account.issuer@
    }
}

/// The last resort: the access token, trimmed, is the bearer; where it is
/// blank, the resolution fails with the error of the first exchange.
pub open spec fn fallback_result(token: Token, error: Seq<char>) -> Result<Seq<char>, Seq<char>> {
    if trimmed(token.access_token@).len() == 0 {
        Err(error)
    } else {
        Ok(trimmed(token.access_token@))
    }
}

/// The view of a result of texts.
pub open spec fn result_view(result: Result<String, String>) -> Result<Seq<char>, Seq<char>> {
    match result {
        Ok(text) => Ok(text@),
        Err(error) => Err(error@),
    }
}

/// Reads the bearer that the store holds for an account.
pub fn find_cached_api_key_access_token(tokens: &Vec<Token>, account_id: &str) -> (out: Option<
    String,
>)
    ensures
        owned_view(out) == stored_bearer(tokens@, account_id@),
{
    let mut i: usize = 0;
    while i < tokens.len()
        invariant
            i <= tokens.len(),
            first_token_index(tokens@, account_id@, 0) == first_token_index(
                tokens@,
                account_id@,
                i as int,
            ),
        decreases tokens.len() - i,
    {
        if str_eq(tokens[i].account_id.as_str(), account_id) {
            return match &tokens[i].api_key_access_token {
                Some(bearer) => nonblank_text(Some(bearer.as_str())),
                None => None,
            };
        }
        i += 1;
    }
    None
}

/// Falls back to the access token of the record.
pub fn fallback_to_access_token(token: &Token, exchange_error: &str) -> (out: Result<String, String>)
    ensures
        result_view(out) == fallback_result(*token, exchange_error@),
{
    match nonblank_text(Some(token.access_token.as_str())) {
        Some(fallback) => Ok(fallback),
        None => Err(exchange_error.to_string()),
    }
}

/// The bearer that the record holds already.
pub fn held_api_key_access_token(token: &Token) -> (out: Option<String>)
    ensures
        owned_view(out) == held_bearer(*token),
{
    match &token.api_key_access_token {
        Some(bearer) => nonblank_text(Some(bearer.as_str())),
        None => None,
    }
}

/// `after` is `before` with the given bearer as its exchanged bearer.
pub open spec fn token_with_bearer(before: Token, after: Token, bearer: Seq<char>) -> bool {
    &&& after.account_id == before.account_id
    &&& after.id_token == before.id_token
    &&& after.access_token == before.access_token
    &&& after.refresh_token == before.refresh_token
    &&& after.last_refresh == before.last_refresh
    &&& owned_view(after.api_key_access_token) == Some(bearer)
}

/// `after` is `before` with the refreshed tokens taken in: the access token
/// always, the refresh token and the id token where the refresh gave one.
pub open spec fn token_refreshed(before: Token, after: Token, refreshed: RefreshedTokens) -> bool {
    &&& after.account_id == before.account_id
    &&& after.access_token@ == refreshed.access_token@
    &&& after.refresh_token@ == match refreshed.refresh_token {
        Some(text) => text@,
        None => before.refresh_token@,
    }
    &&& after.id_token@ == match refreshed.id_token {
        Some(text) => text@,
        None => before.id_token@,
    }
    &&& after.api_key_access_token == before.api_key_access_token
    &&& after.last_refresh == before.last_refresh
}

/// The exchange that the broker asks for.
pub open spec fn exchange_view(
    account: Account,
    defaults: BrokerDefaults,
    token: Token,
    persist_first: bool,
) -> ActionView {
    ActionView::Exchange {
        issuer: issuer_for(account, defaults),
        client_id: defaults.client_id@,
        id_token: token.id_token@,
        persist_first,
    }
}

/// The refresh that the broker asks for.
pub open spec fn refresh_view(account: Account, defaults: BrokerDefaults, token: Token) -> ActionView {
    ActionView::Refresh {
        issuer: issuer_for(account, defaults),
        client_id: defaults.client_id@,
        refresh_token: token.refresh_token@,
    }
}

/// What the broker is waiting for, as the action that it asks for again
/// when a report does not fit.
pub open spec fn pending_view(
    phase: BrokerPhase,
    account: Account,
    defaults: BrokerDefaults,
    token: Token,
) -> ActionView {
    match phase {
        BrokerPhase::AwaitLock => ActionView::AcquireLock,
        BrokerPhase::AwaitStored => ActionView::ReadStoredTokens,
        BrokerPhase::AwaitExchange => exchange_view(account, defaults, token, false),
        BrokerPhase::AwaitRefresh => refresh_view(account, defaults, token),
        BrokerPhase::AwaitSecondExchange => exchange_view(account, defaults, token, true),
        BrokerPhase::Done => ActionView::Nothing,
    }
}

/// The token rows that a report of the store holds; none where the store
/// could not be read.
pub open spec fn stored_rows(stored: Option<Vec<Token>>) -> Seq<Token> {
    match stored {
        Some(rows) => rows@,
        None => Seq::empty(),
    }
}

/// One step of a bearer resolution: from a phase, a kept exchange error, a
/// token record and a report to the next phase, error and record, and the
/// action asked for.
///
/// With the lock held, a bearer that the record holds ends the resolution;
/// otherwise the store is read. A bearer that the store holds for the account
/// is taken into the record and ends the resolution without an exchange.
/// Otherwise the id token is exchanged. A bearer from the exchange is taken
/// into the record, which is to be persisted. After a failed exchange the
/// tokens are refreshed if there is a refresh token; a refresh that succeeds
/// is taken into the record, which is to be persisted, and the exchange is
/// tried once more if there is an id token. Whenever nothing else is left,
/// the access token is the last resort. A poisoned lock ends the resolution
/// with an error. A report that does not fit the phase changes nothing, and
/// the pending action is asked for again.
pub open spec fn broker_step(
    phase: BrokerPhase,
    error: Seq<char>,
    token: Token,
    event: BrokerEvent,
    account: Account,
    defaults: BrokerDefaults,
    phase2: BrokerPhase,
    error2: Seq<char>,
    token2: Token,
    action: ActionView,
) -> bool {
    match (phase, event) {
        (BrokerPhase::AwaitLock, BrokerEvent::LockPoisoned) => {
            &&& phase2 == BrokerPhase::Done
            &&& error2 == error
            &&& token2 == token
            &&& action == ActionView::Finish {
                result: Err("token exchange lock poisoned"@),
                persist: false,
            }
        },
        (BrokerPhase::AwaitLock, BrokerEvent::LockAcquired) => {
            &&& error2 == error
            &&& token2 == token
            &&& match held_bearer(token) {
                Some(bearer) => phase2 == BrokerPhase::Done && action == ActionView::Finish {
                    result: Ok(bearer),
                    persist: false,
                },
                None => phase2 == BrokerPhase::AwaitStored && action
                    == ActionView::ReadStoredTokens,
            }
        },
        (BrokerPhase::AwaitStored, BrokerEvent::StoredTokens(stored)) => {
            &&& error2 == error
            &&& match stored_bearer(stored_rows(stored), account.id@) {
                Some(bearer) => {
                    &&& phase2 == BrokerPhase::Done
                    &&& token_with_bearer(token, token2, bearer)
                    &&& action == ActionView::Finish { result: Ok(bearer), persist: false }
                },
                None => {
                    &&& phase2 == BrokerPhase::AwaitExchange
                    &&& token2 == token
                    &&& action == exchange_view(account, defaults, token, false)
                },
            }
        },
        (BrokerPhase::AwaitExchange, BrokerEvent::Exchanged(Ok(bearer))) => {
            &&& phase2 == BrokerPhase::Done
            &&& error2 == error
            &&& token_with_bearer(token, token2, bearer@)
            &&& action == ActionView::Finish { result: Ok(bearer@), persist: true }
        },
        (BrokerPhase::AwaitExchange, BrokerEvent::Exchanged(Err(failure))) => {
            &&& error2 == failure@
            &&& token2 == token
            &&& if trimmed(token.refresh_token@).len() > 0 {
                phase2 == BrokerPhase::AwaitRefresh && action == refresh_view(
                    account,
                    defaults,
                    token,
                )
            } else {
                phase2 == BrokerPhase::Done && action == ActionView::Finish {
                    result: fallback_result(token, failure@),
                    persist: false,
                }
            }
        },
        (BrokerPhase::AwaitRefresh, BrokerEvent::Refreshed(Ok(refreshed))) => {
            &&& error2 == error
            &&& token_refreshed(token, token2, refreshed)
            &&& if trimmed(token2.id_token@).len() > 0 {
                phase2 == BrokerPhase::AwaitSecondExchange && action == exchange_view(
                    account,
                    defaults,
                    token2,
                    true,
                )
            } else {
                phase2 == BrokerPhase::Done && action == ActionView::Finish {
                    result: fallback_result(token2, error),
                    persist: true,
                }
            }
        },
        (BrokerPhase::AwaitRefresh, BrokerEvent::Refreshed(Err(_))) => {
            &&& phase2 == BrokerPhase::Done
            &&& error2 == error
            &&& token2 == token
            &&& action == ActionView::Finish {
                result: fallback_result(token, error),
                persist: false,
            }
        },
        (BrokerPhase::AwaitSecondExchange, BrokerEvent::Exchanged(Ok(bearer))) => {
            &&& phase2 == BrokerPhase::Done
            &&& error2 == error
            &&& token_with_bearer(token, token2, bearer@)
            &&& action == ActionView::Finish { result: Ok(bearer@), persist: true }
        },
        (BrokerPhase::AwaitSecondExchange, BrokerEvent::Exchanged(Err(_))) => {
            &&& phase2 == BrokerPhase::Done
            &&& error2 == error
            &&& token2 == token
            &&& action == ActionView::Finish {
                result: fallback_result(token, error),
                persist: false,
            }
        },
        _ => {
            &&& phase2 == phase
            &&& error2 == error
            &&& token2 == token
            &&& action == pending_view(phase, account, defaults, token)
        },
    }
}

fn exchange_action(
    account: &Account,
    defaults: &BrokerDefaults,
    token: &Token,
    persist_first: bool,
) -> (out: BrokerAction)
    ensures
        out@ == exchange_view(*account, *defaults, *token, persist_first),
{
    let issuer = if is_blank(account.issuer.as_str()) {
        defaults.issuer.clone()
    } else {
        account.issuer.clone()
    };
    BrokerAction::Exchange {
        issuer,
        client_id: defaults.client_id.clone(),
        id_token: token.id_token.clone(),
        persist_first,
    }
}

fn refresh_action(account: &Account, defaults: &BrokerDefaults, token: &Token) -> (out:
    BrokerAction)
    ensures
        out@ == refresh_view(*account, *defaults, *token),
{
    let issuer = if is_blank(account.issuer.as_str()) {
        defaults.issuer.clone()
    } else {
        account.issuer.clone()
    };
    BrokerAction::Refresh {
        issuer,
        client_id: defaults.client_id.clone(),
        refresh_token: token.refresh_token.clone(),
    }
}

fn finish_with_fallback(token: &Token, error: &str, persist: bool) -> (out: BrokerAction)
    ensures
        out@ == (ActionView::Finish { result: fallback_result(*token, error@), persist }),
{
    BrokerAction::Finish { result: fallback_to_access_token(token, error), persist }
}

fn finish_with_bearer(bearer: String, persist: bool) -> (out: BrokerAction)
    ensures
        out@ == (ActionView::Finish { result: Ok(bearer@), persist }),
{
    BrokerAction::Finish { result: Ok(bearer), persist }
}

/// Begins the resolution of the bearer of a token record. A bearer that the
/// record holds already is the result, and nothing else happens; otherwise
/// the broker asks for the lock of the account.
pub fn start_bearer_resolution(token: &Token) -> (out: (BearerResolution, BrokerAction))
    ensures
        out.0.exchange_error@.len() == 0,
        match held_bearer(*token) {
            Some(bearer) => out.0.phase == BrokerPhase::Done && out.1@ == (ActionView::Finish {
                result: Ok(bearer),
                persist: false,
            }),
            None => out.0.phase == BrokerPhase::AwaitLock && out.1@ == ActionView::AcquireLock,
        },
{
    match held_api_key_access_token(token) {
        Some(bearer) => (
            BearerResolution { phase: BrokerPhase::Done, exchange_error: String::new() },
            finish_with_bearer(bearer, false),
        ),
        None => (
            BearerResolution { phase: BrokerPhase::AwaitLock, exchange_error: String::new() },
            BrokerAction::AcquireLock,
        ),
    }
}

impl BearerResolution {
    fn pending(&self, account: &Account, defaults: &BrokerDefaults, token: &Token) -> (out:
        BrokerAction)
        ensures
            out@ == pending_view(self.phase, *account, *defaults, *token),
    {
        match self.phase {
            BrokerPhase::AwaitLock => BrokerAction::AcquireLock,
            BrokerPhase::AwaitStored => BrokerAction::ReadStoredTokens,
            BrokerPhase::AwaitExchange => exchange_action(account, defaults, token, false),
            BrokerPhase::AwaitRefresh => refresh_action(account, defaults, token),
            BrokerPhase::AwaitSecondExchange => exchange_action(account, defaults, token, true),
            BrokerPhase::Done => BrokerAction::Nothing,
        }
    }

    /// Takes a report and says what to do next.
    pub fn advance(
        &mut self,
        event: BrokerEvent,
        account: &Account,
        token: &mut Token,
        defaults: &BrokerDefaults,
    ) -> (action: BrokerAction)
        ensures
            broker_step(
                old(self).phase,
                old(self).exchange_error@,
                *old(token),
                event,
                *account,
                *defaults,
                final(self).phase,
                final(self).exchange_error@,
                *final(token),
                action@,
            ),
    {
        match self.phase {
            BrokerPhase::AwaitLock => match event {
                BrokerEvent::LockPoisoned => {
                    self.phase = BrokerPhase::Done;
                    BrokerAction::Finish {
                        result: Err("token exchange lock poisoned".to_string()),
                        persist: false,
                    }
                },
                BrokerEvent::LockAcquired => match held_api_key_access_token(token) {
                    Some(bearer) => {
                        self.phase = BrokerPhase::Done;
                        finish_with_bearer(bearer, false)
                    },
                    None => {
                        self.phase = BrokerPhase::AwaitStored;
                        BrokerAction::ReadStoredTokens
                    },
                },
                _ => self.pending(account, defaults, token),
            },
            BrokerPhase::AwaitStored => match event {
                BrokerEvent::StoredTokens(stored) => {
                    let cached = match &stored {
                        Some(rows) => find_cached_api_key_access_token(rows, account.id.as_str()),
                        None => None,
                    };
                    proof {
                        if stored is None {
                            assert(first_token_index(Seq::<Token>::empty(), account.id@, 0) == 0);
                        }
                    }
                    match cached {
                        Some(bearer) => {
                            token.api_key_access_token = Some(bearer.clone());
                            self.phase = BrokerPhase::Done;
                            finish_with_bearer(bearer, false)
                        },
                        None => {
                            self.phase = BrokerPhase::AwaitExchange;
                            exchange_action(account, defaults, token, false)
                        },
                    }
                },
                _ => self.pending(account, defaults, token),
            },
            BrokerPhase::AwaitExchange => match event {
                BrokerEvent::Exchanged(Ok(bearer)) => {
                    token.api_key_access_token = Some(bearer.clone());
                    self.phase = BrokerPhase::Done;
                    finish_with_bearer(bearer, true)
                },
                BrokerEvent::Exchanged(Err(failure)) => {
                    let action = if !is_blank(token.refresh_token.as_str()) {
                        self.phase = BrokerPhase::AwaitRefresh;
                        refresh_action(account, defaults, token)
                    } else {
                        self.phase = BrokerPhase::Done;
                        finish_with_fallback(token, failure.as_str(), false)
                    };
                    self.exchange_error = failure;
                    action
                },
                _ => self.pending(account, defaults, token),
            },
            BrokerPhase::AwaitRefresh => match event {
                BrokerEvent::Refreshed(Ok(refreshed)) => {
                    token.access_token = refreshed.access_token;
                    if let Some(refresh_token) = refreshed.refresh_token {
                        token.refresh_token = refresh_token;
                    }
                    if let Some(id_token) = refreshed.id_token {
                        token.id_token = id_token;
                    }
                    if !is_blank(token.id_token.as_str()) {
                        self.phase = BrokerPhase::AwaitSecondExchange;
                        exchange_action(account, defaults, token, true)
                    } else {
                        self.phase = BrokerPhase::Done;
                        finish_with_fallback(token, self.exchange_error.as_str(), true)
                    }
                },
                BrokerEvent::Refreshed(Err(_)) => {
                    self.phase = BrokerPhase::Done;
                    finish_with_fallback(token, self.exchange_error.as_str(), false)
                },
                _ => self.pending(account, defaults, token),
            },
            BrokerPhase::AwaitSecondExchange => match event {
                BrokerEvent::Exchanged(Ok(bearer)) => {
                    token.api_key_access_token = Some(bearer.clone());
                    self.phase = BrokerPhase::Done;
                    finish_with_bearer(bearer, true)
                },
                BrokerEvent::Exchanged(Err(_)) => {
                    self.phase = BrokerPhase::Done;
                    finish_with_fallback(token, self.exchange_error.as_str(), false)
                },
                _ => self.pending(account, defaults, token),
            },
            BrokerPhase::Done => self.pending(account, defaults, token),
        }
    }
}

/// How many reports a resolution can still take before it is done.
pub open spec fn reports_left(phase: BrokerPhase) -> nat {
    match phase {
        BrokerPhase::AwaitLock => 5,
        BrokerPhase::AwaitStored => 4,
        BrokerPhase::AwaitExchange => 3,
        BrokerPhase::AwaitRefresh => 2,
        BrokerPhase::AwaitSecondExchange => 1,
        BrokerPhase::Done => 0,
    }
}

/// The report answers what the broker waits for in the phase.
pub open spec fn report_fits(phase: BrokerPhase, event: BrokerEvent) -> bool {
    match (phase, event) {
        (BrokerPhase::AwaitLock, BrokerEvent::LockAcquired) => true,
        (BrokerPhase::AwaitLock, BrokerEvent::LockPoisoned) => true,
        (BrokerPhase::AwaitStored, BrokerEvent::StoredTokens(_)) => true,
        (BrokerPhase::AwaitExchange, BrokerEvent::Exchanged(_)) => true,
        (BrokerPhase::AwaitRefresh, BrokerEvent::Refreshed(_)) => true,
        (BrokerPhase::AwaitSecondExchange, BrokerEvent::Exchanged(_)) => true,
        _ => false,
    }
}

/// Every report that fits brings the resolution nearer to its end: a
/// resolution is done after five such reports at most, with one exchange
/// before a refresh and one after it at most.
pub proof fn lemma_fitting_report_makes_progress(
    phase: BrokerPhase,
    error: Seq<char>,
    token: Token,
    event: BrokerEvent,
    account: Account,
    defaults: BrokerDefaults,
    phase2: BrokerPhase,
    error2: Seq<char>,
    token2: Token,
    action: ActionView,
)
    requires
        report_fits(phase, event),
        broker_step(phase, error, token, event, account, defaults, phase2, error2, token2, action),
    ensures
        reports_left(phase2) < reports_left(phase),
        phase2 == BrokerPhase::Done <==> action is Finish,
{
}

/// A bearer that the store holds for the account ends the resolution: it
/// is the result and stands in the token record, and no exchange is asked for.
pub proof fn lemma_stored_bearer_is_adopted(
    error: Seq<char>,
    token: Token,
    stored: Option<Vec<Token>>,
    account: Account,
    defaults: BrokerDefaults,
    phase2: BrokerPhase,
    error2: Seq<char>,
    token2: Token,
    action: ActionView,
)
    requires
        stored_bearer(stored_rows(stored), account.id@) is Some,
        broker_step(
            BrokerPhase::AwaitStored,
            error,
            token,
            BrokerEvent::StoredTokens(stored),
            account,
            defaults,
            phase2,
            error2,
            token2,
            action,
        ),
    ensures
        phase2 == BrokerPhase::Done,
        action == (ActionView::Finish {
            result: Ok(stored_bearer(stored_rows(stored), account.id@)->0),
            persist: false,
        }),
        owned_view(token2.api_key_access_token) == stored_bearer(
            stored_rows(stored),
            account.id@,
        ),
{
}

} // verus!
