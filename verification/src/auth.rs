//! The token credential of a session, and the coordinator that renews its
//! token pair when the platform rejects an access token.
//!
//! The credential holds the pair in force, which is the pair that was
//! installed last, and the authoritative slot. While the refresh whose slot
//! was installed last is in flight, that slot is pending and the pair from
//! before stays in force; readers are never left without a pair. A slot is
//! known by its generation, which grows by one with each installation, so
//! that two slots are never taken for one another even where they hold equal
//! tokens.
//!
//! A refresh is a sequence of steps, each atomic on the credential, between
//! which other callers may take steps of their own: `begin_refresh`,
//! `install`, `resolve` and `complete`. The caller's driver performs what
//! lies between them: the call to the platform and the wait for it.

use crate::api::response::RefreshSessionResponse;
use crate::cancellation::is_cancelled;
use crate::identity::SessionId;
use crate::text::Text;
use tokio_util::sync::CancellationToken;
use vstd::prelude::*;

verus! {

/// An access token and a refresh token, as contracts see them.
pub type Tokens = (Text, Text);

/// Why the credential could not answer.
#[derive(Debug, Clone, Copy, PartialEq, Eq, Structural)]
pub enum CredentialError {
    /// The caller's cancellation signal was observed.
    Cancelled,
    /// The refresh operation ended without a result.
    TaskFailure,
    /// The authoritative slot is not resolved yet: a refresh cannot start
    /// from it.
    NotInitialized,
}

/// The credential as contracts see it.
pub struct CredentialState {
    /// The generation of the authoritative slot.
    pub generation: nat,
    /// The pair in force: the pair that was installed last.
    pub tokens: Tokens,
    /// Whether the authoritative slot still waits for its refresh.
    pub pending: bool,
}

/// What a caller saw when it decided to refresh: the authoritative slot of
/// that moment and the pair in it, with the session to renew.
#[derive(Debug)]
pub struct RefreshAttempt {
    pub generation: u64,
    pub session_id: SessionId,
    pub access_token: String,
    pub refresh_token: String,
}

/// What `begin_refresh` tells the caller to do.
#[derive(Debug)]
pub enum RefreshDecision {
    /// The rejected token is no longer in force: use this one, and call
    /// nobody.
    AlreadyRefreshed(String),
    /// The rejected token is the one in force: start a refresh with the
    /// attempt's session and pair, then `install`.
    Refresh(RefreshAttempt),
}

/// What `install` hands the caller: whether its slot became authoritative and
/// under which generation, and the pair to fall back on.
#[derive(Debug, PartialEq, Eq)]
pub struct RefreshTicket {
    /// The generation of this call's slot where the call installed it.
    pub slot: Option<u64>,
    pub fallback_access_token: String,
    pub fallback_refresh_token: String,
}

/// How a caller's wait for its own refresh ended.
#[derive(Debug, PartialEq, Eq)]
pub enum WaitOutcome {
    /// The refresh resolved to this pair.
    Resolved(String, String),
    /// The caller's cancellation signal came first.
    Cancelled,
    /// The refresh operation ended without resolving.
    TaskFailed,
}

/// What a caller's refresh comes to: what to return, and the pair to announce
/// to the subscribers of refreshed tokens, if any.
#[derive(Debug, PartialEq, Eq)]
pub struct RefreshCompletion {
    pub result: Result<String, CredentialError>,
    pub announce: Option<(String, String)>,
}

/// What the first step of a refresh answers. Cancellation that was seen
/// comes first, then a slot that is still pending. Otherwise the rejected
/// token decides: where it is not the token in force, that token is the
/// answer; where it is, the answer is an attempt made of what the credential
/// holds.
pub open spec fn begins_as(
    state: CredentialState,
    session: Text,
    rejected: Text,
    cancelled: bool,
    outcome: Result<RefreshDecision, CredentialError>,
) -> bool {
    if cancelled {
        outcome matches Err(CredentialError::Cancelled)
    } else if state.pending {
        outcome matches Err(CredentialError::NotInitialized)
    } else if state.tokens.0 != rejected {
        outcome matches Ok(RefreshDecision::AlreadyRefreshed(token)) && token@ == state.tokens.0
    } else {
        outcome matches Ok(RefreshDecision::Refresh(attempt)) && attempt.generation
            == state.generation && attempt.session_id@ == session && (
            attempt.access_token@,
            attempt.refresh_token@,
        ) == state.tokens
    }
}

/// The state after a caller that saw generation `seen` tries to install its
/// slot: installed as the next generation, and pending, where `seen` is
/// still the authoritative generation; unchanged where it is not. The pair in
/// force stays in force either way.
pub open spec fn install_spec(state: CredentialState, seen: nat) -> CredentialState {
    if state.generation == seen {
        CredentialState { generation: state.generation + 1, tokens: state.tokens, pending: true }
    } else {
        state
    }
}

/// The generation under which that caller's slot is installed, if it is.
pub open spec fn installed_slot(state: CredentialState, seen: nat) -> Option<nat> {
    if state.generation == seen {
        Some(state.generation + 1)
    } else {
        None
    }
}

/// The pair that a refresh resolves to: the new pair where the platform gave
/// one, the pair from before the refresh where the call failed.
pub open spec fn resolved_pair(fallback: Tokens, refreshed: Option<Tokens>) -> Tokens {
    match refreshed {
        Some(pair) => pair,
        None => fallback,
    }
}

/// The state after the refresh of the slot `slot` resolved to `pair`: the
/// pair is in force where that slot is the authoritative one and still
/// pending; nothing changes otherwise.
pub open spec fn resolve_spec(state: CredentialState, slot: Option<nat>, pair: Tokens)
    -> CredentialState {
    if slot == Some(state.generation) && state.pending {
        CredentialState { generation: state.generation, tokens: pair, pending: false }
    } else {
        state
    }
}

/// What a wait comes to: what the caller returns.
pub open spec fn completion_result(wait: WaitOutcome) -> Result<Text, CredentialError> {
    match wait {
        WaitOutcome::Resolved(access_token, _) => Ok(access_token@),
        WaitOutcome::Cancelled => Err(CredentialError::Cancelled),
        WaitOutcome::TaskFailed => Err(CredentialError::TaskFailure),
    }
}

/// What a wait comes to: the pair announced to subscribers. Only the caller
/// that installed its slot announces, and only the pair it waited for.
pub open spec fn completion_announcement(installer: bool, wait: WaitOutcome) -> Option<Tokens> {
    match wait {
        WaitOutcome::Resolved(access_token, refresh_token) => if installer {
            Some((access_token@, refresh_token@))
        } else {
            None
        },
        _ => None,
    }
}

/// The token credential of one session.
pub struct TokenCredential {
    session_id: SessionId,
    generation: u64,
    tokens: (String, String),
    pending: bool,
}

impl View for TokenCredential {
    type V = CredentialState;

    closed spec fn view(&self) -> CredentialState {
        CredentialState {
            generation: self.generation as nat,
            tokens: self.tokens@,
            pending: self.pending,
        }
    }
}

impl TokenCredential {
    /// The session that the credential belongs to.
    pub closed spec fn session(&self) -> Text {
        self.session_id@
    }

    /// The credential of a session that was established with this pair.
    pub fn new(session_id: SessionId, access_token: String, refresh_token: String) -> (credential:
        Self)
        ensures
            credential.session() == session_id@,
            credential@ == (CredentialState {
                generation: 0,
                tokens: (access_token@, refresh_token@),
                pending: false,
            }),
    {
        Self { session_id, generation: 0, tokens: (access_token, refresh_token), pending: false }
    }

    /// The generation of the authoritative slot.
    pub fn generation(&self) -> (generation: u64)
        ensures
            generation == self@.generation,
    {
        self.generation
    }

    /// The pair in force, unless cancellation was seen. While a refresh is in
    /// flight this is still the pair that was installed last.
    pub fn current_tokens(&self, cancelled: bool) -> (outcome: Result<
        (String, String),
        CredentialError,
    >)
        ensures
            cancelled ==> outcome == Err::<(String, String), CredentialError>(
                CredentialError::Cancelled,
            ),
            !cancelled ==> outcome is Ok && outcome->Ok_0@ == self@.tokens,
    {
        if cancelled {
            return Err(CredentialError::Cancelled);
        }
        Ok((self.tokens.0.clone(), self.tokens.1.clone()))
    }

    /// The pair in force. Nothing is fetched: the answer is the pair that was
    /// installed last. The only failure is cancellation.
    pub fn get_tokens(&self, cancellation_token: CancellationToken) -> (outcome: Result<
        (String, String),
        CredentialError,
    >)
        ensures
            outcome matches Ok(pair) ==> pair@ == self@.tokens,
            outcome matches Err(error) ==> error is Cancelled,
    {
        let cancelled = is_cancelled(&cancellation_token);
        self.current_tokens(cancelled)
    }

    /// The pair in force, as `get_tokens` gives it.
    pub fn get_access_token(&self, cancellation_token: CancellationToken) -> (outcome: Result<
        (String, String),
        CredentialError,
    >)
        ensures
            outcome matches Ok(pair) ==> pair@ == self@.tokens,
            outcome matches Err(error) ==> error is Cancelled,
    {
        self.get_tokens(cancellation_token)
    }

    /// The first step of a refresh, for a caller whose access token was
    /// rejected. It reads the credential and changes nothing. While the
    /// authoritative slot is pending no refresh can start. Otherwise, where
    /// the rejected token is not the one in force, a refresh has happened
    /// already and the token in force is the answer; where it is, the caller
    /// is to refresh from the pair in force.
    pub fn begin_refresh(&self, rejected_access_token: &String, cancelled: bool) -> (outcome:
        Result<RefreshDecision, CredentialError>)
        ensures
            begins_as(self@, self.session(), rejected_access_token@, cancelled, outcome),
    {
        if cancelled {
            return Err(CredentialError::Cancelled);
        }
        if self.pending {
            return Err(CredentialError::NotInitialized);
        }
        if self.tokens.0 == *rejected_access_token {
            Ok(
                RefreshDecision::Refresh(
                    RefreshAttempt {
                        generation: self.generation,
                        session_id: self.session_id.clone(),
                        access_token: self.tokens.0.clone(),
                        refresh_token: self.tokens.1.clone(),
                    },
                ),
            )
        } else {
            Ok(RefreshDecision::AlreadyRefreshed(self.tokens.0.clone()))
        }
    }

    /// The compare-and-install step. The caller's new slot becomes the
    /// authoritative one exactly where no other slot was installed since the
    /// caller read the credential; the ticket says whether it did. The pair
    /// in force is not touched.
    pub fn install(&mut self, attempt: &RefreshAttempt) -> (ticket: RefreshTicket)
        requires
            old(self)@.generation < u64::MAX,
        ensures
            final(self)@ == install_spec(old(self)@, attempt.generation as nat),
            final(self).session() == old(self).session(),
            match ticket.slot {
                Some(slot) => installed_slot(old(self)@, attempt.generation as nat) == Some(
                    slot as nat,
                ),
                None => installed_slot(old(self)@, attempt.generation as nat) is None,
            },
            ticket.fallback_access_token@ == attempt.access_token@,
            ticket.fallback_refresh_token@ == attempt.refresh_token@,
    {
        let slot = if self.generation == attempt.generation {
            self.generation = self.generation + 1;
            self.pending = true;
            Some(self.generation)
        } else {
            None
        };
        RefreshTicket {
            slot,
            fallback_access_token: attempt.access_token.clone(),
            fallback_refresh_token: attempt.refresh_token.clone(),
        }
    }

    /// The end of a refresh operation: its slot resolves, to the pair that
    /// the platform gave or, where the call failed, to the pair from before.
    /// Where the slot is the authoritative one, the pair is in force from now
    /// on. The resolved pair is returned for the caller that waits for it.
    pub fn resolve(&mut self, ticket: &RefreshTicket, refreshed: Option<RefreshSessionResponse>)
        -> (pair: (String, String))
        ensures
            pair@ == resolved_pair(
                (ticket.fallback_access_token@, ticket.fallback_refresh_token@),
                match refreshed {
                    Some(response) => Some((response.access_token@, response.refresh_token@)),
                    None => None,
                },
            ),
            final(self)@ == resolve_spec(
                old(self)@,
                match ticket.slot {
                    Some(slot) => Some(slot as nat),
                    None => None,
                },
                pair@,
            ),
            final(self).session() == old(self).session(),
    {
        let pair = match refreshed {
            Some(response) => (response.access_token, response.refresh_token),
            None => (ticket.fallback_access_token.clone(), ticket.fallback_refresh_token.clone()),
        };
        let authoritative = match ticket.slot {
            Some(slot) => slot == self.generation,
            None => false,
        };
        if authoritative && self.pending {
            self.tokens = (pair.0.clone(), pair.1.clone());
            self.pending = false;
        }
        pair
    }

    /// The last step, when the caller's wait has ended: what the caller
    /// returns and what it announces. The credential is not touched, so a
    /// wait that was cancelled or failed concerns its own caller alone.
    pub fn complete(ticket: &RefreshTicket, wait: WaitOutcome) -> (completion: RefreshCompletion)
        ensures
            match completion.result {
                Ok(token) => completion_result(wait) == Ok::<Text, CredentialError>(token@),
                Err(error) => completion_result(wait) == Err::<Text, CredentialError>(error),
            },
            match completion.announce {
                Some(pair) => completion_announcement(ticket.slot is Some, wait) == Some(pair@),
                None => completion_announcement(ticket.slot is Some, wait) is None,
            },
    {
        match wait {
            WaitOutcome::Resolved(access_token, refresh_token) => {
                let announce = if ticket.slot.is_some() {
                    Some((access_token.clone(), refresh_token))
                } else {
                    None
                };
                RefreshCompletion { result: Ok(access_token), announce }
            },
            WaitOutcome::Cancelled => RefreshCompletion {
                result: Err(CredentialError::Cancelled),
                announce: None,
            },
            WaitOutcome::TaskFailed => RefreshCompletion {
                result: Err(CredentialError::TaskFailure),
                announce: None,
            },
        }
    }
}

/// The pair in force can be read in every state: installing a slot leaves
/// it as it was, and only the resolution of the authoritative slot replaces
/// it, by the pair that the slot resolved to.
pub proof fn lemma_pair_in_force_outlives_installation(
    state: CredentialState,
    seen: nat,
    slot: Option<nat>,
    pair: Tokens,
)
    ensures
        install_spec(state, seen).tokens == state.tokens,
        resolve_spec(state, slot, pair).tokens == state.tokens || (slot == Some(state.generation)
            && state.pending && resolve_spec(state, slot, pair).tokens == pair),
        resolve_spec(install_spec(state, seen), installed_slot(state, seen), pair).tokens == if seen
            == state.generation {
            pair
        } else {
            state.tokens
        },
{
}

/// Of two callers that read the same authoritative slot and both go on to
/// install, exactly one installs, whichever comes first. Until a refresh
/// resolves the pair from before stays in force; once both have resolved, in
/// either order, the pair of the one that installed is in force.
pub proof fn lemma_one_installer_per_round(
    state: CredentialState,
    first_pair: Tokens,
    second_pair: Tokens,
)
    ensures
        ({
            let seen = state.generation;
            let first_slot = installed_slot(state, seen);
            let after_first = install_spec(state, seen);
            let second_slot = installed_slot(after_first, seen);
            let after_both = install_spec(after_first, seen);
            let first_then_second = resolve_spec(
                resolve_spec(after_both, first_slot, first_pair),
                second_slot,
                second_pair,
            );
            let second_then_first = resolve_spec(
                resolve_spec(after_both, second_slot, second_pair),
                first_slot,
                first_pair,
            );
            &&& first_slot is Some
            &&& second_slot is None
            &&& after_both == after_first
            &&& after_both.pending
            &&& after_both.tokens == state.tokens
            &&& resolve_spec(after_both, second_slot, second_pair) == after_both
            &&& first_then_second.tokens == first_pair
            &&& !first_then_second.pending
            &&& second_then_first == first_then_second
        }),
{
}

/// Two callers present the same token, which is the one in force, before
/// either has installed; the platform gives both the same new pair, whose
/// access token differs from the rejected one. Then both are told to
/// refresh, one of them installs, both return the new access token, and
/// exactly one of them announces the new pair.
pub proof fn lemma_racing_callers_agree(
    state: CredentialState,
    session: Text,
    first: Result<RefreshDecision, CredentialError>,
    second: Result<RefreshDecision, CredentialError>,
    new_access_token: String,
    new_refresh_token: String,
)
    requires
        !state.pending,
        state.tokens.0 != new_access_token@,
        begins_as(state, session, state.tokens.0, false, first),
        begins_as(state, session, state.tokens.0, false, second),
    ensures
        first matches Ok(RefreshDecision::Refresh(first_attempt)) && second matches Ok(
            RefreshDecision::Refresh(second_attempt),
        ) && ({
            let first_seen = first_attempt.generation as nat;
            let second_seen = second_attempt.generation as nat;
            let first_slot = installed_slot(state, first_seen);
            let second_slot = installed_slot(install_spec(state, first_seen), second_seen);
            let pair = (new_access_token@, new_refresh_token@);
            let wait = WaitOutcome::Resolved(new_access_token, new_refresh_token);
            &&& first_slot is Some
            &&& second_slot is None
            &&& resolved_pair(
                (first_attempt.access_token@, first_attempt.refresh_token@),
                Some(pair),
            ) == pair
            &&& resolved_pair(
                (second_attempt.access_token@, second_attempt.refresh_token@),
                Some(pair),
            ) == pair
            &&& completion_result(wait) == Ok::<Text, CredentialError>(new_access_token@)
            &&& completion_result(wait) != Ok::<Text, CredentialError>(state.tokens.0)
            &&& completion_announcement(first_slot is Some, wait) == Some(pair)
            &&& completion_announcement(second_slot is Some, wait) is None
        }),
{
}

/// A slot is installed only over the slot that its caller read: a caller that
/// read an earlier generation than the authoritative one installs nothing and
/// changes nothing, no step ever takes the generation back, and a slot
/// resolves once.
pub proof fn lemma_stale_callers_never_install(
    state: CredentialState,
    seen: nat,
    slot: Option<nat>,
    pair: Tokens,
)
    ensures
        seen != state.generation ==> install_spec(state, seen) == state && installed_slot(
            state,
            seen,
        ) is None,
        install_spec(state, seen).generation >= state.generation,
        resolve_spec(state, slot, pair).generation == state.generation,
        !state.pending ==> resolve_spec(state, slot, pair) == state,
{
}

/// A wait that is cancelled gives its caller the cancellation error and no
/// announcement, whether or not the caller had installed its slot. The
/// refresh it started resolves all the same, and another caller of the same
/// round, whose wait is not cancelled, gets the token it waited for.
pub proof fn lemma_cancellation_is_private(
    state: CredentialState,
    installer: bool,
    pair: Tokens,
    other_access_token: String,
    other_refresh_token: String,
)
    ensures
        completion_result(WaitOutcome::Cancelled) == Err::<Text, CredentialError>(
            CredentialError::Cancelled,
        ),
        completion_announcement(installer, WaitOutcome::Cancelled) is None,
        completion_result(WaitOutcome::Resolved(other_access_token, other_refresh_token)) == Ok::<
            Text,
            CredentialError,
        >(other_access_token@),
        ({
            let seen = state.generation;
            let slot = installed_slot(state, seen);
            let installed = install_spec(state, seen);
            resolve_spec(installed, slot, pair).tokens == pair
        }),
{
}

} // verus!
