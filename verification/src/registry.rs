use std::collections::HashMap;

use vstd::prelude::*;

use crate::discovery::authorization_redirect_url;
use crate::discovery::callback_url;
use crate::flow::apply_event;
use crate::flow::flow_wf;
use crate::flow::spec_phase;
use crate::flow::FlowEvent;
use crate::flow::FlowPhase;
use crate::flow::FlowState;
use crate::flow::SpecFlowState;

verus! {

broadcast use vstd::std_specs::hash::group_hash_axioms;

/// The record a session that has not been seen yet starts at: no code, no
/// token.
pub open spec fn fresh_session(endpoint: Seq<char>, client_id: Seq<char>) -> SpecFlowState {
    SpecFlowState { endpoint, client_id, code: None, token: None }
}

/// The record a session is at: the stored one, or a fresh one for a session
/// the registry has not seen.
pub open spec fn session_state(
    m: Map<u64, SpecFlowState>,
    endpoint: Seq<char>,
    client_id: Seq<char>,
    session: u64,
) -> SpecFlowState {
    if m.contains_key(session) {
        m[session]
    } else {
        fresh_session(endpoint, client_id)
    }
}

/// Every stored record is well-formed and carries the registry's endpoint
/// and client identifier.
pub open spec fn registry_wf(
    m: Map<u64, SpecFlowState>,
    endpoint: Seq<char>,
    client_id: Seq<char>,
) -> bool {
    forall|k: u64| #[trigger]
        m.contains_key(k) ==> flow_wf(m[k]) && m[k].endpoint == endpoint && m[k].client_id
            == client_id
}

/// Tracks authorization progress per session: one flow record per session
/// key, each following the same state machine, so concurrent users do not
/// share one slot.
pub struct FlowRegistry {
    pub authorization_endpoint: String,
    pub client_id: String,
    pub flows: HashMap<u64, FlowState>,
}

impl View for FlowRegistry {
    type V = Map<u64, SpecFlowState>;

    open spec fn view(&self) -> Map<u64, SpecFlowState> {
        Map::new(|k: u64| self.flows@.contains_key(k), |k: u64| self.flows@[k]@)
    }
}

impl FlowRegistry {
    /// A fresh registry around the discovered endpoint: no session yet.
    pub fn new(authorization_endpoint: String, client_id: String) -> (r: FlowRegistry)
        ensures
            r@ == Map::<u64, SpecFlowState>::empty(),
            r.authorization_endpoint == authorization_endpoint,
            r.client_id == client_id,
    {
        let r = FlowRegistry { authorization_endpoint, client_id, flows: HashMap::new() };
        proof {
            assert(r@ =~= Map::<u64, SpecFlowState>::empty());
        }
        r
    }

    /// The phase the given session is in; a session never seen is
    /// unauthenticated.
    pub fn phase(&self, session: u64) -> (r: FlowPhase)
        ensures
            r == spec_phase(
                session_state(self@, self.authorization_endpoint@, self.client_id@, session),
            ),
    {
        match self.flows.get(&session) {
            Some(f) => f.phase(),
            None => FlowPhase::Unauthenticated,
        }
    }

    /// A callback handed a fresh code for the given session: that session's
    /// flow restarts with the code, discarding any prior token; no other
    /// session changes.
    pub fn submit_code(&mut self, session: u64, code: String)
        ensures
            final(self)@ == old(self)@.insert(
                session,
                apply_event(
                    session_state(
                        old(self)@,
                        old(self).authorization_endpoint@,
                        old(self).client_id@,
                        session,
                    ),
                    FlowEvent::SubmitCode(code@),
                ),
            ),
            final(self).authorization_endpoint == old(self).authorization_endpoint,
            final(self).client_id == old(self).client_id,
            registry_wf(old(self)@, old(self).authorization_endpoint@, old(self).client_id@)
                ==> registry_wf(
                final(self)@,
                old(self).authorization_endpoint@,
                old(self).client_id@,
            ),
    {
        let mut flow = match self.flows.remove(&session) {
            Some(f) => f,
            None => FlowState::new(self.authorization_endpoint.clone(), self.client_id.clone()),
        };
        flow.submit_code(code);
        self.flows.insert(session, flow);
        proof {
            let target = apply_event(
                session_state(
                    old(self)@,
                    old(self).authorization_endpoint@,
                    old(self).client_id@,
                    session,
                ),
                FlowEvent::SubmitCode(code@),
            );
            assert(self@ =~= old(self)@.insert(session, target));
        }
    }

    /// A successful exchange for the given session: its token is stored only
    /// when that session still holds the code that was exchanged; an exchange
    /// for an unknown session, or one overtaken by a fresh code, is
    /// discarded. Says whether the token was stored.
    pub fn store_exchanged_token(&mut self, session: u64, exchanged_code: &String, token: String)
        -> (stored: bool)
        ensures
            old(self)@.contains_key(session) ==> final(self)@ == old(self)@.insert(
                session,
                apply_event(
                    old(self)@[session],
                    FlowEvent::ExchangeOk(exchanged_code@, token@),
                ),
            ),
            !old(self)@.contains_key(session) ==> final(self)@ == old(self)@,
            stored == (old(self)@.contains_key(session) && old(self)@[session].code == Some(
                exchanged_code@,
            )),
            final(self).authorization_endpoint == old(self).authorization_endpoint,
            final(self).client_id == old(self).client_id,
            registry_wf(old(self)@, old(self).authorization_endpoint@, old(self).client_id@)
                ==> registry_wf(
                final(self)@,
                old(self).authorization_endpoint@,
                old(self).client_id@,
            ),
    {
        let mut flow = match self.flows.remove(&session) {
            Some(f) => f,
            None => {
                proof {
                    assert(self@ =~= old(self)@);
                }
                return false;
            },
        };
        let stored = flow.store_exchanged_token(exchanged_code, token);
        self.flows.insert(session, flow);
        proof {
            let target = apply_event(
                old(self)@[session],
                FlowEvent::ExchangeOk(exchanged_code@, token@),
            );
            assert(self@ =~= old(self)@.insert(session, target));
        }
        stored
    }

    /// The URL a browser is sent to so a user can authorize; the same for
    /// every session.
    pub fn current_authorization_url(&self) -> (r: String)
        ensures
            r@ == self.authorization_endpoint@ + "?response_type=code&client_id="@
                + self.client_id@ + "&scope=email+profile&redirect_uri="@ + callback_url(),
    {
        authorization_redirect_url(self.authorization_endpoint.as_str(), self.client_id.as_str())
    }
}

} // verus!
