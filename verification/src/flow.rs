use vstd::prelude::*;
use vstd::string::StringExecFns;

use crate::discovery::authorization_redirect_url;
use crate::discovery::callback_url;

verus! {

/// How far a flow has come: no code and no token, a code awaiting exchange,
/// or an obtained token.
#[derive(Clone, Copy, Debug, PartialEq, Eq, Structural)]
pub enum FlowPhase {
    Unauthenticated,
    CodeReceived,
    Authenticated,
}

/// The shared per-deployment record tracking authorization progress: the
/// discovered endpoint and the client identifier are fixed at construction,
/// the latest code and the latest token are the mutable slots.
pub struct FlowState {
    pub authorization_endpoint: String,
    pub client_id: String,
    pub authorization_code: Option<String>,
    pub identity_token: Option<String>,
}

/// Mathematical counterpart of `FlowState`.
pub struct SpecFlowState {
    pub endpoint: Seq<char>,
    pub client_id: Seq<char>,
    pub code: Option<Seq<char>>,
    pub token: Option<Seq<char>>,
}

impl View for FlowState {
    type V = SpecFlowState;

    open spec fn view(&self) -> SpecFlowState {
        SpecFlowState {
            endpoint: self.authorization_endpoint@,
            client_id: self.client_id@,
            code: match self.authorization_code {
                Some(ref c) => Some(c@),
                None => None,
            },
            token: match self.identity_token {
                Some(ref t) => Some(t@),
                None => None,
            },
        }
    }
}

/// The record's invariant: a token is only ever held together with the code
/// it was obtained for, never without a code.
pub open spec fn flow_wf(s: SpecFlowState) -> bool {
    s.token is Some ==> s.code is Some
}

/// The phase a record is in.
pub open spec fn spec_phase(s: SpecFlowState) -> FlowPhase {
    if s.token is Some {
        FlowPhase::Authenticated
    } else if s.code is Some {
        FlowPhase::CodeReceived
    } else {
        FlowPhase::Unauthenticated
    }
}

/// One step of the authorization flow: a fresh code arriving, an exchange
/// succeeding with the code it exchanged and the token it obtained, or an
/// exchange failing.
pub enum FlowEvent {
    SubmitCode(Seq<char>),
    ExchangeOk(Seq<char>, Seq<char>),
    ExchangeFailed,
}

/// What one step does to the record: a fresh code always restarts the flow
/// and discards any prior token; a successful exchange stores its token only
/// when the code it exchanged is still the stored one, and is discarded
/// otherwise; a failed exchange retains the code so a caller can retry.
pub open spec fn apply_event(s: SpecFlowState, e: FlowEvent) -> SpecFlowState {
    match e {
        FlowEvent::SubmitCode(code) => SpecFlowState { code: Some(code), token: None, ..s },
        FlowEvent::ExchangeOk(code, token) => {
            if s.code == Some(code) {
                SpecFlowState { token: Some(token), ..s }
            } else {
                s
            }
        },
        FlowEvent::ExchangeFailed => s,
    }
}

/// A whole run of the flow, step by step from the left.
pub open spec fn apply_events(s: SpecFlowState, es: Seq<FlowEvent>) -> SpecFlowState
    decreases es.len(),
{
    if es.len() == 0 {
        s
    } else {
        apply_events(apply_event(s, es[0]), es.drop_first())
    }
}

/// For any sequence of submitted codes interleaved with exchange successes
/// and failures, a record that starts well-formed is never observed holding
/// a token while no code is stored.
pub proof fn lemma_no_token_without_code(s: SpecFlowState, es: Seq<FlowEvent>)
    requires
        flow_wf(s),
    ensures
        flow_wf(apply_events(s, es)),
    decreases es.len(),
{
    if es.len() > 0 {
        lemma_no_token_without_code(apply_event(s, es[0]), es.drop_first());
    }
}

impl FlowState {
    /// A fresh record around the discovered endpoint: no code, no token.
    pub fn new(authorization_endpoint: String, client_id: String) -> (r: FlowState)
        ensures
            r@ == (SpecFlowState {
                endpoint: authorization_endpoint@,
                client_id: client_id@,
                code: None,
                token: None,
            }),
            flow_wf(r@),
            spec_phase(r@) == FlowPhase::Unauthenticated,
    {
        FlowState {
            authorization_endpoint,
            client_id,
            authorization_code: None,
            identity_token: None,
        }
    }

    /// The phase the record is in now.
    pub fn phase(&self) -> (r: FlowPhase)
        ensures
            r == spec_phase(self@),
    {
        if self.identity_token.is_some() {
            FlowPhase::Authenticated
        } else if self.authorization_code.is_some() {
            FlowPhase::CodeReceived
        } else {
            FlowPhase::Unauthenticated
        }
    }

    /// A callback handed a fresh code: the flow restarts with that code, and
    /// any prior token is discarded.
    pub fn submit_code(&mut self, code: String)
        ensures
            final(self)@ == apply_event(old(self)@, FlowEvent::SubmitCode(code@)),
            flow_wf(old(self)@) ==> flow_wf(final(self)@),
            spec_phase(final(self)@) == FlowPhase::CodeReceived,
    {
        self.authorization_code = Some(code);
        self.identity_token = None;
    }

    /// A successful exchange hands back the code it exchanged and the token
    /// it obtained. The token is stored only when that code is still the
    /// stored one; an exchange overtaken by a fresh code is discarded. Says
    /// whether the token was stored.
    pub fn store_exchanged_token(&mut self, exchanged_code: &String, token: String) -> (stored:
        bool)
        ensures
            final(self)@ == apply_event(
                old(self)@,
                FlowEvent::ExchangeOk(exchanged_code@, token@),
            ),
            stored == (old(self)@.code == Some(exchanged_code@)),
            flow_wf(old(self)@) ==> flow_wf(final(self)@),
            stored ==> spec_phase(final(self)@) == FlowPhase::Authenticated,
    {
        match &self.authorization_code {
            Some(current) => {
                if *current == *exchanged_code {
                    self.identity_token = Some(token);
                    true
                } else {
                    false
                }
            },
            None => false,
        }
    }

    /// A failed exchange: the code is retained so the caller can retry; the
    /// record does not change.
    pub fn exchange_failed(&mut self)
        ensures
            final(self)@ == apply_event(old(self)@, FlowEvent::ExchangeFailed),
            final(self)@ == old(self)@,
    {
    }

    /// The URL a browser is sent to so the user can authorize against this
    /// record's endpoint and client identifier; available in every phase.
    pub fn current_authorization_url(&self) -> (r: String)
        ensures
            r@ == self@.endpoint + "?response_type=code&client_id="@ + self@.client_id
                + "&scope=email+profile&redirect_uri="@ + callback_url(),
    {
        authorization_redirect_url(
            self.authorization_endpoint.as_str(),
            self.client_id.as_str(),
        )
    }

    /// Where the protected resource for the established code is fetched from.
    /// Must only be called once a code exists: calling it without one is a
    /// caller bug, not a recoverable condition.
    pub fn content_query_url(&self, root_url: &str) -> (r: String)
        requires
            self@.code is Some,
        ensures
            r@ == root_url@ + "/resource/pk_{4B9CF56D-77D3-462f-9179-D13876E5AC63}?useridentifier="@
                + self@.code->Some_0,
    {
        let mut u = root_url.to_owned();
        u.append("/resource/pk_{4B9CF56D-77D3-462f-9179-D13876E5AC63}?useridentifier=");
        match &self.authorization_code {
            Some(code) => u.append(code.as_str()),
            None => unreached(),
        }
        u
    }
}

} // verus!
