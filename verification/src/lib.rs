//! A discovery-and-exchange engine for a browser-driven authorization-code
//! flow: a service's endpoints are found by scanning a remote metadata
//! document of subject-predicate-object statements for a well-known
//! predicate, and a one-time authorization code is later exchanged for a
//! user-identity token by scanning the exchange response the same way. The
//! scan, the lookup, the endpoint resolution, the exchange outcome and the
//! authorization state machine are verified; fetching and sending stay with
//! the caller.

mod discovery;
mod errors;
mod exchange;
mod flow;
mod lookup;
mod model;
mod registry;
mod scan;

pub use discovery::authorization_predicate;
pub use discovery::authorization_predicate_str;
pub use discovery::authorization_redirect_url;
pub use discovery::callback_url;
pub use discovery::callback_url_str;
pub use discovery::metadata_url;
pub use discovery::resolve_authorization_endpoint;
pub use discovery::url_normalized;
pub use errors::DiscoveryError;
pub use errors::ExchangeError;
pub use errors::ParseError;
pub use exchange::exchange_request_body;
pub use exchange::login_url;
pub use exchange::token_from_response;
pub use exchange::user_identifier_predicate;
pub use exchange::user_identifier_predicate_str;
pub use flow::apply_event;
pub use flow::apply_events;
pub use flow::flow_wf;
pub use flow::lemma_no_token_without_code;
pub use flow::spec_phase;
pub use flow::FlowEvent;
pub use flow::FlowPhase;
pub use flow::FlowState;
pub use flow::SpecFlowState;
pub use lookup::find_first;
pub use lookup::find_first_in_document;
pub use lookup::lemma_find_first_at;
pub use lookup::lemma_find_none;
pub use lookup::lemma_find_unique_match;
pub use lookup::lemma_lookup_idempotent;
pub use lookup::lemma_wrong_shape_skipped;
pub use lookup::lookup_outcome;
pub use lookup::option_view;
pub use lookup::spec_find_first;
pub use lookup::triple_matches;
pub use model::object_text;
pub use model::shape_of;
pub use model::Object;
pub use model::ObjectShape;
pub use model::SpecObject;
pub use model::SpecTriple;
pub use model::Triple;
pub use registry::fresh_session;
pub use registry::registry_wf;
pub use registry::session_state;
pub use registry::FlowRegistry;
pub use scan::rdf_parse;
pub use scan::triples_view;
