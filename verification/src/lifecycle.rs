//! The extension lifecycle state machine.
//!
//! An extension registers itself once with the host's lifecycle API, stores
//! the identity the host assigns, and then polls for the next event forever;
//! the act of polling is what keeps the execution environment alive.
//!
//! This module holds every decision of that protocol: the write-once
//! identity store, the request plans for the two lifecycle calls, and the
//! phase transitions. The transport runs outside: it carries a plan out as
//! an HTTP request and hands the outcome back in as a plain value.

use vstd::prelude::*;
use vstd::string::StringExecFns;

use crate::env::opt_str_view;
use crate::errors::FatalError;

verus! {

/// Write-once holder of the identity assigned at registration.
pub struct IdentityCell {
    value: Option<String>,
}

impl View for IdentityCell {
    type V = Option<Seq<char>>;

    closed spec fn view(&self) -> Option<Seq<char>> {
        match self.value {
            Some(s) => Some(s@),
            None => None,
        }
    }
}

/// One assignment attempt on the identity store: what it holds afterwards
/// and what the caller gets back. A store that already holds an identity
/// refuses the assignment and keeps its value.
pub open spec fn assign_step(cell: Option<Seq<char>>, id: Seq<char>) -> (
    Option<Seq<char>>,
    Result<(), FatalError>,
) {
    match cell {
        Some(_) => (cell, Err(FatalError::IdentityAlreadySet)),
        None => (Some(id), Ok(())),
    }
}

impl IdentityCell {
    /// A fresh store with no identity assigned.
    pub fn new() -> (c: IdentityCell)
        ensures
            c@ is None,
    {
        IdentityCell { value: None }
    }

    /// Whether an identity has been assigned.
    pub fn is_set(&self) -> (b: bool)
        ensures
            b == (self@ is Some),
    {
        self.value.is_some()
    }

    /// Assigns the identity, exactly once; a second assignment fails loudly
    /// and never overwrites the first.
    pub fn set(&mut self, id: String) -> (r: Result<(), FatalError>)
        ensures
            ({
                let (c2, res) = assign_step(old(self)@, id@);
                final(self)@ == c2 && r == res
            }),
    {
        if self.value.is_some() {
            Err(FatalError::IdentityAlreadySet)
        } else {
            self.value = Some(id);
            Ok(())
        }
    }
}

/// The assigned identity; only legal once registration has stored one.
pub fn extension_id(cell: &IdentityCell) -> (id: &String)
    requires
        cell@ is Some,
    ensures
        cell@ == Some(id@),
{
    cell.value.as_ref().unwrap()
}

/// The name under which the extension registers itself.
pub fn find_extension_name() -> (name: String)
    ensures
        name@ == "rust-demo-lambda-extension"@,
{
    String::from_str("rust-demo-lambda-extension")
}

/// The lifecycle API endpoint for a path, under the API's dated version
/// prefix: `http://{origin}/2020-01-01/extension{path}`.
pub open spec fn uri_view(origin: Seq<char>, path: Seq<char>) -> Seq<char> {
    "http://"@ + origin + "/2020-01-01/extension"@ + path
}

/// Builds the lifecycle API endpoint for a path.
pub fn make_uri(origin: &str, path: &str) -> (uri: String)
    ensures
        uri@ == uri_view(origin@, path@),
{
    let mut uri = String::from_str("http://");
    uri.append(origin);
    uri.append("/2020-01-01/extension");
    uri.append(path);
    proof {
        assert(uri@ =~= uri_view(origin@, path@));
    }
    uri
}

/// Everything the transport needs to send one lifecycle call: plain values,
/// one header per call.
pub struct RequestPlan {
    pub method: String,
    pub uri: String,
    pub header_name: String,
    pub header_value: String,
    pub body: String,
}

/// The mathematical content of a request plan.
#[verifier::ext_equal]
pub struct RequestPlanView {
    pub method: Seq<char>,
    pub uri: Seq<char>,
    pub header_name: Seq<char>,
    pub header_value: Seq<char>,
    pub body: Seq<char>,
}

impl View for RequestPlan {
    type V = RequestPlanView;

    open spec fn view(&self) -> RequestPlanView {
        RequestPlanView {
            method: self.method@,
            uri: self.uri@,
            header_name: self.header_name@,
            header_value: self.header_value@,
            body: self.body@,
        }
    }
}

/// The registration call: a POST of the subscribed event set, named after
/// the extension.
pub open spec fn register_plan_view(origin: Seq<char>) -> RequestPlanView {
    RequestPlanView {
        method: "POST"@,
        uri: uri_view(origin, "/register"@),
        header_name: "Lambda-Extension-Name"@,
        header_value: "rust-demo-lambda-extension"@,
        body: "{\"events\":[\"INVOKE\"]}"@,
    }
}

/// The long-poll call: a GET carrying the assigned identity.
pub open spec fn poll_plan_view(origin: Seq<char>, identity: Seq<char>) -> RequestPlanView {
    RequestPlanView {
        method: "GET"@,
        uri: uri_view(origin, "/event/next"@),
        header_name: "Lambda-Extension-Identifier"@,
        header_value: identity,
        body: Seq::<char>::empty(),
    }
}

/// Builds the registration request for the lifecycle API.
pub fn register_request(origin: &str) -> (p: RequestPlan)
    ensures
        p@ == register_plan_view(origin@),
{
    let p = RequestPlan {
        method: String::from_str("POST"),
        uri: make_uri(origin, "/register"),
        header_name: String::from_str("Lambda-Extension-Name"),
        header_value: find_extension_name(),
        body: String::from_str("{\"events\":[\"INVOKE\"]}"),
    };
    proof {
        assert(p@ =~= register_plan_view(origin@));
    }
    p
}

/// What the transport reports back from the registration call.
pub enum RegisterOutcome {
    /// A response arrived; the identity header it carried, if any.
    Response(Option<String>),
    /// The request could not be sent or got no response.
    TransportFailed,
}

/// The mathematical content of a registration outcome.
pub enum RegisterOutcomeView {
    Response(Option<Seq<char>>),
    TransportFailed,
}

impl View for RegisterOutcome {
    type V = RegisterOutcomeView;

    open spec fn view(&self) -> RegisterOutcomeView {
        match self {
            RegisterOutcome::Response(h) => RegisterOutcomeView::Response(opt_str_view(*h)),
            RegisterOutcome::TransportFailed => RegisterOutcomeView::TransportFailed,
        }
    }
}

/// The phases of the lifecycle: registration happens exactly once, and
/// every later step is a poll.
#[derive(Clone, Copy, Debug, PartialEq, Eq, Structural)]
pub enum LifecyclePhase {
    Unregistered,
    Registered,
    Polling,
}

/// The mathematical content of a lifecycle client.
#[verifier::ext_equal]
pub struct LifecycleView {
    pub phase: LifecyclePhase,
    pub identity: Option<Seq<char>>,
}

/// A client is well-formed when it holds an identity exactly from the
/// moment it leaves the unregistered phase.
pub open spec fn wf(m: LifecycleView) -> bool {
    m.phase is Unregistered <==> m.identity is None
}

/// What one registration outcome does to a client. Outside the
/// unregistered phase any further registration is refused — the identity is
/// never silently overwritten. A missing identity header and a transport
/// failure are both fatal and change nothing; only a response that carries
/// the identity moves the client forward.
pub open spec fn registration_step(m: LifecycleView, outcome: RegisterOutcomeView) -> (
    LifecycleView,
    Result<(), FatalError>,
) {
    if !(m.phase is Unregistered) {
        (m, Err(FatalError::IdentityAlreadySet))
    } else {
        match outcome {
            RegisterOutcomeView::TransportFailed => (m, Err(FatalError::RegistrationFailed)),
            RegisterOutcomeView::Response(h) => match h {
                None => (m, Err(FatalError::MissingIdentityHeader)),
                Some(id) => (
                    LifecycleView { phase: LifecyclePhase::Registered, identity: Some(id) },
                    Ok(()),
                ),
            },
        }
    }
}

/// What one poll outcome does to a client: nothing. Success and failure
/// both leave it polling; a failed poll is ignored, never escalated.
pub open spec fn poll_outcome_step(m: LifecycleView, success: bool) -> LifecycleView {
    m
}

/// The lifecycle client: the current phase and the write-once identity.
pub struct LifecycleClient {
    phase: LifecyclePhase,
    identity: IdentityCell,
}

impl View for LifecycleClient {
    type V = LifecycleView;

    closed spec fn view(&self) -> LifecycleView {
        LifecycleView { phase: self.phase, identity: self.identity@ }
    }
}

impl LifecycleClient {
    /// A fresh, unregistered client.
    pub fn new() -> (c: LifecycleClient)
        ensures
            c@.phase is Unregistered,
            c@.identity is None,
            wf(c@),
    {
        LifecycleClient { phase: LifecyclePhase::Unregistered, identity: IdentityCell::new() }
    }

    /// The current phase.
    pub fn phase(&self) -> (p: LifecyclePhase)
        ensures
            p == self@.phase,
    {
        self.phase
    }

    /// Records the outcome of the registration call, exactly as
    /// `registration_step` says: the identity the response carried is
    /// stored once and for all, and every failure is returned as the fatal
    /// error it is — the caller terminates the process on it.
    pub fn complete_registration(&mut self, outcome: RegisterOutcome) -> (r: Result<
        (),
        FatalError,
    >)
        requires
            wf(old(self)@),
        ensures
            wf(final(self)@),
            ({
                let (m2, res) = registration_step(old(self)@, outcome@);
                final(self)@ == m2 && r == res
            }),
    {
        match self.phase {
            LifecyclePhase::Unregistered => {},
            _ => {
                return Err(FatalError::IdentityAlreadySet);
            },
        }
        match outcome {
            RegisterOutcome::TransportFailed => Err(FatalError::RegistrationFailed),
            RegisterOutcome::Response(h) => match h {
                None => Err(FatalError::MissingIdentityHeader),
                Some(id) => {
                    let set_result = self.identity.set(id);
                    match set_result {
                        Ok(_) => {
                            self.phase = LifecyclePhase::Registered;
                            Ok(())
                        },
                        Err(e) => {
                            proof {
                                assert(false);
                            }
                            Err(e)
                        },
                    }
                },
            },
        }
    }

    /// The next long-poll request. Only legal once registered; the plan
    /// carries the assigned identity, and the client is polling afterwards.
    pub fn poll_request(&mut self, origin: &str) -> (p: RequestPlan)
        requires
            wf(old(self)@),
            !(old(self)@.phase is Unregistered),
        ensures
            wf(final(self)@),
            final(self)@.phase is Polling,
            final(self)@.identity == old(self)@.identity,
            (old(self)@.identity matches Some(id) ==> p@ == poll_plan_view(origin@, id)),
    {
        self.phase = LifecyclePhase::Polling;
        let id = extension_id(&self.identity).clone();
        let p = RequestPlan {
            method: String::from_str("GET"),
            uri: make_uri(origin, "/event/next"),
            header_name: String::from_str("Lambda-Extension-Identifier"),
            header_value: id,
            body: String::new(),
        };
        proof {
            if old(self)@.identity is Some {
                assert(p@ =~= poll_plan_view(origin@, old(self)@.identity->Some_0));
            }
        }
        p
    }

    /// Records the outcome of one long-poll. Success and failure both
    /// leave the client polling, ready for the next poll.
    pub fn on_poll_complete(&mut self, success: bool)
        requires
            wf(old(self)@),
            old(self)@.phase is Polling,
        ensures
            final(self)@ == poll_outcome_step(old(self)@, success),
            wf(final(self)@),
            final(self)@.phase is Polling,
    {
    }
}

/// Write-once identity: when an assignment to the identity store has
/// succeeded, any further assignment is refused with an error and leaves
/// the stored identity exactly as the first assignment wrote it.
pub proof fn lemma_identity_write_once(
    cell: Option<Seq<char>>,
    first: Seq<char>,
    second: Seq<char>,
)
    requires
        assign_step(cell, first).1 is Ok,
    ensures
        ({
            let (c1, r1) = assign_step(cell, first);
            let (c2, r2) = assign_step(c1, second);
            c1 == Some(first) && c2 == c1 && r2 == Err::<(), FatalError>(
                FatalError::IdentityAlreadySet,
            )
        }),
{
}

/// Identity-before-poll: a registration response that carries an identity
/// succeeds, stores exactly that identity, and every poll plan built from
/// the registered client carries it in the identity header. A client that
/// never registered holds no identity, and no poll plan can be built from
/// it at all: the poll request demands a registered phase.
pub proof fn lemma_identity_before_poll(m: LifecycleView, id: Seq<char>, origin: Seq<char>)
    requires
        wf(m),
        m.phase is Unregistered,
    ensures
        ({
            let (m1, r) = registration_step(m, RegisterOutcomeView::Response(Some(id)));
            r is Ok && m1.identity == Some(id) && wf(m1) && !(m1.phase is Unregistered)
                && poll_plan_view(origin, m1.identity->Some_0).header_value == id
        }),
{
}

/// A poll without an identity is impossible by construction: a well-formed
/// client that holds no identity is still in the unregistered phase, and
/// the poll request demands a phase past registration, so no poll plan
/// lacking the assigned identity can ever be produced.
pub proof fn lemma_no_poll_without_identity(m: LifecycleView)
    requires
        wf(m),
        m.identity is None,
    ensures
        m.phase is Unregistered,
{
}

/// Poll-loop resilience: whatever the outcome of a poll — failure included —
/// the client is unchanged, well-formed and still polling, so the driver
/// loop may immediately issue the next poll with the same identity. A
/// failed poll never terminates the loop and never escalates.
pub proof fn lemma_poll_resilience(m: LifecycleView, success: bool)
    requires
        wf(m),
        m.phase is Polling,
    ensures
        ({
            let m1 = poll_outcome_step(m, success);
            m1 == m && wf(m1) && m1.phase is Polling && m1.identity == m.identity
        }),
{
}

} // verus!
