//! The two-phase initialize handshake, as an explicit three-state machine.
//!
//! The transport is abstracted away: the caller receives the initialize
//! request, hands its identifier and parsed parameters in, sends the
//! payload produced here, and reports back that the send went out.  The
//! machine guarantees that a connection is initialized at most once and
//! that the payload carries the negotiated capabilities and the static
//! server metadata.

use vstd::prelude::*;

use crate::capabilities::ClientInitParams;
use crate::capabilities::ServerCapabilities;
use crate::capabilities::build_capabilities;
use crate::capabilities::negotiated;
use crate::config::DisabledLanguageServices;
use crate::config::IndexingMode;

verus! {

/// The identifier of a protocol request: the wire format allows a number
/// or a string.
#[derive(Clone, Debug, PartialEq, Eq)]
pub enum RequestId {
    /// A numeric identifier.
    Number(i64),
    /// A string identifier.
    Text(String),
}

/// Where the handshake stands on one connection.
#[derive(Clone, Copy, Debug, PartialEq, Eq, Structural)]
pub enum HandshakeState {
    /// No initialize request has been taken yet.
    AwaitingInitializeRequest,
    /// The initialize-result payload has been built and handed out, but its
    /// send has not been confirmed.
    AwaitingInitializeResult,
    /// The handshake is complete; the session is established.
    Ready,
}

/// Why a handshake step was refused.  Every refusal is fatal to startup:
/// none is retried, since a retry could deliver two responses to one
/// request.
#[derive(Clone, Copy, Debug, PartialEq, Eq, Structural)]
pub enum HandshakeError {
    /// An initialize request arrived on a connection whose handshake had
    /// already consumed one: a protocol violation.
    AlreadyInitialized,
    /// The client's initialize parameters did not parse.
    InvalidParams,
    /// A send was confirmed with no payload outstanding.
    OutOfOrder,
}

/// The initialize-result payload: the negotiated capability document
/// wrapped with the static server metadata, tagged with the identifier of
/// the request it answers.
#[derive(Clone, Debug)]
pub struct InitializeResponse {
    /// The identifier of the initialize request being answered.
    pub request_id: RequestId,
    /// The negotiated capability document.
    pub capabilities: ServerCapabilities,
    /// The server's name, a fixed literal.
    pub server_name: String,
    /// The server's version, as supplied by the caller at startup.
    pub server_version: String,
}

/// The name literal the server reports in its initialize result.
pub open spec fn spec_server_name() -> Seq<char> {
    "pyrefly-lsp"@
}

/// Drives the handshake on one connection.
pub struct HandshakeCoordinator {
    /// Where the handshake stands.
    state: HandshakeState,
    /// The indexing mode negotiation is performed under.
    indexing_mode: IndexingMode,
    /// The feature toggles negotiation is performed under.
    toggles: DisabledLanguageServices,
    /// The version string to report in the initialize result.
    server_version: String,
}

impl HandshakeCoordinator {
    /// Where the handshake stands.
    pub closed spec fn phase(self) -> HandshakeState {
        self.state
    }

    /// The indexing mode the coordinator was configured with.
    pub closed spec fn mode(self) -> IndexingMode {
        self.indexing_mode
    }

    /// The feature toggles the coordinator was configured with.
    pub closed spec fn spec_toggles(self) -> DisabledLanguageServices {
        self.toggles
    }

    /// The version string the coordinator was configured with.
    pub closed spec fn version(self) -> Seq<char> {
        self.server_version@
    }

    /// The configuration read back unchanged by a step.
    pub open spec fn same_config_as(self, other: Self) -> bool {
        &&& self.mode() == other.mode()
        &&& self.spec_toggles() == other.spec_toggles()
        &&& self.version() == other.version()
    }

    /// A fresh coordinator for one connection, awaiting its initialize
    /// request.
    pub fn new(
        indexing_mode: IndexingMode,
        toggles: DisabledLanguageServices,
        server_version: String,
    ) -> (c: Self)
        ensures
            c.phase() is AwaitingInitializeRequest,
            c.mode() == indexing_mode,
            c.spec_toggles() == toggles,
            c.version() == server_version@,
    {
        HandshakeCoordinator {
            state: HandshakeState::AwaitingInitializeRequest,
            indexing_mode,
            toggles,
            server_version,
        }
    }

    /// Where the handshake stands, for callers outside ghost code.
    pub fn current_phase(&self) -> (s: HandshakeState)
        ensures
            s == self.phase(),
    {
        self.state
    }

    /// Take the initialize request and build the initialize-result payload.
    ///
    /// `params` is the client's parameter payload after parsing: `None`
    /// means it did not parse, which is fatal — the handshake refuses it
    /// and startup aborts, with no default substituted at this layer.  On
    /// a connection that already consumed its initialize request the
    /// attempt is rejected outright, never re-answered.  On success the
    /// payload carries the request's own identifier, the negotiated
    /// capability document, the server-name literal and the configured
    /// version string.
    pub fn begin_initialize(
        &mut self,
        request_id: RequestId,
        params: Option<ClientInitParams>,
    ) -> (r: Result<InitializeResponse, HandshakeError>)
        ensures
            final(self).same_config_as(*old(self)),
            handshake_step(*old(self), *final(self)),
            old(self).phase() !is AwaitingInitializeRequest ==> {
                &&& r == Err::<InitializeResponse, HandshakeError>(
                    HandshakeError::AlreadyInitialized,
                )
                &&& final(self).phase() == old(self).phase()
            },
            old(self).phase() is AwaitingInitializeRequest && params is None ==> {
                &&& r == Err::<InitializeResponse, HandshakeError>(HandshakeError::InvalidParams)
                &&& final(self).phase() is AwaitingInitializeRequest
            },
            old(self).phase() is AwaitingInitializeRequest && params is Some ==> {
                &&& final(self).phase() is AwaitingInitializeResult
                &&& r matches Ok(resp)
                &&& resp.request_id == request_id
                &&& resp.capabilities == negotiated(old(self).mode(), old(self).spec_toggles())
                &&& resp.server_name@ == spec_server_name()
                &&& resp.server_version@ == old(self).version()
            },
    {
        match self.state {
            HandshakeState::AwaitingInitializeRequest => {},
            _ => {
                return Err(HandshakeError::AlreadyInitialized);
            },
        }
        let client_params = match params {
            Some(p) => p,
            None => {
                return Err(HandshakeError::InvalidParams);
            },
        };
        let capabilities = build_capabilities(self.indexing_mode, &self.toggles, &client_params);
        self.state = HandshakeState::AwaitingInitializeResult;
        Ok(InitializeResponse {
            request_id,
            capabilities,
            server_name: "pyrefly-lsp".to_owned(),
            server_version: self.server_version.clone(),
        })
    }

    /// Record that the initialize-result payload went out, completing the
    /// handshake.  With no payload outstanding the confirmation is refused;
    /// if the send itself failed the caller aborts instead of confirming,
    /// and the handshake is never retried.
    pub fn confirm_result_sent(&mut self) -> (r: Result<(), HandshakeError>)
        ensures
            final(self).same_config_as(*old(self)),
            handshake_step(*old(self), *final(self)),
            old(self).phase() is AwaitingInitializeResult ==> {
                &&& r is Ok
                &&& final(self).phase() is Ready
            },
            old(self).phase() !is AwaitingInitializeResult ==> {
                &&& r == Err::<(), HandshakeError>(HandshakeError::OutOfOrder)
                &&& final(self).phase() == old(self).phase()
            },
    {
        match self.state {
            HandshakeState::AwaitingInitializeResult => {
                self.state = HandshakeState::Ready;
                Ok(())
            },
            _ => Err(HandshakeError::OutOfOrder),
        }
    }
}

/// Law: a handshake completes at most once per connection.  Once the
/// machine has left its initial state — whether a payload is outstanding or
/// the session is ready — its phase can never return to awaiting an
/// initialize request, so every later initialize attempt is rejected.
pub proof fn lemma_handshake_at_most_once(before: HandshakeCoordinator, after: HandshakeCoordinator)
    requires
        before.phase() !is AwaitingInitializeRequest,
        handshake_step(before, after),
    ensures
        after.phase() !is AwaitingInitializeRequest,
{
}

/// One step of the machine: the phase relation that `begin_initialize` and
/// `confirm_result_sent` allow between the state before and after a call,
/// whatever their inputs and results.
pub open spec fn handshake_step(before: HandshakeCoordinator, after: HandshakeCoordinator) -> bool {
    ||| after.phase() == before.phase()
    ||| (before.phase() is AwaitingInitializeRequest && after.phase() is AwaitingInitializeResult)
    ||| (before.phase() is AwaitingInitializeResult && after.phase() is Ready)
}

} // verus!
