//! SASL authentication subphase of the display protocol.
//!
//! The handshake is a state machine driven by the connection's I/O loop: the
//! loop buffers the number of bytes that the registered handler expects, hands
//! them over, performs whatever provider work the handler asked for, and
//! flushes the bytes that the handler queued for the client.

use vstd::prelude::*;
use vstd::utf8::encode_utf8;

use crate::frames::{
    accept_frame, auth_reject, challenge_frame, lemma_reject_reason_not_empty,
    mech_list_frame, reject_frame, reject_reason, server_challenge_message,
};
use crate::mechlist::{
    find_mech, has_comma, lemma_boundary_after_comma, lemma_boundary_at_comma, mech_offered, COMMA,
};
use crate::wire::{be_u32_bytes, be_u32_value, lemma_be_u32_round_trip, push_be_u32, push_bytes, read_be_u32};

verus! {

/// Service name under which the provider session is created.
pub const SERVICE: &'static str = "vnc";

/// Application name; the provider reads its configuration under this name.
pub const APP_NAME: &'static str = "stratovirt";

/// Longest mechanism name a client may offer.
pub const MECHNAME_MAX_LEN: u32 = 100;

/// Shortest mechanism name a client may offer.
pub const MECHNAME_MIN_LEN: u32 = 1;

/// Largest client response or server challenge, in bytes.
pub const SASL_DATA_MAX_LEN: u32 = 1024 * 1024;

/// Minimum strength of a provider-negotiated security layer.
pub const MIN_SSF_LENGTH: u32 = 56;

/// Strength announced to the provider for an already encrypted transport.
pub const EXTERNAL_SSF: u32 = 256;

/// Reason sent to the client when authentication is rejected.
pub const REJECT_REASON: &'static str = "Authentication failed";

/// Security type negotiated for a connection.
#[derive(Clone, Copy, PartialEq, Eq, Structural, Debug)]
pub enum AuthState {
    Invalid,
    No,
    Vnc,
    Vencrypt,
    Sasl,
}

impl AuthState {
    /// Number of the security type on the wire.
    pub open spec fn spec_code(self) -> u32 {
        match self {
            AuthState::Invalid => 0,
            AuthState::No => 1,
            AuthState::Vnc => 2,
            AuthState::Vencrypt => 19,
            AuthState::Sasl => 20,
        }
    }

    /// Number of the security type on the wire.
    pub fn code(&self) -> (r: u32)
        ensures
            r == self.spec_code(),
    {
        match self {
            AuthState::Invalid => 0,
            AuthState::No => 1,
            AuthState::Vnc => 2,
            AuthState::Vencrypt => 19,
            AuthState::Sasl => 20,
        }
    }
}

/// Sub-type of the VeNCrypt security type: transport protection and
/// authentication combined.
#[derive(Clone, Copy, PartialEq, Eq, Structural, Debug)]
pub enum SubAuthState {
    /// Plain transport, no authentication.
    VncAuthVencryptPlain,
    /// TLS with x509 certificates, no authentication.
    VncAuthVencryptX509None,
    /// TLS with x509 certificates, then SASL.
    VncAuthVencryptX509Sasl,
    /// Anonymous TLS, then SASL.
    VncAuthVencryptTlssasl,
}

impl SubAuthState {
    /// Number of the sub-type on the wire.
    pub open spec fn spec_code(self) -> u32 {
        match self {
            SubAuthState::VncAuthVencryptPlain => 256,
            SubAuthState::VncAuthVencryptX509None => 260,
            SubAuthState::VncAuthVencryptX509Sasl => 263,
            SubAuthState::VncAuthVencryptTlssasl => 264,
        }
    }

    /// Number of the sub-type on the wire.
    pub fn code(&self) -> (r: u32)
        ensures
            r == self.spec_code(),
    {
        match self {
            SubAuthState::VncAuthVencryptPlain => 256,
            SubAuthState::VncAuthVencryptX509None => 260,
            SubAuthState::VncAuthVencryptX509Sasl => 263,
            SubAuthState::VncAuthVencryptTlssasl => 264,
        }
    }
}

/// Why a handshake ended without admitting the client.
#[derive(Clone, Copy, PartialEq, Eq, Structural, Debug)]
pub enum VncError {
    /// The provider library or session could not be set up.
    ProviderInitFailed,
    /// The announced mechanism name length is 0 or above the maximum.
    MechanismNameInvalid,
    /// The client chose a mechanism that was not advertised.
    UnsupportedMechanism,
    /// A client response or a provider challenge is above the size limit.
    ResponseTooLarge,
    /// The provider rejected the exchange.
    ExchangeFailed,
    /// The negotiated security layer is weaker than required.
    SecurityLayerTooWeak,
    /// The authenticated principal is not the configured one.
    UnauthorizedIdentity,
}

/// Round of the challenge-response exchange.
#[derive(Clone, Copy, PartialEq, Eq, Structural, Debug)]
pub enum SaslStage {
    /// No provider call has been made yet.
    SaslServerStart,
    /// The exchange has been started; further rounds are steps.
    SaslServerStep,
}

/// Server configuration of SASL authentication.
#[derive(Debug, Clone, Default)]
pub struct SaslAuth {
    /// The principal allowed to connect.
    pub identity: String,
}

/// Per-connection SASL state.
#[derive(Debug, Clone)]
pub struct Sasl {
    /// The principal allowed to connect.
    pub identity: String,
    /// Comma-separated mechanisms advertised to the client.
    pub mech_list: String,
    /// Mechanism chosen by the client; empty until one is chosen.
    pub mech_name: String,
    /// Round of the exchange.
    pub sasl_stage: SaslStage,
    /// Whether the provider's own security layer is in use (the transport
    /// is not encrypted).
    pub want_ssf: bool,
    /// Strength of the negotiated security layer; 0 until accepted.
    pub run_ssf: u32,
}

impl Default for Sasl {
    fn default() -> (r: Sasl)
        ensures
            r.identity@ == Seq::<char>::empty(),
            r.mech_list@ == Seq::<char>::empty(),
            r.mech_name@ == Seq::<char>::empty(),
            r.sasl_stage == SaslStage::SaslServerStart,
            !r.want_ssf,
            r.run_ssf == 0,
    {
        Sasl {
            identity: String::new(),
            mech_list: String::new(),
            mech_name: String::new(),
            sasl_stage: SaslStage::SaslServerStart,
            want_ssf: false,
            run_ssf: 0,
        }
    }
}

/// Handler registered to consume the next bytes of the connection.
#[derive(Clone, Copy, PartialEq, Eq, Structural, Debug)]
pub enum Handler {
    /// No handshake handler is registered yet.
    Idle,
    /// Length of the mechanism name chosen by the client.
    GetMechnameLength,
    /// The mechanism name chosen by the client.
    GetSaslMechname,
    /// Length of the client's next response.
    GetAuthmessageLength,
    /// The client's response, to be handed to the provider.
    ClientSaslAuth,
    /// First message of the protocol phase after authentication.
    HandleClientInit,
}

/// What the provider session must be created with.
pub struct SaslServerParams {
    /// Local endpoint identifier.
    pub local_addr: Vec<u8>,
    /// Remote endpoint identifier.
    pub remote_addr: Vec<u8>,
    /// Whether to announce the transport's external strength and turn the
    /// provider's own security layer off.
    pub disable_security_layer: bool,
}

/// Provider call to make with the client's response.
pub enum ProviderCall {
    /// Start the exchange with the chosen mechanism.
    Start { mech: String, data: Vec<u8> },
    /// Continue the exchange.
    Step { data: Vec<u8> },
}

/// What the provider answered to a start or step call, with the session
/// properties read once the exchange is complete.
pub enum ExchangeOutcome {
    /// More rounds are needed; the challenge goes to the client.
    Continue { challenge: Vec<u8> },
    /// The exchange succeeded. `ssf` is the negotiated strength, if it could
    /// be read; `username` the authenticated principal, if one is set.
    Complete { challenge: Vec<u8>, ssf: Option<u32>, username: Option<String> },
    /// The provider rejected the exchange.
    Failed,
}

/// State of one connection during the authentication subphase.
pub struct VncClient {
    /// SASL state of the connection.
    pub sasl: Sasl,
    /// Number of bytes the registered handler consumes.
    pub expect: usize,
    /// The registered handler.
    pub handler: Handler,
    /// Bytes queued for the client, oldest first.
    pub outbuf: Vec<u8>,
}

/// Abstract state of a connection.
pub struct VncClientView {
    /// The principal allowed to connect.
    pub identity: Seq<char>,
    /// The advertised mechanism list.
    pub mech_list: Seq<char>,
    /// The chosen mechanism.
    pub mech_name: Seq<char>,
    /// Round of the exchange.
    pub stage: SaslStage,
    /// Whether the provider's own security layer is in use.
    pub want_ssf: bool,
    /// Recorded strength of the security layer.
    pub run_ssf: u32,
    /// Bytes the registered handler consumes.
    pub expect: nat,
    /// The registered handler.
    pub handler: Handler,
    /// Everything queued for the client so far.
    pub out: Seq<u8>,
}

impl View for VncClient {
    type V = VncClientView;

    open spec fn view(&self) -> VncClientView {
        VncClientView {
            identity: self.sasl.identity@,
            mech_list: self.sasl.mech_list@,
            mech_name: self.sasl.mech_name@,
            stage: self.sasl.sasl_stage,
            want_ssf: self.sasl.want_ssf,
            run_ssf: self.sasl.run_ssf,
            expect: self.expect as nat,
            handler: self.handler,
            out: self.outbuf@,
        }
    }
}

impl VncClientView {
    /// The state with `handler` registered to consume `expect` bytes.
    pub open spec fn registered(self, expect: nat, handler: Handler) -> VncClientView {
        VncClientView { expect, handler, ..self }
    }

    /// The state with `bytes` queued for the client.
    pub open spec fn written(self, bytes: Seq<u8>) -> VncClientView {
        VncClientView { out: self.out + bytes, ..self }
    }

    /// The registered handler and its byte count agree, and a mechanism has
    /// been chosen before any response length is read.
    pub open spec fn wf(self) -> bool {
        match self.handler {
            Handler::Idle => self.expect == 0,
            Handler::GetMechnameLength => self.expect == 4,
            Handler::GetSaslMechname => MECHNAME_MIN_LEN <= self.expect <= MECHNAME_MAX_LEN,
            Handler::GetAuthmessageLength => self.expect == 4 && self.mech_name.len() > 0,
            Handler::ClientSaslAuth => self.expect <= SASL_DATA_MAX_LEN && self.mech_name.len() > 0,
            Handler::HandleClientInit => self.expect == 1 && self.mech_name.len() > 0,
        }
    }

    /// The state in the given round of the exchange.
    pub open spec fn staged(self, stage: SaslStage) -> VncClientView {
        VncClientView { stage, ..self }
    }
}

/// Outcome of reading a mechanism name length.
pub open spec fn mechname_length_result(len: int) -> Result<(), VncError> {
    if MECHNAME_MIN_LEN <= len <= MECHNAME_MAX_LEN {
        Ok(())
    } else {
        Err(VncError::MechanismNameInvalid)
    }
}

/// Outcome of reading a client response length.
pub open spec fn response_length_result(len: int) -> Result<(), VncError> {
    if len <= SASL_DATA_MAX_LEN {
        Ok(())
    } else {
        Err(VncError::ResponseTooLarge)
    }
}

/// State after reading a client response length `len`.
pub open spec fn after_response_length(v: VncClientView, len: int) -> VncClientView {
    if len <= SASL_DATA_MAX_LEN {
        v.registered(len as nat, Handler::ClientSaslAuth)
    } else {
        v
    }
}

/// `s` with `:` replaced by `;`: an endpoint identifier for the provider,
/// which reserves `:`.
pub open spec fn endpoint_id(s: Seq<u8>) -> Seq<u8> {
    Seq::new(s.len(), |i: int| if s[i] == 0x3a { 0x3b } else { s[i] })
}

/// The bytes handed to the provider for a client response: the trailing
/// terminator byte, if any, is not part of the data.
pub open spec fn client_data(payload: Seq<u8>) -> Seq<u8> {
    if payload.len() == 0 {
        payload
    } else {
        payload.subrange(0, payload.len() - 1)
    }
}

/// Whether the next provider call starts the exchange.
pub open spec fn starts_exchange(v: VncClientView) -> bool {
    v.stage == SaslStage::SaslServerStart
}

/// State after the provider call for a client response.
pub open spec fn after_exchange_call(v: VncClientView) -> VncClientView {
    v.staged(SaslStage::SaslServerStep)
}

/// State after the provider asked for another round with `challenge`.
pub open spec fn after_continue(v: VncClientView, challenge: Seq<u8>) -> VncClientView {
    if challenge.len() > SASL_DATA_MAX_LEN {
        v
    } else {
        v.staged(SaslStage::SaslServerStep).written(challenge_frame(challenge, false)).registered(
            4,
            Handler::GetAuthmessageLength,
        )
    }
}

/// The strength check passes: it is skipped when the transport is already
/// encrypted, else the strength must be known and at least the minimum.
pub open spec fn ssf_check_passes(want_ssf: bool, ssf: Option<u32>) -> bool {
    !want_ssf || (ssf matches Some(v) && v >= MIN_SSF_LENGTH)
}

/// The authorization check passes: a principal is set and it is the
/// configured one.
pub open spec fn authz_check_passes(identity: Seq<char>, username: Option<Seq<char>>) -> bool {
    username matches Some(u) && u == identity
}

/// Outcome of the admission checks.
pub open spec fn finalize_result(
    want_ssf: bool,
    ssf: Option<u32>,
    identity: Seq<char>,
    username: Option<Seq<char>>,
) -> Result<(), VncError> {
    if !ssf_check_passes(want_ssf, ssf) {
        Err(VncError::SecurityLayerTooWeak)
    } else if !authz_check_passes(identity, username) {
        Err(VncError::UnauthorizedIdentity)
    } else {
        Ok(())
    }
}

/// The final result frame sent for an admission outcome.
pub open spec fn result_frame(r: Result<(), VncError>) -> Seq<u8> {
    if r is Ok {
        accept_frame()
    } else {
        reject_frame()
    }
}

/// The principal's characters, if one is set.
pub open spec fn username_view(username: Option<String>) -> Option<Seq<char>> {
    match username {
        Some(u) => Some(u@),
        None => None,
    }
}

/// Strength recorded after the strength check.
pub open spec fn recorded_ssf(v: VncClientView, ssf: Option<u32>) -> u32 {
    if v.want_ssf && ssf_check_passes(v.want_ssf, ssf) {
        ssf->0
    } else {
        v.run_ssf
    }
}

/// State after the provider completed the exchange with `challenge`.
pub open spec fn after_complete(
    v: VncClientView,
    challenge: Seq<u8>,
    ssf: Option<u32>,
    username: Option<Seq<char>>,
) -> VncClientView {
    if challenge.len() > SASL_DATA_MAX_LEN {
        v
    } else {
        let r = finalize_result(v.want_ssf, ssf, v.identity, username);
        let done = VncClientView { run_ssf: recorded_ssf(v, ssf), ..v }.written(
            challenge_frame(challenge, true) + result_frame(r),
        );
        if r is Ok {
            done.registered(1, Handler::HandleClientInit)
        } else {
            done
        }
    }
}

/// Outcome of handling the provider's answer.
pub open spec fn exchange_result(v: VncClientView, outcome: ExchangeOutcome) -> Result<
    (),
    VncError,
> {
    match outcome {
        ExchangeOutcome::Failed => Err(VncError::ExchangeFailed),
        ExchangeOutcome::Continue { challenge } => if challenge@.len() > SASL_DATA_MAX_LEN {
            Err(VncError::ResponseTooLarge)
        } else {
            Ok(())
        },
        ExchangeOutcome::Complete { challenge, ssf, username } => if challenge@.len()
            > SASL_DATA_MAX_LEN {
            Err(VncError::ResponseTooLarge)
        } else {
            finalize_result(v.want_ssf, ssf, v.identity, username_view(username))
        },
    }
}

/// State after handling the provider's answer.
pub open spec fn after_exchange(v: VncClientView, outcome: ExchangeOutcome) -> VncClientView {
    match outcome {
        ExchangeOutcome::Failed => v,
        ExchangeOutcome::Continue { challenge } => after_continue(v, challenge@),
        ExchangeOutcome::Complete { challenge, ssf, username } => after_complete(
            v,
            challenge@,
            ssf,
            username_view(username),
        ),
    }
}

/// Endpoint identifier of the address `addr` (`host:port`).
pub fn sasl_endpoint(addr: &str) -> (r: Vec<u8>)
    ensures
        r@ == endpoint_id(encode_utf8(addr@)),
{
    let b = addr.as_bytes();
    let mut r: Vec<u8> = Vec::new();
    let mut i: usize = 0;
    while i < b.len()
        invariant
            b@ == encode_utf8(addr@),
            i <= b@.len(),
            r@ == endpoint_id(b@).subrange(0, i as int),
        decreases b@.len() - i,
    {
        if b[i] == 0x3a {
            r.push(0x3b);
        } else {
            r.push(b[i]);
        }
        i += 1;
        assert(r@ =~= endpoint_id(b@).subrange(0, i as int));
    }
    assert(r@ =~= endpoint_id(b@));
    r
}

impl VncClient {
    /// A connection about to authenticate `auth.identity`; the provider's own
    /// security layer is wanted unless the transport is already encrypted.
    pub fn new(auth: &SaslAuth, encrypted_transport: bool) -> (r: VncClient)
        ensures
            r@ == (VncClientView {
                identity: auth.identity@,
                mech_list: Seq::empty(),
                mech_name: Seq::empty(),
                stage: SaslStage::SaslServerStart,
                want_ssf: !encrypted_transport,
                run_ssf: 0,
                expect: 0,
                handler: Handler::Idle,
                out: Seq::empty(),
            }),
            r@.wf(),
    {
        let mut sasl = Sasl::default();
        sasl.identity = auth.identity.clone();
        sasl.want_ssf = !encrypted_transport;
        VncClient { sasl, expect: 0, handler: Handler::Idle, outbuf: Vec::new() }
    }

    /// Registers `handler` to consume the next `expect` bytes.
    pub fn update_event_handler(&mut self, expect: usize, handler: Handler)
        ensures
            final(self)@ == old(self)@.registered(expect as nat, handler),
    {
        self.expect = expect;
        self.handler = handler;
    }

    /// Queues `buf` for the client.
    pub fn write_msg(&mut self, buf: &[u8])
        ensures
            final(self)@ == old(self)@.written(buf@),
    {
        push_bytes(&mut self.outbuf, buf);
    }

    /// Reads the length of the mechanism name the client chose and registers
    /// the handler that reads the name.
    pub fn get_mechname_length(&mut self, buf: &[u8]) -> (r: Result<(), VncError>)
        requires
            buf@.len() >= 4,
        ensures
            r == mechname_length_result(be_u32_value(buf@)),
            r is Ok ==> final(self)@ == old(self)@.registered(
                be_u32_value(buf@) as nat,
                Handler::GetSaslMechname,
            ),
            r is Err ==> final(self)@ == old(self)@,
            old(self)@.wf() ==> final(self)@.wf(),
    {
        let len = read_be_u32(buf);
        if len > MECHNAME_MAX_LEN {
            return Err(VncError::MechanismNameInvalid);
        }
        if len < MECHNAME_MIN_LEN {
            return Err(VncError::MechanismNameInvalid);
        }
        self.update_event_handler(len as usize, Handler::GetSaslMechname);
        Ok(())
    }

    /// Reads the mechanism name the client chose; it must be one of the
    /// advertised mechanisms.
    pub fn get_sasl_mechname(&mut self, buf: &[u8]) -> (r: Result<(), VncError>)
        ensures
            r is Ok <==> mech_offered(encode_utf8(old(self)@.mech_list), buf@),
            r is Ok ==> encode_utf8(final(self)@.mech_name) == buf@ && final(self)@ == (
            VncClientView { mech_name: final(self)@.mech_name, ..old(self)@ }).registered(
                4,
                Handler::GetAuthmessageLength,
            ),
            r is Err ==> r == Err::<(), VncError>(VncError::UnsupportedMechanism) && final(self)@
                == old(self)@,
            old(self)@.wf() ==> final(self)@.wf(),
    {
        if buf.len() == 0 || has_comma(buf) {
            return Err(VncError::UnsupportedMechanism);
        }
        let list = self.sasl.mech_list.as_str();
        let bytes = list.as_bytes();
        match find_mech(bytes, buf) {
            None => Err(VncError::UnsupportedMechanism),
            Some((i, j)) => {
                proof {
                    vstd::utf8::encode_utf8_valid_utf8(list@);
                }
                let rest = if i == 0 {
                    list
                } else {
                    proof {
                        lemma_boundary_at_comma(bytes@, i - 1);
                    }
                    let (_, with_comma) = list.split_at(i - 1);
                    proof {
                        vstd::utf8::valid_utf8_split(bytes@, i - 1);
                        lemma_boundary_after_comma(encode_utf8(with_comma@));
                    }
                    let (_, after_comma) = with_comma.split_at(1);
                    proof {
                        assert(encode_utf8(after_comma@) =~= bytes@.subrange(
                            i as int,
                            bytes@.len() as int,
                        ));
                    }
                    after_comma
                };
                proof {
                    let rb = bytes@.subrange(i as int, bytes@.len() as int);
                    assert(encode_utf8(rest@) =~= rb);
                    vstd::utf8::encode_utf8_valid_utf8(rest@);
                    assert(j == bytes@.len() || rb[(j - i) as int] == COMMA);
                    lemma_boundary_at_comma(rb, (j - i) as int);
                }
                let (name, _) = rest.split_at(j - i);
                proof {
                    assert(encode_utf8(name@) =~= bytes@.subrange(i as int, j as int));
                }
                self.sasl.mech_name = name.to_owned();
                self.update_event_handler(4, Handler::GetAuthmessageLength);
                Ok(())
            },
        }
    }

    /// Takes the advertised mechanism list obtained from the provider (`None`
    /// when the library, the session or the list could not be had), sends it
    /// to the client and registers the handler that reads the client's choice.
    pub fn start_sasl_auth(&mut self, mech_list: Option<String>) -> (r: Result<(), VncError>)
        requires
            mech_list matches Some(l) ==> encode_utf8(l@).len() <= u32::MAX,
        ensures
            mech_list is None ==> r == Err::<(), VncError>(VncError::ProviderInitFailed)
                && final(self)@ == old(self)@,
            mech_list matches Some(l) ==> r is Ok && final(self)@ == (VncClientView {
                mech_list: l@,
                ..old(self)@
            }).written(mech_list_frame(l@)).registered(4, Handler::GetMechnameLength),
            old(self)@.wf() && old(self)@.handler == Handler::Idle ==> final(self)@.wf(),
    {
        match mech_list {
            None => Err(VncError::ProviderInitFailed),
            Some(list) => {
                self.sasl.mech_list = list;
                let bytes = self.sasl.mech_list.as_str().as_bytes();
                let mut buf: Vec<u8> = Vec::new();
                push_be_u32(&mut buf, bytes.len() as u32);
                push_bytes(&mut buf, bytes);
                self.write_msg(buf.as_slice());
                self.update_event_handler(4, Handler::GetMechnameLength);
                assert(buf@ =~= mech_list_frame(self.sasl.mech_list@));
                Ok(())
            },
        }
    }

    /// What the provider session is created with for a connection between
    /// `local_addr` and `remote_addr` (both `host:port`).
    pub fn sasl_server_init(&self, local_addr: &str, remote_addr: &str) -> (r: SaslServerParams)
        ensures
            r.local_addr@ == endpoint_id(encode_utf8(local_addr@)),
            r.remote_addr@ == endpoint_id(encode_utf8(remote_addr@)),
            r.disable_security_layer == !self.sasl.want_ssf,
    {
        SaslServerParams {
            local_addr: sasl_endpoint(local_addr),
            remote_addr: sasl_endpoint(remote_addr),
            disable_security_layer: !self.sasl.want_ssf,
        }
    }

    /// The provider call for the client's response `payload`: the first call
    /// of a handshake starts the exchange, every later one is a step.
    pub fn sasl_exchange_call(&mut self, payload: &[u8]) -> (r: ProviderCall)
        ensures
            r is Start <==> starts_exchange(old(self)@),
            r matches ProviderCall::Start { mech, data } ==> mech@ == old(self)@.mech_name
                && data@ == client_data(payload@),
            r matches ProviderCall::Step { data } ==> data@ == client_data(payload@),
            final(self)@ == after_exchange_call(old(self)@),
            old(self)@.wf() ==> final(self)@.wf(),
            old(self)@.wf() && old(self)@.handler == Handler::ClientSaslAuth
                ==> old(self)@.mech_name.len() > 0,
    {
        let len = if payload.len() > 0 {
            payload.len() - 1
        } else {
            0
        };
        let mut data: Vec<u8> = Vec::new();
        let mut k: usize = 0;
        while k < len
            invariant
                len == client_data(payload@).len(),
                len <= payload@.len(),
                k <= len,
                data@ == client_data(payload@).subrange(0, k as int),
            decreases len - k,
        {
            data.push(payload[k]);
            k += 1;
            assert(data@ =~= client_data(payload@).subrange(0, k as int));
        }
        assert(data@ =~= client_data(payload@));
        let call = if self.sasl.sasl_stage == SaslStage::SaslServerStart {
            ProviderCall::Start { mech: self.sasl.mech_name.clone(), data }
        } else {
            ProviderCall::Step { data }
        };
        self.sasl.sasl_stage = SaslStage::SaslServerStep;
        call
    }

    /// Strength check: skipped when the transport is already encrypted; else
    /// the negotiated strength `ssf` must be known and at least the minimum,
    /// and is then recorded.
    pub fn sasl_check_ssf(&mut self, ssf: Option<u32>) -> (r: Result<(), VncError>)
        ensures
            r is Ok <==> ssf_check_passes(old(self)@.want_ssf, ssf),
            r is Err ==> r == Err::<(), VncError>(VncError::SecurityLayerTooWeak),
            final(self)@ == (VncClientView { run_ssf: recorded_ssf(old(self)@, ssf), ..old(self)@ }),
    {
        if !self.sasl.want_ssf {
            return Ok(());
        }
        match ssf {
            Some(v) => {
                if v < MIN_SSF_LENGTH {
                    return Err(VncError::SecurityLayerTooWeak);
                }
                self.sasl.run_ssf = v;
                Ok(())
            },
            None => Err(VncError::SecurityLayerTooWeak),
        }
    }

    /// Authorization check: the authenticated principal must be set and be
    /// the configured identity.
    pub fn sasl_check_authz(&self, username: &Option<String>) -> (r: Result<(), VncError>)
        ensures
            r is Ok <==> authz_check_passes(self@.identity, username_view(*username)),
            r is Err ==> r == Err::<(), VncError>(VncError::UnauthorizedIdentity),
    {
        match username {
            Some(u) => {
                if *u == self.sasl.identity {
                    Ok(())
                } else {
                    Err(VncError::UnauthorizedIdentity)
                }
            },
            None => Err(VncError::UnauthorizedIdentity),
        }
    }

    /// Handles the provider's answer to a start or step call: sends the
    /// challenge, and either waits for the client's next response or decides
    /// admission, sending the accept or reject frame.
    pub fn client_sasl_auth(&mut self, outcome: ExchangeOutcome) -> (r: Result<(), VncError>)
        ensures
            r == exchange_result(old(self)@, outcome),
            final(self)@ == after_exchange(old(self)@, outcome),
            old(self)@.wf() && old(self)@.handler == Handler::ClientSaslAuth
                ==> final(self)@.wf(),
    {
        match outcome {
            ExchangeOutcome::Failed => Err(VncError::ExchangeFailed),
            ExchangeOutcome::Continue { challenge } => {
                if challenge.len() > SASL_DATA_MAX_LEN as usize {
                    return Err(VncError::ResponseTooLarge);
                }
                let buf = server_challenge_message(challenge.as_slice(), false);
                self.sasl.sasl_stage = SaslStage::SaslServerStep;
                self.write_msg(buf.as_slice());
                self.update_event_handler(4, Handler::GetAuthmessageLength);
                Ok(())
            },
            ExchangeOutcome::Complete { challenge, ssf, username } => {
                if challenge.len() > SASL_DATA_MAX_LEN as usize {
                    return Err(VncError::ResponseTooLarge);
                }
                let mut buf = server_challenge_message(challenge.as_slice(), true);
                if let Err(e) = self.sasl_check_ssf(ssf) {
                    auth_reject(&mut buf);
                    self.write_msg(buf.as_slice());
                    assert(buf@ =~= challenge_frame(challenge@, true) + reject_frame());
                    return Err(e);
                }
                if let Err(e) = self.sasl_check_authz(&username) {
                    auth_reject(&mut buf);
                    self.write_msg(buf.as_slice());
                    assert(buf@ =~= challenge_frame(challenge@, true) + reject_frame());
                    return Err(e);
                }
                push_be_u32(&mut buf, 0);
                self.write_msg(buf.as_slice());
                self.update_event_handler(1, Handler::HandleClientInit);
                assert(buf@ =~= challenge_frame(challenge@, true) + accept_frame());
                Ok(())
            },
        }
    }

    /// Reads the length of the client's next response and registers the
    /// handler that hands the response to the provider; a length of 0 means
    /// an empty response, ready at once.
    pub fn get_authmessage_length(&mut self, buf: &[u8]) -> (r: Result<(), VncError>)
        requires
            buf@.len() >= 4,
        ensures
            r == response_length_result(be_u32_value(buf@)),
            final(self)@ == after_response_length(old(self)@, be_u32_value(buf@)),
            old(self)@.wf() && old(self)@.handler == Handler::GetAuthmessageLength
                ==> final(self)@.wf(),
    {
        let len = read_be_u32(buf);
        if len > SASL_DATA_MAX_LEN {
            return Err(VncError::ResponseTooLarge);
        }
        self.update_event_handler(len as usize, Handler::ClientSaslAuth);
        Ok(())
    }
}

/// One round of the exchange: the provider call for the client's response,
/// a Continue answer with `challenge`, and the length `next_len` of the
/// client's next response.
pub open spec fn after_round(v: VncClientView, challenge: Seq<u8>, next_len: int) -> VncClientView {
    after_response_length(after_continue(after_exchange_call(v), challenge), next_len)
}

/// State after the given rounds of the exchange, oldest first.
pub open spec fn after_rounds(v: VncClientView, rounds: Seq<(Seq<u8>, int)>) -> VncClientView
    decreases rounds.len(),
{
    if rounds.len() == 0 {
        v
    } else {
        after_round(after_rounds(v, rounds.drop_last()), rounds.last().0, rounds.last().1)
    }
}

/// The exchange is started at most once per handshake: after the first
/// provider call, however many Continue rounds follow, the next provider call
/// is always a step.
pub proof fn lemma_exchange_started_once(v: VncClientView, rounds: Seq<(Seq<u8>, int)>)
    ensures
        forall|k: int|
            0 < k <= rounds.len() ==> (#[trigger] after_rounds(v, rounds.take(k))).stage
                == SaslStage::SaslServerStep,
        forall|k: int| 0 < k <= rounds.len() ==> !starts_exchange(after_rounds(v, rounds.take(k))),
{
    assert forall|k: int| 0 < k <= rounds.len() implies (#[trigger] after_rounds(
        v,
        rounds.take(k),
    )).stage == SaslStage::SaslServerStep by {
        assert(rounds.take(k).len() == k);
    }
}

/// Admission: the client is admitted exactly when both the strength check
/// and the authorization check pass. When either fails, the final frame is a
/// reject frame, whose first word is 1 and whose reason is not empty.
pub proof fn lemma_finalize_admission(
    want_ssf: bool,
    ssf: Option<u32>,
    identity: Seq<char>,
    username: Option<Seq<char>>,
)
    ensures
        finalize_result(want_ssf, ssf, identity, username) is Ok <==> ssf_check_passes(
            want_ssf,
            ssf,
        ) && authz_check_passes(identity, username),
        finalize_result(want_ssf, ssf, identity, username) is Ok ==> result_frame(
            finalize_result(want_ssf, ssf, identity, username),
        ) == accept_frame() && accept_frame().len() == 4 && be_u32_value(accept_frame()) == 0,
        finalize_result(want_ssf, ssf, identity, username) is Err ==> {
            let f = result_frame(finalize_result(want_ssf, ssf, identity, username));
            &&& f == reject_frame()
            &&& be_u32_value(f) == 1
            &&& be_u32_value(f.subrange(4, 8)) == reject_reason().len()
            &&& reject_reason().len() > 0
            &&& f.subrange(8, f.len() as int) == reject_reason()
        },
{
    lemma_reject_reason_not_empty();
    lemma_be_u32_round_trip(0);
    lemma_be_u32_round_trip(1);
    lemma_be_u32_round_trip(reject_reason().len() as u32);
    let f = reject_frame();
    assert(f.subrange(4, 8) =~= be_u32_bytes(reject_reason().len() as u32));
    assert(f.subrange(8, f.len() as int) =~= reject_reason());
}

} // verus!
