use stratovirt::auth::{
    sasl_endpoint, AuthState, ExchangeOutcome, Handler, ProviderCall, Sasl, SaslAuth, SaslStage,
    SubAuthState, VncClient, VncError,
};
use stratovirt::frames::{auth_reject, server_challenge_message};

const MECHS: &str = "PLAIN,ANONYMOUS";

fn be(v: u32) -> Vec<u8> {
    v.to_be_bytes().to_vec()
}

fn client(identity: &str, encrypted_transport: bool) -> VncClient {
    let auth = SaslAuth { identity: String::from(identity) };
    VncClient::new(&auth, encrypted_transport)
}

/// A client that has been sent `MECHS`, with its output drained.
fn negotiating(identity: &str, encrypted_transport: bool) -> VncClient {
    let mut c = client(identity, encrypted_transport);
    c.start_sasl_auth(Some(String::from(MECHS))).unwrap();
    c.outbuf.clear();
    c
}

/// A client that has chosen `mech` and is waiting for its first response.
fn chosen(identity: &str, encrypted_transport: bool, mech: &str) -> VncClient {
    let mut c = negotiating(identity, encrypted_transport);
    c.get_mechname_length(&be(mech.len() as u32)).unwrap();
    c.get_sasl_mechname(mech.as_bytes()).unwrap();
    c
}

fn reject_bytes() -> Vec<u8> {
    let mut v = be(1);
    v.extend(be(21));
    v.extend(b"Authentication failed");
    v
}

fn complete(username: Option<&str>, ssf: Option<u32>) -> ExchangeOutcome {
    ExchangeOutcome::Complete { challenge: Vec::new(), ssf, username: username.map(String::from) }
}

#[test]
fn start_sends_mechanism_list() {
    let mut c = client("alice", true);
    assert_eq!(c.start_sasl_auth(Some(String::from(MECHS))), Ok(()));
    let mut expected = be(15);
    expected.extend(MECHS.as_bytes());
    assert_eq!(c.outbuf, expected);
    assert_eq!(c.sasl.mech_list, MECHS);
    assert_eq!(c.expect, 4);
    assert_eq!(c.handler, Handler::GetMechnameLength);
}

#[test]
fn start_fails_without_provider() {
    let mut c = client("alice", true);
    assert_eq!(c.start_sasl_auth(None), Err(VncError::ProviderInitFailed));
    assert!(c.outbuf.is_empty());
    assert_eq!(c.handler, Handler::Idle);
}

#[test]
fn mechname_length_bounds() {
    for (len, ok) in [(0u32, false), (1, true), (100, true), (101, false), (u32::MAX, false)] {
        let mut c = negotiating("alice", true);
        let r = c.get_mechname_length(&be(len));
        if ok {
            assert_eq!(r, Ok(()));
            assert_eq!(c.expect, len as usize);
            assert_eq!(c.handler, Handler::GetSaslMechname);
        } else {
            assert_eq!(r, Err(VncError::MechanismNameInvalid));
            assert_eq!(c.expect, 4);
            assert_eq!(c.handler, Handler::GetMechnameLength);
        }
    }
}

#[test]
fn mechname_exact_match() {
    let mut c = negotiating("alice", true);
    assert_eq!(c.get_sasl_mechname(b"ANONYMOUS"), Ok(()));
    assert_eq!(c.sasl.mech_name, "ANONYMOUS");
    assert_eq!(c.expect, 4);
    assert_eq!(c.handler, Handler::GetAuthmessageLength);

    let mut c = negotiating("alice", true);
    assert_eq!(c.get_sasl_mechname(b"PLAIN"), Ok(()));
    assert_eq!(c.sasl.mech_name, "PLAIN");
}

#[test]
fn mechname_variants_rejected() {
    for name in [&b"plain"[..], b"PLAI", b"LAIN", b"ANONYMOU", b"PLAIN,ANONYMOUS", b"", b"PLAIN "] {
        let mut c = negotiating("alice", true);
        assert_eq!(c.get_sasl_mechname(name), Err(VncError::UnsupportedMechanism));
        assert_eq!(c.sasl.mech_name, "");
        assert_eq!(c.handler, Handler::GetMechnameLength);
    }
}

#[test]
fn mechname_empty_element_never_matches() {
    let mut c = client("alice", true);
    c.start_sasl_auth(Some(String::from("PLAIN,,GSSAPI"))).unwrap();
    assert_eq!(c.get_sasl_mechname(b""), Err(VncError::UnsupportedMechanism));
    assert_eq!(c.get_sasl_mechname(b"GSSAPI"), Ok(()));
    assert_eq!(c.sasl.mech_name, "GSSAPI");
}

#[test]
fn scenario_unsupported_mechanism() {
    let mut c = negotiating("alice", true);
    assert_eq!(c.get_mechname_length(&be(8)), Ok(()));
    assert_eq!(c.expect, 8);
    assert_eq!(c.get_sasl_mechname(b"EXTERNAL"), Err(VncError::UnsupportedMechanism));
    assert!(c.outbuf.is_empty());
    assert_eq!(c.handler, Handler::GetSaslMechname);
}

#[test]
fn response_length_bounds() {
    let mut c = chosen("alice", true, "PLAIN");
    assert_eq!(c.get_authmessage_length(&be(1_048_577)), Err(VncError::ResponseTooLarge));
    assert_eq!(c.handler, Handler::GetAuthmessageLength);
    assert_eq!(c.get_authmessage_length(&be(1_048_576)), Ok(()));
    assert_eq!(c.expect, 1_048_576);
    assert_eq!(c.handler, Handler::ClientSaslAuth);
}

#[test]
fn empty_response_is_ready_at_once() {
    let mut c = chosen("alice", true, "PLAIN");
    assert_eq!(c.get_authmessage_length(&be(0)), Ok(()));
    assert_eq!(c.expect, 0);
    assert_eq!(c.handler, Handler::ClientSaslAuth);
    match c.sasl_exchange_call(&[]) {
        ProviderCall::Start { mech, data } => {
            assert_eq!(mech, "PLAIN");
            assert!(data.is_empty());
        }
        ProviderCall::Step { .. } => panic!("first call must start the exchange"),
    }
}

#[test]
fn response_terminator_stripped() {
    let mut c = chosen("alice", true, "PLAIN");
    match c.sasl_exchange_call(b"\0alice\0secret\0") {
        ProviderCall::Start { mech, data } => {
            assert_eq!(mech, "PLAIN");
            assert_eq!(data, b"\0alice\0secret");
        }
        ProviderCall::Step { .. } => panic!("first call must start the exchange"),
    }
}

#[test]
fn exchange_started_once() {
    let mut c = chosen("alice", true, "PLAIN");
    assert_eq!(c.sasl.sasl_stage, SaslStage::SaslServerStart);
    assert!(matches!(c.sasl_exchange_call(b"a\0"), ProviderCall::Start { .. }));
    assert_eq!(c.sasl.sasl_stage, SaslStage::SaslServerStep);
    for round in 0..3u8 {
        let r = c.client_sasl_auth(ExchangeOutcome::Continue { challenge: vec![b'c', round] });
        assert_eq!(r, Ok(()));
        assert_eq!(c.sasl.sasl_stage, SaslStage::SaslServerStep);
        assert_eq!(c.handler, Handler::GetAuthmessageLength);
        c.get_authmessage_length(&be(2)).unwrap();
        match c.sasl_exchange_call(&[b'r', 0]) {
            ProviderCall::Step { data } => assert_eq!(data, b"r"),
            ProviderCall::Start { .. } => panic!("exchange started twice"),
        }
    }
}

#[test]
fn continue_sends_challenge() {
    let mut c = chosen("alice", true, "PLAIN");
    c.sasl_exchange_call(b"x\0");
    assert_eq!(c.client_sasl_auth(ExchangeOutcome::Continue { challenge: b"abc".to_vec() }), Ok(()));
    assert_eq!(c.outbuf, vec![0, 0, 0, 4, b'a', b'b', b'c', 0]);
    assert_eq!(c.expect, 4);
    assert_eq!(c.handler, Handler::GetAuthmessageLength);
}

#[test]
fn challenge_too_large() {
    let mut c = chosen("alice", true, "PLAIN");
    c.sasl_exchange_call(b"x\0");
    let big = vec![7u8; 1_048_577];
    let r = c.client_sasl_auth(ExchangeOutcome::Continue { challenge: big.clone() });
    assert_eq!(r, Err(VncError::ResponseTooLarge));
    let r = c.client_sasl_auth(ExchangeOutcome::Complete {
        challenge: big,
        ssf: None,
        username: Some(String::from("alice")),
    });
    assert_eq!(r, Err(VncError::ResponseTooLarge));
    assert!(c.outbuf.is_empty());
}

#[test]
fn largest_challenge_accepted() {
    let mut c = chosen("alice", true, "PLAIN");
    c.sasl_exchange_call(b"x\0");
    let r = c.client_sasl_auth(ExchangeOutcome::Continue { challenge: vec![7u8; 1_048_576] });
    assert_eq!(r, Ok(()));
    assert_eq!(&c.outbuf[..4], &be(1_048_577)[..]);
    assert_eq!(c.outbuf.len(), 1_048_576 + 5);
}

#[test]
fn provider_failure() {
    let mut c = chosen("alice", true, "PLAIN");
    c.get_authmessage_length(&be(2)).unwrap();
    c.sasl_exchange_call(b"x\0");
    assert_eq!(c.client_sasl_auth(ExchangeOutcome::Failed), Err(VncError::ExchangeFailed));
    assert!(c.outbuf.is_empty());
    assert_eq!(c.handler, Handler::ClientSaslAuth);
}

#[test]
fn scenario_accept() {
    let mut c = chosen("alice", true, "PLAIN");
    c.get_authmessage_length(&be(0)).unwrap();
    c.sasl_exchange_call(&[]);
    assert_eq!(c.client_sasl_auth(complete(Some("alice"), None)), Ok(()));
    assert_eq!(c.outbuf, vec![0, 0, 0, 0, 1, 0, 0, 0, 0]);
    assert_eq!(&c.outbuf[5..], &[0u8, 0, 0, 0][..]);
    assert_eq!(c.expect, 1);
    assert_eq!(c.handler, Handler::HandleClientInit);
}

#[test]
fn scenario_wrong_principal() {
    let mut c = chosen("alice", true, "PLAIN");
    c.get_authmessage_length(&be(0)).unwrap();
    c.sasl_exchange_call(&[]);
    assert_eq!(
        c.client_sasl_auth(complete(Some("mallory"), None)),
        Err(VncError::UnauthorizedIdentity)
    );
    let mut expected = vec![0, 0, 0, 0, 1];
    expected.extend(reject_bytes());
    assert_eq!(c.outbuf, expected);
    assert_eq!(&c.outbuf[5..9], &[0u8, 0, 0, 1][..]);
    assert_eq!(c.handler, Handler::ClientSaslAuth);
}

#[test]
fn missing_principal_rejected() {
    let mut c = chosen("alice", true, "PLAIN");
    c.sasl_exchange_call(&[]);
    assert_eq!(c.client_sasl_auth(complete(None, None)), Err(VncError::UnauthorizedIdentity));
    assert!(c.outbuf.ends_with(&reject_bytes()));
}

#[test]
fn strength_checked_on_plain_transport() {
    let mut c = chosen("alice", false, "PLAIN");
    c.sasl_exchange_call(&[]);
    assert_eq!(c.client_sasl_auth(complete(Some("alice"), Some(55))), Err(VncError::SecurityLayerTooWeak));
    let mut expected = vec![0, 0, 0, 0, 1];
    expected.extend(reject_bytes());
    assert_eq!(c.outbuf, expected);
    assert_eq!(c.sasl.run_ssf, 0);

    let mut c = chosen("alice", false, "PLAIN");
    c.sasl_exchange_call(&[]);
    assert_eq!(c.client_sasl_auth(complete(Some("alice"), None)), Err(VncError::SecurityLayerTooWeak));

    let mut c = chosen("alice", false, "PLAIN");
    c.sasl_exchange_call(&[]);
    assert_eq!(c.client_sasl_auth(complete(Some("alice"), Some(56))), Ok(()));
    assert_eq!(c.sasl.run_ssf, 56);
    assert_eq!(c.outbuf, vec![0, 0, 0, 0, 1, 0, 0, 0, 0]);
}

#[test]
fn strength_passes_but_principal_fails() {
    let mut c = chosen("alice", false, "PLAIN");
    c.sasl_exchange_call(&[]);
    assert_eq!(c.client_sasl_auth(complete(Some("bob"), Some(128))), Err(VncError::UnauthorizedIdentity));
    assert_eq!(c.sasl.run_ssf, 128);
    assert!(c.outbuf.ends_with(&reject_bytes()));
}

#[test]
fn strength_skipped_on_encrypted_transport() {
    let mut c = chosen("alice", true, "PLAIN");
    assert_eq!(c.sasl_check_ssf(Some(0)), Ok(()));
    assert_eq!(c.sasl_check_ssf(None), Ok(()));
    assert_eq!(c.sasl.run_ssf, 0);
}

#[test]
fn authz_check() {
    let c = client("alice", true);
    assert_eq!(c.sasl_check_authz(&Some(String::from("alice"))), Ok(()));
    assert_eq!(c.sasl_check_authz(&Some(String::from("Alice"))), Err(VncError::UnauthorizedIdentity));
    assert_eq!(c.sasl_check_authz(&None), Err(VncError::UnauthorizedIdentity));
}

#[test]
fn challenge_message_round_trip() {
    let m = server_challenge_message(b"hello", true);
    assert_eq!(u32::from_be_bytes([m[0], m[1], m[2], m[3]]), 6);
    assert_eq!(&m[4..9], b"hello");
    assert_eq!(m[9], 1);
    let m = server_challenge_message(b"k", false);
    assert_eq!(m, vec![0, 0, 0, 2, b'k', 0]);
    let m = server_challenge_message(b"", true);
    assert_eq!(m, vec![0, 0, 0, 0, 1]);
}

#[test]
fn reject_frame_bytes() {
    let mut buf = vec![9u8];
    auth_reject(&mut buf);
    let mut expected = vec![9u8];
    expected.extend(reject_bytes());
    assert_eq!(buf, expected);
}

#[test]
fn endpoint_ids() {
    assert_eq!(sasl_endpoint("127.0.0.1:5900"), b"127.0.0.1;5900");
    assert_eq!(sasl_endpoint("[::1]:5901"), b"[;;1];5901");
    assert_eq!(sasl_endpoint(""), b"");
    let plain = client("alice", false);
    let p = plain.sasl_server_init("10.0.0.1:5900", "10.0.0.2:40000");
    assert_eq!(p.local_addr, b"10.0.0.1;5900");
    assert_eq!(p.remote_addr, b"10.0.0.2;40000");
    assert!(!p.disable_security_layer);
    let tls = client("alice", true);
    assert!(tls.sasl_server_init("a:1", "b:2").disable_security_layer);
}

#[test]
fn fresh_state() {
    let s = Sasl::default();
    assert_eq!(s.sasl_stage, SaslStage::SaslServerStart);
    assert_eq!(s.run_ssf, 0);
    assert!(s.mech_name.is_empty());
    let c = client("alice", false);
    assert_eq!(c.sasl.identity, "alice");
    assert!(c.sasl.want_ssf);
    assert_eq!(c.handler, Handler::Idle);
    assert_eq!(c.expect, 0);
}

#[test]
fn security_type_codes() {
    assert_eq!(AuthState::Invalid.code(), 0);
    assert_eq!(AuthState::No.code(), 1);
    assert_eq!(AuthState::Vnc.code(), 2);
    assert_eq!(AuthState::Vencrypt.code(), 19);
    assert_eq!(AuthState::Sasl.code(), 20);
    assert_eq!(SubAuthState::VncAuthVencryptPlain.code(), 256);
    assert_eq!(SubAuthState::VncAuthVencryptX509None.code(), 260);
    assert_eq!(SubAuthState::VncAuthVencryptX509Sasl.code(), 263);
    assert_eq!(SubAuthState::VncAuthVencryptTlssasl.code(), 264);
}
