use munge_rs::{decode, encode, Context, Daemon, Error, MungeCipher, MungeError, MungeMac, MungeZip};

#[test]
fn round_trip_recovers_payload() {
    // For all payloads, decode(encode(p)) before expiry and exactly once
    // gives back p; tried here on the empty and a non-empty payload.
    for payload in [&b""[..], &b"some payload"[..]] {
        let mut daemon = Daemon::new(1000, 1000);
        daemon.set_clock(1_700_000_000);
        let cred = encode(payload, None, &mut daemon).unwrap();
        let mut ctx = Context::new();
        let res = decode(cred, &mut ctx, &mut daemon).unwrap();
        assert_eq!(res.message, payload.to_vec());
        assert_eq!(res.uid, 1000);
        assert_eq!(res.gid, 1000);
    }
}

#[test]
fn second_decode_is_replayed() {
    let mut daemon = Daemon::new(1000, 1000);
    daemon.set_clock(1_700_000_000);
    let cred = encode(b"once only", None, &mut daemon).unwrap();
    let mut ctx = Context::new();
    decode(cred.clone(), &mut ctx, &mut daemon).unwrap();

    let err = decode(cred.clone(), &mut ctx, &mut daemon).unwrap_err();
    assert!(matches!(err, Error::MungeError(MungeError::CredReplayed, _)));

    // still the replay kind, never a different one, even once the
    // credential's window has also elapsed
    daemon.set_clock(1_700_009_999);
    let err = decode(cred, &mut ctx, &mut daemon).unwrap_err();
    assert!(matches!(err, Error::MungeError(MungeError::CredReplayed, _)));
}

#[test]
fn decode_after_ttl_is_expired() {
    let mut daemon = Daemon::new(1000, 1000);
    daemon.set_clock(1_700_000_000);
    let mut ctx = Context::new();
    ctx.set_ttl(120).unwrap();
    let cred = encode(b"short lived", Some(&ctx), &mut daemon).unwrap();

    daemon.set_clock(1_700_000_121);
    let err = decode(cred, &mut ctx, &mut daemon).unwrap_err();
    assert!(matches!(err, Error::MungeError(MungeError::CredExpired, _)));
}

#[test]
fn decode_at_ttl_boundary_succeeds() {
    let mut daemon = Daemon::new(1000, 1000);
    daemon.set_clock(1_700_000_000);
    let mut ctx = Context::new();
    ctx.set_ttl(120).unwrap();
    let cred = encode(b"short lived", Some(&ctx), &mut daemon).unwrap();

    daemon.set_clock(1_700_000_120);
    assert!(decode(cred, &mut ctx, &mut daemon).is_ok());
}

#[test]
fn restriction_mismatch_is_unauthorized() {
    let mut daemon = Daemon::new(1000, 1000);
    daemon.set_clock(1_700_000_000);

    let mut ctx = Context::new();
    ctx.set_uid_restriction(4242).unwrap();
    let cred = encode(b"for uid 4242 only", Some(&ctx), &mut daemon).unwrap();
    let err = decode(cred, &mut ctx, &mut daemon).unwrap_err();
    assert!(matches!(
        err,
        Error::MungeError(MungeError::CredUnauthorized, _)
    ));

    let mut ctx = Context::new();
    ctx.set_gid_restriction(9).unwrap();
    let cred = encode(b"for gid 9 only", Some(&ctx), &mut daemon).unwrap();
    let err = decode(cred, &mut ctx, &mut daemon).unwrap_err();
    assert!(matches!(
        err,
        Error::MungeError(MungeError::CredUnauthorized, _)
    ));
}

#[test]
fn matching_or_absent_restriction_succeeds() {
    let mut daemon = Daemon::new(1000, 2000);
    daemon.set_clock(1_700_000_000);

    let mut ctx = Context::new();
    ctx.set_uid_restriction(1000).unwrap();
    ctx.set_gid_restriction(2000).unwrap();
    let cred = encode(b"for the caller", Some(&ctx), &mut daemon).unwrap();
    assert!(decode(cred, &mut ctx, &mut daemon).is_ok());

    let mut ctx = Context::new();
    let cred = encode(b"for anyone", Some(&ctx), &mut daemon).unwrap();
    assert!(decode(cred, &mut ctx, &mut daemon).is_ok());
}

#[test]
fn embedded_nul_fails_locally() {
    let mut daemon = Daemon::new(1000, 1000);
    let err = encode(b"bad\0payload", None, &mut daemon).unwrap_err();
    assert_eq!(err, Error::InnerNull);

    let mut ctx = Context::new();
    let err = decode("MUNGE:\0:".to_string(), &mut ctx, &mut daemon).unwrap_err();
    assert_eq!(err, Error::InnerNull);
}

#[test]
fn hello_scenario() {
    // encode "hello" with mac=SHA256, zip=None, cipher=Default, default TTL;
    // decode with the same context before expiry.
    let mut daemon = Daemon::new(1000, 1000);
    daemon.set_clock(1_700_000_000);
    let mut ctx = Context::new();
    ctx.set_mac(MungeMac::SHA256).unwrap();
    ctx.set_zip(MungeZip::ZipNone).unwrap();
    ctx.set_cipher(MungeCipher::Default).unwrap();

    let cred = encode(b"hello", Some(&ctx), &mut daemon).unwrap();
    daemon.set_clock(1_700_000_010);
    let res = decode(cred, &mut ctx, &mut daemon).unwrap();
    assert_eq!(res.message, b"hello".to_vec());
    assert_eq!(res.uid, daemon.uid());
    assert_eq!(res.gid, daemon.gid());
}

#[test]
fn ttl_one_second_scenario() {
    // encode with ttl=1, let 2 seconds pass, decode.
    let mut daemon = Daemon::new(1000, 1000);
    daemon.set_clock(1_700_000_000);
    let mut ctx = Context::new();
    ctx.set_ttl(1).unwrap();
    let cred = encode(b"fleeting", Some(&ctx), &mut daemon).unwrap();

    daemon.set_clock(1_700_000_002);
    let err = decode(cred, &mut ctx, &mut daemon).unwrap_err();
    assert!(matches!(err, Error::MungeError(MungeError::CredExpired, _)));
}

#[test]
fn decode_populates_context_metadata() {
    let mut daemon = Daemon::new(1000, 1000);
    daemon.set_clock(1_700_000_000);
    let mut ctx = Context::new();
    ctx.set_uid_restriction(1000).unwrap();
    let cred = encode(b"meta", Some(&ctx), &mut daemon).unwrap();

    daemon.set_clock(1_700_000_005);
    decode(cred, &mut ctx, &mut daemon).unwrap();
    assert_eq!(ctx.addr4().unwrap(), u32::from_le_bytes([127, 0, 0, 1]));
    assert_eq!(ctx.uid_restriction().unwrap(), 1000);
    assert_eq!(ctx.gid_restriction().unwrap(), u32::MAX);
    let et = ctx.encode_time().unwrap();
    let dt = ctx.decode_time().unwrap();
    assert!(et.starts_with("2023-11-14T22:13:20"));
    assert!(dt.starts_with("2023-11-14T22:13:25"));
}

#[test]
fn failed_decode_leaves_context_untouched() {
    let mut daemon = Daemon::new(1000, 1000);
    let mut ctx = Context::new();
    let err = decode("not a credential".to_string(), &mut ctx, &mut daemon).unwrap_err();
    assert!(matches!(err, Error::MungeError(MungeError::BadCred, _)));
    assert!(ctx.addr4().is_err());
    assert!(ctx.encode_time().is_err());
}
