use munge_rs::{decode, encode, Context, Daemon, Error, MungeCipher, MungeError, MungeMac, MungeZip};

/// Serializes a frame the way the service does: tags, little-endian
/// numbers, payload, and the trailing byte-sum tag.
fn craft_frame(
    version: u8,
    cipher: u8,
    mac: u8,
    zip: u8,
    nonce: u64,
    etime: u64,
    ttl: u32,
    payload: &[u8],
) -> Vec<u8> {
    let mut b = vec![version, cipher, mac, zip];
    b.extend_from_slice(&nonce.to_le_bytes());
    b.extend_from_slice(&etime.to_le_bytes());
    b.extend_from_slice(&ttl.to_le_bytes());
    b.extend_from_slice(&u32::from_le_bytes([127, 0, 0, 1]).to_le_bytes());
    b.extend_from_slice(&1000u32.to_le_bytes());
    b.extend_from_slice(&1000u32.to_le_bytes());
    b.extend_from_slice(&u32::MAX.to_le_bytes());
    b.extend_from_slice(&u32::MAX.to_le_bytes());
    b.extend_from_slice(&(payload.len() as u32).to_le_bytes());
    b.extend_from_slice(payload);
    let sum: u64 = b.iter().map(|&x| x as u64).sum();
    b.extend_from_slice(&((sum % 0x1_0000_0000) as u32).to_le_bytes());
    b
}

fn armor(frame: &[u8]) -> String {
    let mut s = String::from("MUNGE:");
    for byte in frame {
        s.push_str(&format!("{:02x}", byte));
    }
    s.push(':');
    s
}

/// A daemon that has issued one credential, so a crafted serial number of
/// zero counts as issued.
fn primed_daemon() -> Daemon {
    let mut daemon = Daemon::new(1000, 1000);
    daemon.set_clock(1_700_000_000);
    encode(b"primer", None, &mut daemon).unwrap();
    daemon
}

fn kind_of(e: Error) -> MungeError {
    match e {
        Error::MungeError(k, _) => k,
        other => panic!("expected a service error, got {:?}", other),
    }
}

#[test]
fn garbage_is_bad_cred() {
    let mut daemon = Daemon::new(1000, 1000);
    let mut ctx = Context::new();
    for garbage in ["", "MUNGE:", "MUNGE:zz:", "MUNGE:0102:extra", "hello"] {
        let err = decode(garbage.to_string(), &mut ctx, &mut daemon).unwrap_err();
        assert_eq!(kind_of(err), MungeError::BadCred);
    }
    // truncated frame: well-formed armor over too few bytes
    let err = decode(armor(&[1, 2, 3]), &mut ctx, &mut daemon).unwrap_err();
    assert_eq!(kind_of(err), MungeError::BadCred);
}

#[test]
fn wrong_version_is_bad_version() {
    let mut daemon = primed_daemon();
    let mut ctx = Context::new();
    let cred = armor(&craft_frame(9, 1, 5, 0, 0, 1_700_000_000, 300, b"x"));
    let err = decode(cred, &mut ctx, &mut daemon).unwrap_err();
    assert_eq!(kind_of(err), MungeError::BadVersion);
}

#[test]
fn unknown_cipher_tag_is_bad_cipher() {
    let mut daemon = primed_daemon();
    let mut ctx = Context::new();
    let cred = armor(&craft_frame(3, 99, 5, 0, 0, 1_700_000_000, 300, b"x"));
    let err = decode(cred, &mut ctx, &mut daemon).unwrap_err();
    assert_eq!(kind_of(err), MungeError::BadCipher);
}

#[test]
fn unknown_mac_tag_is_bad_mac() {
    let mut daemon = primed_daemon();
    let mut ctx = Context::new();
    let cred = armor(&craft_frame(3, 1, 77, 0, 0, 1_700_000_000, 300, b"x"));
    let err = decode(cred, &mut ctx, &mut daemon).unwrap_err();
    assert_eq!(kind_of(err), MungeError::BadMac);
    // a MAC tag of zero is refused too: integrity is never optional
    let cred = armor(&craft_frame(3, 1, 0, 0, 0, 1_700_000_000, 300, b"x"));
    let err = decode(cred, &mut ctx, &mut daemon).unwrap_err();
    assert_eq!(kind_of(err), MungeError::BadMac);
}

#[test]
fn unknown_zip_tag_is_bad_zip() {
    let mut daemon = primed_daemon();
    let mut ctx = Context::new();
    let cred = armor(&craft_frame(3, 1, 5, 44, 0, 1_700_000_000, 300, b"x"));
    let err = decode(cred, &mut ctx, &mut daemon).unwrap_err();
    assert_eq!(kind_of(err), MungeError::BadZip);
}

#[test]
fn tampered_credential_is_invalid() {
    let mut daemon = Daemon::new(1000, 1000);
    daemon.set_clock(1_700_000_000);
    let cred = encode(b"genuine", None, &mut daemon).unwrap();
    // flip one payload digit without fixing the integrity tag
    let mut bytes = cred.into_bytes();
    let i = bytes.len() - 12;
    bytes[i] = if bytes[i] == b'0' { b'1' } else { b'0' };
    let tampered = String::from_utf8(bytes).unwrap();
    let mut ctx = Context::new();
    let err = decode(tampered, &mut ctx, &mut daemon).unwrap_err();
    assert_eq!(kind_of(err), MungeError::CredInvalid);
}

#[test]
fn unissued_serial_is_invalid() {
    let mut daemon = primed_daemon();
    let mut ctx = Context::new();
    let cred = armor(&craft_frame(3, 1, 5, 0, 55, 1_700_000_000, 300, b"x"));
    let err = decode(cred, &mut ctx, &mut daemon).unwrap_err();
    assert_eq!(kind_of(err), MungeError::CredInvalid);
}

#[test]
fn clock_rewind_is_rewound() {
    let mut daemon = Daemon::new(1000, 1000);
    daemon.set_clock(1_700_000_000);
    let mut ctx = Context::new();
    let cred = encode(b"from the future", Some(&ctx), &mut daemon).unwrap();

    daemon.set_clock(1_699_999_000);
    let err = decode(cred, &mut ctx, &mut daemon).unwrap_err();
    assert_eq!(kind_of(err), MungeError::CredRewound);
}

#[test]
fn mac_none_is_refused_at_encode() {
    let mut daemon = Daemon::new(1000, 1000);
    let mut ctx = Context::new();
    ctx.set_mac(MungeMac::MacNone).unwrap();
    let err = encode(b"unprotected", Some(&ctx), &mut daemon).unwrap_err();
    assert_eq!(kind_of(err), MungeError::BadMac);
}

#[test]
fn oversized_payload_is_bad_length() {
    let mut daemon = Daemon::new(1000, 1000);
    let payload = vec![7u8; 1048577];
    let err = encode(&payload, None, &mut daemon).unwrap_err();
    assert_eq!(kind_of(err), MungeError::BadLength);
    // the boundary itself is accepted
    let payload = vec![7u8; 1048576];
    assert!(encode(&payload, None, &mut daemon).is_ok());
}

#[test]
fn out_of_range_time_is_invalid_time() {
    let mut daemon = Daemon::new(1000, 1000);
    daemon.set_clock(20_000_000_000_000);
    let mut ctx = Context::new();
    let cred = encode(b"far future", Some(&ctx), &mut daemon).unwrap();
    decode(cred, &mut ctx, &mut daemon).unwrap();
    assert_eq!(ctx.encode_time().unwrap_err(), Error::InvalidTime);
    assert_eq!(ctx.decode_time().unwrap_err(), Error::InvalidTime);
}

#[test]
fn error_code_round_trip() {
    for code in 1..=18u32 {
        assert_eq!(MungeError::from_u32(code).to_u32(), code);
    }
    assert_eq!(MungeError::from_u32(0), MungeError::BadArg);
    assert_eq!(MungeError::from_u32(19), MungeError::BadArg);
    assert_eq!(MungeError::from_u32(u32::MAX), MungeError::BadArg);
    assert_eq!(MungeError::BadRealm.to_u32(), 13);
    assert_eq!(MungeError::CredUnauthorized.to_u32(), 18);
}

#[test]
fn enum_conversions() {
    assert_eq!(MungeCipher::from_u32(5), Ok(MungeCipher::Aes256));
    assert_eq!(MungeCipher::from_u32(6), Err(Error::TryFromPrimitiveCipher(6)));
    assert_eq!(MungeMac::from_u32(6), Ok(MungeMac::SHA512));
    assert_eq!(MungeMac::from_u32(7), Err(Error::TryFromPrimitiveMac(7)));
    assert_eq!(MungeZip::from_u32(3), Ok(MungeZip::Zlib));
    assert_eq!(MungeZip::from_u32(4), Err(Error::TryFromPrimitiveZip(4)));
    assert_eq!(MungeCipher::Aes128.to_u32(), 4);
    assert_eq!(MungeMac::RIPEMD160.to_u32(), 4);
    assert_eq!(MungeZip::Bzlib.to_u32(), 2);
}
