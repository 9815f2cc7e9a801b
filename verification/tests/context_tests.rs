use munge_rs::{Context, Error, MungeCipher, MungeError, MungeMac, MungeOption, MungeZip};

#[test]
fn getter_test() {
    let ctx = Context::new();
    let res = ctx.socket().unwrap();
    let i = ctx.get_ctx_opt(MungeOption::TTL).unwrap();
    println!("Result: {:?}", res);
    println!("TTL: {}", i);
    println!();
}

#[test]
fn set_ctx_opt() {
    let mut ctx = Context::new();
    assert!(ctx
        .set_ctx_opt(MungeOption::ZIP_TYPE, MungeZip::Bzlib.to_u32())
        .is_ok());
    assert!(ctx
        .set_ctx_opt(MungeOption::MAC_TYPE, MungeMac::SHA256.to_u32())
        .is_ok());
    assert!(ctx
        .set_ctx_opt(MungeOption::CIPHER_TYPE, MungeCipher::Aes256.to_u32())
        .is_ok());
    assert!(ctx.set_ctx_opt(MungeOption::TTL, 180).is_ok());
}

#[test]
fn new_context_defaults() {
    let ctx = Context::new();
    assert_eq!(ctx.socket().unwrap(), "/var/run/munge/munge.socket");
    assert_eq!(ctx.cipher().unwrap(), MungeCipher::Default);
    assert_eq!(ctx.mac().unwrap(), MungeMac::Default);
    assert_eq!(ctx.zip().unwrap(), MungeZip::Default);
    assert_eq!(ctx.ttl().unwrap(), 0);
    assert_eq!(ctx.uid_restriction().unwrap(), u32::MAX);
    assert_eq!(ctx.gid_restriction().unwrap(), u32::MAX);
}

#[test]
fn setters_read_back() {
    let mut ctx = Context::new();
    ctx.set_cipher(MungeCipher::Aes128).unwrap();
    ctx.set_mac(MungeMac::SHA512).unwrap();
    ctx.set_zip(MungeZip::Zlib).unwrap();
    ctx.set_ttl(180).unwrap();
    ctx.set_uid_restriction(42).unwrap();
    ctx.set_gid_restriction(43).unwrap();
    assert_eq!(ctx.cipher().unwrap(), MungeCipher::Aes128);
    assert_eq!(ctx.mac().unwrap(), MungeMac::SHA512);
    assert_eq!(ctx.zip().unwrap(), MungeZip::Zlib);
    assert_eq!(ctx.ttl().unwrap(), 180);
    assert_eq!(ctx.uid_restriction().unwrap(), 42);
    assert_eq!(ctx.gid_restriction().unwrap(), 43);
}

#[test]
fn set_socket_read_back() {
    let mut ctx = Context::new();
    ctx.set_socket(b"/tmp/munge.sock".to_vec()).unwrap();
    assert_eq!(ctx.socket().unwrap(), "/tmp/munge.sock");
}

#[test]
fn set_socket_non_utf8_fails_locally() {
    let mut ctx = Context::new();
    let before = ctx.socket().unwrap();
    let err = ctx.set_socket(vec![0x2f, 0xff, 0xfe, 0x41]).unwrap_err();
    assert_eq!(err, Error::NonUtf8SocketPath);
    // a failed setter corrupts nothing
    assert_eq!(ctx.socket().unwrap(), before);
}

#[test]
fn set_socket_inner_null_fails_locally() {
    let mut ctx = Context::new();
    let err = ctx.set_socket(b"/tmp/mu\0nge".to_vec()).unwrap_err();
    assert_eq!(err, Error::InnerNull);
    assert_eq!(ctx.socket().unwrap(), "/var/run/munge/munge.socket");
}

#[test]
fn set_socket_too_long_fails() {
    let mut ctx = Context::new();
    let err = ctx.set_socket(vec![b'a'; 108]).unwrap_err();
    assert!(matches!(
        err,
        Error::MungeError(MungeError::BadLength, _)
    ));
    assert_eq!(ctx.socket().unwrap(), "/var/run/munge/munge.socket");
    // the boundary itself is accepted
    assert!(ctx.set_socket(vec![b'a'; 107]).is_ok());
}

#[test]
fn set_ctx_opt_rejects_out_of_range() {
    let mut ctx = Context::new();
    assert_eq!(
        ctx.set_ctx_opt(MungeOption::CIPHER_TYPE, 6),
        Err(MungeError::BadArg)
    );
    assert_eq!(
        ctx.set_ctx_opt(MungeOption::MAC_TYPE, 7),
        Err(MungeError::BadArg)
    );
    assert_eq!(
        ctx.set_ctx_opt(MungeOption::ZIP_TYPE, 4),
        Err(MungeError::BadArg)
    );
    assert_eq!(
        ctx.set_ctx_opt(MungeOption::REALM, 1),
        Err(MungeError::BadArg)
    );
    // nothing was applied by the failed calls
    assert_eq!(ctx.cipher().unwrap(), MungeCipher::Default);
    assert_eq!(ctx.mac().unwrap(), MungeMac::Default);
    assert_eq!(ctx.zip().unwrap(), MungeZip::Default);
}

#[test]
fn metadata_getters_fail_before_decode() {
    let ctx = Context::new();
    assert!(matches!(
        ctx.addr4(),
        Err(Error::MungeError(MungeError::BadArg, _))
    ));
    assert!(matches!(
        ctx.encode_time(),
        Err(Error::MungeError(MungeError::BadArg, _))
    ));
    assert!(matches!(
        ctx.decode_time(),
        Err(Error::MungeError(MungeError::BadArg, _))
    ));
}
