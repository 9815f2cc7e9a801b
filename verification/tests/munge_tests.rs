use munge_rs::{decode, encode, str_error, Context, Daemon, MungeMac, MungeOption};

#[test]
fn str_error_test() {
    let err = str_error(13).unwrap();
    println!("Bad Realm Error: {err}");
}

#[test]
fn str_error_texts() {
    assert_eq!(str_error(0).unwrap(), "Success");
    assert_eq!(str_error(1).unwrap(), "Snafu error");
    assert_eq!(str_error(2).unwrap(), "Bad argument");
    assert_eq!(str_error(13).unwrap(), "Bad realm");
    assert_eq!(str_error(15).unwrap(), "Credential expired");
    assert_eq!(str_error(17).unwrap(), "Credential replayed");
    assert_eq!(str_error(18).unwrap(), "Credential unauthorized");
    assert_eq!(str_error(19), None);
    assert_eq!(str_error(9999), None);
}

#[test]
fn encode_test() {
    let mut daemon = Daemon::new(1000, 1000);
    let cred = encode("Hello World! 'aaaa'".as_bytes(), None, &mut daemon)
        .expect("Failed to encode");
    println!("{:?}", cred);
}

#[test]
fn encode_test_w_ctx() {
    let mut daemon = Daemon::new(1000, 1000);
    let mut ctx = Context::new();
    let socket = ctx.socket().expect("Failed to get socket.");
    ctx.set_socket(socket.into_bytes())
        .expect("Failed to set socket.");
    ctx.set_ctx_opt(MungeOption::MAC_TYPE, MungeMac::RIPEMD160.to_u32())
        .expect("Failed to set MAC type");
    let cred = encode("Hello World!".as_bytes(), Some(&ctx), &mut daemon)
        .expect("Failed to encode");
    println!("Cred with context: {:?}", cred);
}

#[test]
fn encode_decode() {
    let mut daemon = Daemon::new(1000, 1000);
    let cred = encode("Goodbye cruel world...".as_bytes(), None, &mut daemon)
        .expect("Failed to encode");

    let mut ctx = Context::new();
    let res = decode(cred, &mut ctx, &mut daemon).expect("Failed to decode");
    println!("Result: {:?}", res);
}

#[test]
fn credential_string_is_printable() {
    let mut daemon = Daemon::new(7, 8);
    let cred = encode(b"payload with bytes", None, &mut daemon).unwrap();
    assert!(cred.starts_with("MUNGE:"));
    assert!(cred.ends_with(':'));
    assert!(cred.is_ascii());
    assert!(!cred.contains('\0'));
}
