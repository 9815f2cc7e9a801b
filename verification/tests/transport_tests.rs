use munge_rs::{
    request_from_bytes, request_to_bytes, response_from_bytes, response_to_bytes, CtxOpts, Daemon,
    MungeCipher, MungeMac, MungeZip, Request, Response,
};

fn sha256_opts() -> CtxOpts {
    CtxOpts {
        cipher: MungeCipher::Default,
        mac: MungeMac::SHA256,
        zip: MungeZip::ZipNone,
        ttl: 0,
        uid_res: u32::MAX,
        gid_res: u32::MAX,
    }
}

#[test]
fn request_framing_round_trip() {
    let req = Request::Encode {
        opts: sha256_opts(),
        payload: b"over the wire".to_vec(),
    };
    let wire = request_to_bytes(&req);
    match request_from_bytes(&wire).unwrap() {
        Request::Encode { opts, payload } => {
            assert_eq!(opts, sha256_opts());
            assert_eq!(payload, b"over the wire".to_vec());
        }
        _ => panic!("wrong request kind"),
    }

    let req = Request::Decode {
        cred: b"MUNGE:00:".to_vec(),
    };
    let wire = request_to_bytes(&req);
    match request_from_bytes(&wire).unwrap() {
        Request::Decode { cred } => assert_eq!(cred, b"MUNGE:00:".to_vec()),
        _ => panic!("wrong request kind"),
    }
}

#[test]
fn response_framing_round_trip() {
    let wire = response_to_bytes(&Response::Granted {
        body: b"abc".to_vec(),
    });
    match response_from_bytes(&wire).unwrap() {
        Response::Granted { body } => assert_eq!(body, b"abc".to_vec()),
        _ => panic!("wrong response kind"),
    }

    let wire = response_to_bytes(&Response::Refused { code: 15 });
    match response_from_bytes(&wire).unwrap() {
        Response::Refused { code } => assert_eq!(code, 15),
        _ => panic!("wrong response kind"),
    }
}

#[test]
fn serve_encode_then_decode() {
    let mut daemon = Daemon::new(1000, 1000);
    daemon.set_clock(1_700_000_000);

    let wire = request_to_bytes(&Request::Encode {
        opts: sha256_opts(),
        payload: b"wire payload".to_vec(),
    });
    let answer = daemon.serve(&wire);
    let cred = match response_from_bytes(&answer).unwrap() {
        Response::Granted { body } => body,
        Response::Refused { code } => panic!("refused with {}", code),
    };
    assert!(cred.starts_with(b"MUNGE:"));

    let wire = request_to_bytes(&Request::Decode { cred: cred.clone() });
    let answer = daemon.serve(&wire);
    let frame = match response_from_bytes(&answer).unwrap() {
        Response::Granted { body } => body,
        Response::Refused { code } => panic!("refused with {}", code),
    };
    // the served frame carries the payload: its last bytes before the
    // 4-byte integrity tag are the payload bytes
    let body_end = frame.len() - 4;
    assert_eq!(&frame[body_end - 12..body_end], b"wire payload");

    // a second decode of the same credential is refused with the replay code
    let wire = request_to_bytes(&Request::Decode { cred });
    let answer = daemon.serve(&wire);
    match response_from_bytes(&answer).unwrap() {
        Response::Refused { code } => assert_eq!(code, 17),
        _ => panic!("replay must be refused"),
    }
}

#[test]
fn serve_refuses_bad_requests() {
    let mut daemon = Daemon::new(1000, 1000);

    // an unparseable request is refused with the bad-argument code
    let answer = daemon.serve(&b"nonsense".to_vec());
    match response_from_bytes(&answer).unwrap() {
        Response::Refused { code } => assert_eq!(code, 2),
        _ => panic!("garbage must be refused"),
    }

    // a MAC type of none is refused with the bad-MAC code
    let mut opts = sha256_opts();
    opts.mac = MungeMac::MacNone;
    let wire = request_to_bytes(&Request::Encode {
        opts,
        payload: b"x".to_vec(),
    });
    let answer = daemon.serve(&wire);
    match response_from_bytes(&answer).unwrap() {
        Response::Refused { code } => assert_eq!(code, 11),
        _ => panic!("MAC none must be refused"),
    }
}
