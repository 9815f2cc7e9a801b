use vstd::prelude::*;

use crate::codec::{armor_bytes, frame_body, frame_bytes, frame_to_bytes, parse_armor,
    parse_frame, FRAME_MIN_LEN, MAX_PAYLOAD};
use crate::ctx::Context;
use crate::daemon::{encode_frame, opts_of, spec_decode, spec_encode, CtxOpts, Daemon, DaemonV};
use crate::enums::{MungeCipher, MungeError, MungeMac, MungeZip};

verus! {

/// Operation tag of an encode request.
pub const OP_ENCODE: u8 = 1;

/// Operation tag of a decode request.
pub const OP_DECODE: u8 = 2;

/// A request to the credential service, as the client frames it: either
/// the options and payload to encode, or the credential bytes to decode.
pub enum Request {
    /// Encode `payload` under `opts`.
    Encode {
        /// The caller's encode options.
        opts: CtxOpts,
        /// The payload to bind into the credential.
        payload: Vec<u8>,
    },
    /// Decode the armored credential `cred`.
    Decode {
        /// The armored credential bytes.
        cred: Vec<u8>,
    },
}

/// The mathematical view of a [`Request`].
pub enum RequestV {
    /// Encode `payload` under `opts`.
    Encode {
        /// The caller's encode options.
        opts: CtxOpts,
        /// The payload bytes.
        payload: Seq<u8>,
    },
    /// Decode the armored credential `cred`.
    Decode {
        /// The armored credential bytes.
        cred: Seq<u8>,
    },
}

impl View for Request {
    type V = RequestV;

    open spec fn view(&self) -> RequestV {
        match self {
            Request::Encode { opts, payload } => RequestV::Encode {
                opts: *opts,
                payload: payload@,
            },
            Request::Decode { cred } => RequestV::Decode { cred: cred@ },
        }
    }
}

/// The response of the credential service: a granted operation's result
/// bytes, or the status code it was refused with.
pub enum Response {
    /// The operation succeeded; for an encode the body is the armored
    /// credential, for a decode the accepted frame's serialized bytes.
    Granted {
        /// The result bytes.
        body: Vec<u8>,
    },
    /// The operation was refused with this status code.
    Refused {
        /// The nonzero status code.
        code: u32,
    },
}

/// The mathematical view of a [`Response`].
pub enum ResponseV {
    /// The operation succeeded with these result bytes.
    Granted {
        /// The result bytes.
        body: Seq<u8>,
    },
    /// The operation was refused with this status code.
    Refused {
        /// The nonzero status code.
        code: u32,
    },
}

impl View for Response {
    type V = ResponseV;

    open spec fn view(&self) -> ResponseV {
        match self {
            Response::Granted { body } => ResponseV::Granted { body: body@ },
            Response::Refused { code } => ResponseV::Refused { code: *code },
        }
    }
}

/// The wire bytes of a request: the operation tag, then for an encode the
/// three type tags, the TTL, the two restrictions and the length-prefixed
/// payload, and for a decode the length-prefixed credential.
pub open spec fn request_bytes(r: RequestV) -> Seq<u8> {
    match r {
        RequestV::Encode { opts, payload } => seq![
            OP_ENCODE,
            opts.cipher.code() as u8,
            opts.mac.code() as u8,
            opts.zip.code() as u8,
        ] + vstd::bytes::spec_u32_to_le_bytes(opts.ttl) + vstd::bytes::spec_u32_to_le_bytes(
            opts.uid_res,
        ) + vstd::bytes::spec_u32_to_le_bytes(opts.gid_res) + vstd::bytes::spec_u32_to_le_bytes(
            payload.len() as u32,
        ) + payload,
        RequestV::Decode { cred } => seq![OP_DECODE] + vstd::bytes::spec_u32_to_le_bytes(
            cred.len() as u32,
        ) + cred,
    }
}

/// Recovers a request from its wire bytes: the inverse of
/// [`request_bytes`] on well-formed input, nothing on anything else.
pub open spec fn parse_request(b: Seq<u8>) -> Option<RequestV> {
    if b.len() >= 1 && b[0] == OP_ENCODE {
        if b.len() >= 20 && b.len() == 20 + vstd::bytes::spec_u32_from_le_bytes(
            b.subrange(16, 20),
        ) as int {
            let cipher = spec_cipher_of(b[1]);
            let mac = spec_mac_of(b[2]);
            let zip = spec_zip_of(b[3]);
            if cipher is Some && mac is Some && zip is Some {
                Some(
                    RequestV::Encode {
                        opts: CtxOpts {
                            cipher: cipher->Some_0,
                            mac: mac->Some_0,
                            zip: zip->Some_0,
                            ttl: vstd::bytes::spec_u32_from_le_bytes(b.subrange(4, 8)),
                            uid_res: vstd::bytes::spec_u32_from_le_bytes(b.subrange(8, 12)),
                            gid_res: vstd::bytes::spec_u32_from_le_bytes(b.subrange(12, 16)),
                        },
                        payload: b.subrange(20, b.len() as int),
                    },
                )
            } else {
                None
            }
        } else {
            None
        }
    } else if b.len() >= 5 && b[0] == OP_DECODE && b.len() == 5
        + vstd::bytes::spec_u32_from_le_bytes(b.subrange(1, 5)) as int {
        Some(RequestV::Decode { cred: b.subrange(5, b.len() as int) })
    } else {
        None
    }
}

/// The cipher type a tag byte names, if any.
pub open spec fn spec_cipher_of(v: u8) -> Option<MungeCipher> {
    if v == 0 {
        Some(MungeCipher::CipherNone)
    } else if v == 1 {
        Some(MungeCipher::Default)
    } else if v == 2 {
        Some(MungeCipher::Blowfish)
    } else if v == 3 {
        Some(MungeCipher::Cast5)
    } else if v == 4 {
        Some(MungeCipher::Aes128)
    } else if v == 5 {
        Some(MungeCipher::Aes256)
    } else {
        None
    }
}

/// The MAC type a tag byte names, if any.
pub open spec fn spec_mac_of(v: u8) -> Option<MungeMac> {
    if v == 0 {
        Some(MungeMac::MacNone)
    } else if v == 1 {
        Some(MungeMac::Default)
    } else if v == 2 {
        Some(MungeMac::MD5)
    } else if v == 3 {
        Some(MungeMac::SHA1)
    } else if v == 4 {
        Some(MungeMac::RIPEMD160)
    } else if v == 5 {
        Some(MungeMac::SHA256)
    } else if v == 6 {
        Some(MungeMac::SHA512)
    } else {
        None
    }
}

/// The compression type a tag byte names, if any.
pub open spec fn spec_zip_of(v: u8) -> Option<MungeZip> {
    if v == 0 {
        Some(MungeZip::ZipNone)
    } else if v == 1 {
        Some(MungeZip::Default)
    } else if v == 2 {
        Some(MungeZip::Bzlib)
    } else if v == 3 {
        Some(MungeZip::Zlib)
    } else {
        None
    }
}

/// Framing a request loses nothing: its wire bytes parse back to the same
/// request.
pub proof fn lemma_parse_request_bytes(r: RequestV)
    requires
        (r matches RequestV::Encode { payload, .. } ==> payload.len() <= MAX_PAYLOAD),
        (r matches RequestV::Decode { cred } ==> cred.len() <= 0xffff_ffff),
    ensures
        parse_request(request_bytes(r)) == Some(r),
{
    vstd::bytes::lemma_auto_spec_u32_to_from_le_bytes();
    let b = request_bytes(r);
    match r {
        RequestV::Encode { opts, payload } => {
            assert(b.len() == 20 + payload.len());
            assert(b.subrange(4, 8) =~= vstd::bytes::spec_u32_to_le_bytes(opts.ttl));
            assert(b.subrange(8, 12) =~= vstd::bytes::spec_u32_to_le_bytes(opts.uid_res));
            assert(b.subrange(12, 16) =~= vstd::bytes::spec_u32_to_le_bytes(opts.gid_res));
            assert(b.subrange(16, 20) =~= vstd::bytes::spec_u32_to_le_bytes(
                payload.len() as u32,
            ));
            assert(b.subrange(20, b.len() as int) =~= payload);
            assert(spec_cipher_of(opts.cipher.code() as u8) == Some(opts.cipher));
            assert(spec_mac_of(opts.mac.code() as u8) == Some(opts.mac));
            assert(spec_zip_of(opts.zip.code() as u8) == Some(opts.zip));
        },
        RequestV::Decode { cred } => {
            assert(b.len() == 5 + cred.len());
            assert(b[0] != OP_ENCODE);
            assert(b.subrange(1, 5) =~= vstd::bytes::spec_u32_to_le_bytes(cred.len() as u32));
            assert(b.subrange(5, b.len() as int) =~= cred);
        },
    }
}

/// The wire bytes of a response: the status code (zero for success), and
/// for a granted operation the length-prefixed result bytes.
pub open spec fn response_bytes(r: ResponseV) -> Seq<u8> {
    match r {
        ResponseV::Granted { body } => vstd::bytes::spec_u32_to_le_bytes(0) +
            vstd::bytes::spec_u32_to_le_bytes(body.len() as u32) + body,
        ResponseV::Refused { code } => vstd::bytes::spec_u32_to_le_bytes(code),
    }
}

/// Recovers a response from its wire bytes.
pub open spec fn parse_response(b: Seq<u8>) -> Option<ResponseV> {
    if b.len() == 4 && vstd::bytes::spec_u32_from_le_bytes(b) != 0 {
        Some(ResponseV::Refused { code: vstd::bytes::spec_u32_from_le_bytes(b) })
    } else if b.len() >= 8 && vstd::bytes::spec_u32_from_le_bytes(b.subrange(0, 4)) == 0
        && b.len() == 8 + vstd::bytes::spec_u32_from_le_bytes(b.subrange(4, 8)) as int {
        Some(ResponseV::Granted { body: b.subrange(8, b.len() as int) })
    } else {
        None
    }
}

/// Framing a response loses nothing: its wire bytes parse back to the same
/// response, for bodies that fit the length prefix and nonzero codes.
pub proof fn lemma_parse_response_bytes(r: ResponseV)
    requires
        (r matches ResponseV::Granted { body } ==> body.len() <= 0xffff_ffff),
        (r matches ResponseV::Refused { code } ==> code != 0),
    ensures
        parse_response(response_bytes(r)) == Some(r),
{
    vstd::bytes::lemma_auto_spec_u32_to_from_le_bytes();
    let b = response_bytes(r);
    match r {
        ResponseV::Granted { body } => {
            assert(b.len() == 8 + body.len());
            assert(b.subrange(0, 4) =~= vstd::bytes::spec_u32_to_le_bytes(0));
            assert(b.subrange(4, 8) =~= vstd::bytes::spec_u32_to_le_bytes(body.len() as u32));
            assert(b.subrange(8, b.len() as int) =~= body);
            if b.len() == 4 {
                assert(body.len() + 8 == 4);  // impossible
            }
        },
        ResponseV::Refused { code } => {
            assert(b =~= b.subrange(0, 4));
        },
    }
}


/// Serializes a request into its wire bytes.
pub fn request_to_bytes(r: &Request) -> (out: Vec<u8>)
    requires
        (r@ matches RequestV::Encode { payload, .. } ==> payload.len() <= MAX_PAYLOAD),
        (r@ matches RequestV::Decode { cred } ==> cred.len() <= 0xffff_ffff),
    ensures
        out@ == request_bytes(r@),
{
    let mut out: Vec<u8> = Vec::new();
    match r {
        Request::Encode { opts, payload } => {
            out.push(OP_ENCODE);
            out.push(opts.cipher.to_u32() as u8);
            out.push(opts.mac.to_u32() as u8);
            out.push(opts.zip.to_u32() as u8);
            let mut t = vstd::bytes::u32_to_le_bytes(opts.ttl);
            out.append(&mut t);
            let mut t = vstd::bytes::u32_to_le_bytes(opts.uid_res);
            out.append(&mut t);
            let mut t = vstd::bytes::u32_to_le_bytes(opts.gid_res);
            out.append(&mut t);
            let mut t = vstd::bytes::u32_to_le_bytes(payload.len() as u32);
            out.append(&mut t);
            let n = payload.len();
            let mut i: usize = 0;
            while i < n
                invariant
                    n == payload@.len(),
                    i <= n,
                    out@ == request_bytes(r@).subrange(0, 20 + i as int),
                    r@ == (RequestV::Encode { opts: *opts, payload: payload@ }),
                    request_bytes(r@).len() == 20 + n,
                decreases n - i,
            {
                out.push(payload[i]);
                proof {
                    assert(request_bytes(r@)[20 + i as int] == payload@[i as int]);
                    assert(out@ =~= request_bytes(r@).subrange(0, 20 + (i + 1) as int));
                }
                i = i + 1;
            }
            proof {
                assert(out@ =~= request_bytes(r@));
            }
        },
        Request::Decode { cred } => {
            out.push(OP_DECODE);
            let mut t = vstd::bytes::u32_to_le_bytes(cred.len() as u32);
            out.append(&mut t);
            let n = cred.len();
            let mut i: usize = 0;
            while i < n
                invariant
                    n == cred@.len(),
                    i <= n,
                    out@ == request_bytes(r@).subrange(0, 5 + i as int),
                    r@ == (RequestV::Decode { cred: cred@ }),
                    request_bytes(r@).len() == 5 + n,
                decreases n - i,
            {
                out.push(cred[i]);
                proof {
                    assert(request_bytes(r@)[5 + i as int] == cred@[i as int]);
                    assert(out@ =~= request_bytes(r@).subrange(0, 5 + (i + 1) as int));
                }
                i = i + 1;
            }
            proof {
                assert(out@ =~= request_bytes(r@));
            }
        },
    }
    out
}

/// Parses wire bytes back into a request.
pub fn request_from_bytes(b: &Vec<u8>) -> (r: Option<Request>)
    ensures
        match r {
            Some(req) => parse_request(b@) == Some(req@),
            None => parse_request(b@) is None,
        },
{
    if b.len() >= 1 && *vstd::slice::slice_index_get(b.as_slice(), 0) == OP_ENCODE {
        if b.len() < 20 {
            return None;
        }
        let l = vstd::bytes::u32_from_le_bytes(vstd::slice::slice_subrange(b.as_slice(), 16, 20));
        if (b.len() - 20) as u64 != l as u64 {
            return None;
        }
        let cb = *vstd::slice::slice_index_get(b.as_slice(), 1);
        let mb = *vstd::slice::slice_index_get(b.as_slice(), 2);
        let zb = *vstd::slice::slice_index_get(b.as_slice(), 3);
        if cb > 5 || mb > 6 || zb > 3 {
            return None;
        }
        let cipher = match MungeCipher::from_u32(cb as u32) {
            Ok(c) => c,
            Err(_) => {
                return None;
            },
        };
        let mac = match MungeMac::from_u32(mb as u32) {
            Ok(m) => m,
            Err(_) => {
                return None;
            },
        };
        let zip = match MungeZip::from_u32(zb as u32) {
            Ok(z) => z,
            Err(_) => {
                return None;
            },
        };
        proof {
            assert(spec_cipher_of(b@[1]) == Some(cipher));
            assert(spec_mac_of(b@[2]) == Some(mac));
            assert(spec_zip_of(b@[3]) == Some(zip));
        }
        let req = Request::Encode {
            opts: CtxOpts {
                cipher,
                mac,
                zip,
                ttl: vstd::bytes::u32_from_le_bytes(
                    vstd::slice::slice_subrange(b.as_slice(), 4, 8),
                ),
                uid_res: vstd::bytes::u32_from_le_bytes(
                    vstd::slice::slice_subrange(b.as_slice(), 8, 12),
                ),
                gid_res: vstd::bytes::u32_from_le_bytes(
                    vstd::slice::slice_subrange(b.as_slice(), 12, 16),
                ),
            },
            payload: vstd::slice::slice_to_vec(
                vstd::slice::slice_subrange(b.as_slice(), 20, b.len()),
            ),
        };
        proof {
            assert(parse_request(b@)->Some_0 =~~= req@);
        }
        Some(req)
    } else if b.len() >= 5 && *vstd::slice::slice_index_get(b.as_slice(), 0) == OP_DECODE {
        let l = vstd::bytes::u32_from_le_bytes(vstd::slice::slice_subrange(b.as_slice(), 1, 5));
        if (b.len() - 5) as u64 != l as u64 {
            return None;
        }
        let req = Request::Decode {
            cred: vstd::slice::slice_to_vec(
                vstd::slice::slice_subrange(b.as_slice(), 5, b.len()),
            ),
        };
        proof {
            assert(parse_request(b@)->Some_0 =~~= req@);
        }
        Some(req)
    } else {
        None
    }
}

/// Serializes a response into its wire bytes.
pub fn response_to_bytes(r: &Response) -> (out: Vec<u8>)
    requires
        (r@ matches ResponseV::Granted { body } ==> body.len() <= 0xffff_ffff),
    ensures
        out@ == response_bytes(r@),
{
    let mut out: Vec<u8> = Vec::new();
    match r {
        Response::Granted { body } => {
            let mut t = vstd::bytes::u32_to_le_bytes(0);
            out.append(&mut t);
            let mut t = vstd::bytes::u32_to_le_bytes(body.len() as u32);
            out.append(&mut t);
            let n = body.len();
            let mut i: usize = 0;
            while i < n
                invariant
                    n == body@.len(),
                    i <= n,
                    out@ == response_bytes(r@).subrange(0, 8 + i as int),
                    r@ == (ResponseV::Granted { body: body@ }),
                    response_bytes(r@).len() == 8 + n,
                decreases n - i,
            {
                out.push(body[i]);
                proof {
                    assert(response_bytes(r@)[8 + i as int] == body@[i as int]);
                    assert(out@ =~= response_bytes(r@).subrange(0, 8 + (i + 1) as int));
                }
                i = i + 1;
            }
            proof {
                assert(out@ =~= response_bytes(r@));
            }
        },
        Response::Refused { code } => {
            let mut t = vstd::bytes::u32_to_le_bytes(*code);
            out.append(&mut t);
            proof {
                assert(out@ =~= response_bytes(r@));
            }
        },
    }
    out
}

/// Parses wire bytes back into a response.
pub fn response_from_bytes(b: &Vec<u8>) -> (r: Option<Response>)
    ensures
        match r {
            Some(resp) => parse_response(b@) == Some(resp@),
            None => parse_response(b@) is None,
        },
{
    if b.len() < 4 {
        return None;
    }
    let code = vstd::bytes::u32_from_le_bytes(vstd::slice::slice_subrange(b.as_slice(), 0, 4));
    if b.len() == 4 {
        proof {
            assert(b@ =~= b@.subrange(0, 4));
        }
        if code != 0 {
            return Some(Response::Refused { code });
        }
        return None;
    }
    if code != 0 {
        return None;
    }
    if b.len() < 8 {
        return None;
    }
    let l = vstd::bytes::u32_from_le_bytes(vstd::slice::slice_subrange(b.as_slice(), 4, 8));
    if (b.len() - 8) as u64 != l as u64 {
        return None;
    }
    let resp = Response::Granted {
        body: vstd::slice::slice_to_vec(vstd::slice::slice_subrange(b.as_slice(), 8, b.len())),
    };
    proof {
        assert(parse_response(b@)->Some_0 =~~= resp@);
    }
    Some(resp)
}

/// What the service answers on the wire: its next state and the response
/// bytes.  An unparseable request is refused with the `BadArg` code; a
/// parsed one is served by [`spec_encode`] or [`spec_decode`], the granted
/// body being the armored credential or the accepted frame's bytes.
pub open spec fn spec_serve(d: DaemonV, b: Seq<u8>) -> (DaemonV, Seq<u8>) {
    match parse_request(b) {
        None => (d, response_bytes(ResponseV::Refused { code: 2 })),
        Some(RequestV::Encode { opts, payload }) => {
            let (d2, r) = spec_encode(d, opts, payload);
            match r {
                Ok(cred) => (d2, response_bytes(ResponseV::Granted { body: cred })),
                Err(me) => (d2, response_bytes(ResponseV::Refused { code: me.code() })),
            }
        },
        Some(RequestV::Decode { cred }) => {
            let (d2, r) = spec_decode(d, cred);
            match r {
                Ok(f) => (d2, response_bytes(ResponseV::Granted { body: frame_bytes(f) })),
                Err(me) => (d2, response_bytes(ResponseV::Refused { code: me.code() })),
            }
        },
    }
}

impl Daemon {
    /// Serves one wire request and frames the wire response, exactly as
    /// [`spec_serve`] says: the service side of a transport round trip.
    pub fn serve(&mut self, msg: &Vec<u8>) -> (r: Vec<u8>)
        ensures
            final(self)@ == spec_serve(old(self)@, msg@).0,
            r@ == spec_serve(old(self)@, msg@).1,
    {
        let req = match request_from_bytes(msg) {
            None => {
                return response_to_bytes(&Response::Refused { code: 2 });
            },
            Some(req) => req,
        };
        match req {
            Request::Encode { opts, payload } => {
                let mut c = Context::new();
                c.cipher = opts.cipher;
                c.mac = opts.mac;
                c.zip = opts.zip;
                c.ttl = opts.ttl;
                c.uid_restriction = opts.uid_res;
                c.gid_restriction = opts.gid_res;
                proof {
                    assert(opts_of(c) == opts);
                }
                match self.process_encode(&c, payload.as_slice()) {
                    Ok(cred) => {
                        proof {
                            vstd::bytes::lemma_auto_spec_u32_to_from_le_bytes();
                            vstd::bytes::lemma_auto_spec_u64_to_from_le_bytes();
                            let fb = frame_bytes(encode_frame(old(self)@, opts, payload@));
                            assert(frame_body(encode_frame(old(self)@, opts, payload@)).len()
                                == 48 + payload@.len());
                            assert(fb.len() == 52 + payload@.len());
                            assert(cred@ == armor_bytes(fb));
                            assert(cred@.len() == 7 + 2 * fb.len());
                        }
                        response_to_bytes(&Response::Granted { body: cred })
                    },
                    Err(me) => response_to_bytes(&Response::Refused { code: me.to_u32() }),
                }
            },
            Request::Decode { cred } => {
                match self.process_decode(&cred) {
                    Ok(f) => {
                        proof {
                            let fb = parse_armor(cred@)->Some_0;
                            assert(parse_frame(fb) == Some(f@));
                            assert(fb.len() <= FRAME_MIN_LEN + MAX_PAYLOAD);
                            assert(f@.payload.len() == fb.len() - 52);
                        }
                        let body = frame_to_bytes(&f);
                        proof {
                            vstd::bytes::lemma_auto_spec_u32_to_from_le_bytes();
                            vstd::bytes::lemma_auto_spec_u64_to_from_le_bytes();
                            assert(frame_body(f@).len() == 48 + f@.payload.len());
                            assert(body@.len() == 52 + f@.payload.len());
                        }
                        response_to_bytes(&Response::Granted { body })
                    },
                    Err(me) => response_to_bytes(&Response::Refused { code: me.to_u32() }),
                }
            },
        }
    }
}



/// The wire endpoint is faithful for encodes: serving a framed encode
/// request performs exactly [`spec_encode`], answering the armored
/// credential when granted and the status code when refused.
pub proof fn lemma_serve_encode(d: DaemonV, o: CtxOpts, p: Seq<u8>)
    requires
        p.len() <= MAX_PAYLOAD,
    ensures
        ({
            let b = request_bytes(RequestV::Encode { opts: o, payload: p });
            let (d2, r) = spec_encode(d, o, p);
            spec_serve(d, b) == (
                d2,
                match r {
                    Ok(cred) => response_bytes(ResponseV::Granted { body: cred }),
                    Err(me) => response_bytes(ResponseV::Refused { code: me.code() }),
                },
            )
        }),
{
    lemma_parse_request_bytes(RequestV::Encode { opts: o, payload: p });
}

/// The wire endpoint is faithful for decodes: serving a framed decode
/// request performs exactly [`spec_decode`], answering the accepted
/// frame's bytes when granted and the status code when refused.
pub proof fn lemma_serve_decode(d: DaemonV, cred: Seq<u8>)
    requires
        cred.len() <= 0xffff_ffff,
    ensures
        ({
            let b = request_bytes(RequestV::Decode { cred });
            let (d2, r) = spec_decode(d, cred);
            spec_serve(d, b) == (
                d2,
                match r {
                    Ok(f) => response_bytes(ResponseV::Granted { body: frame_bytes(f) }),
                    Err(me) => response_bytes(ResponseV::Refused { code: me.code() }),
                },
            )
        }),
{
    lemma_parse_request_bytes(RequestV::Decode { cred });
}


} // verus!
