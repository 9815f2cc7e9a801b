use vstd::prelude::*;

use crate::codec::{
    chars_of_bytes, frame_bytes, has_nul, lemma_armor_ascii, lemma_encode_utf8_chars_of_bytes,
};
use crate::credential::Credential;
use crate::ctx::Context;
use crate::daemon::{
    default_opts, encode_frame, opts_of, spec_decode, spec_encode, CtxOpts, Daemon,
};
use crate::enums::{Error, MungeError};
use vstd::string::StrSliceExecFns;

verus! {

/// Relies on `String::from_utf8`: bytes below 128 are ASCII and decode to
/// the string carrying exactly those bytes as its characters.
#[verifier::external_body]
fn ascii_to_string(bytes: Vec<u8>) -> (r: String)
    requires
        forall|i: int| 0 <= i < bytes@.len() ==> bytes@[i] < 128,
    ensures
        r@ == chars_of_bytes(bytes@),
{
    String::from_utf8(bytes).unwrap()
}

/// The encode options an optional context argument selects: the context's
/// own where one is given, the defaults where none is.
pub open spec fn opts_arg(ctx: Option<&Context>) -> CtxOpts {
    match ctx {
        Some(c) => opts_of(*c),
        None => default_opts(),
    }
}

/// Encodes a payload into a printable credential string through the given
/// service, under the options of `ctx`, or of a fresh default context if
/// none is given.
///
/// A payload with an embedded NUL is refused locally, before the service
/// sees anything.  Everything else — the refused option and payload cases,
/// the issued credential's content, and the advance of the service's serial
/// number — is exactly what [`spec_encode`] says.
pub fn encode(msg: &[u8], ctx: Option<&Context>, daemon: &mut Daemon) -> (r: Result<String, Error>)
    ensures
        msg@.contains(0u8) ==> (r == Err::<String, Error>(Error::InnerNull) && final(daemon)@
            == old(daemon)@),
        !msg@.contains(0u8) ==> ({
            let (d2, rr) = spec_encode(old(daemon)@, opts_arg(ctx), msg@);
            &&& final(daemon)@ == d2
            &&& (match (r, rr) {
                (Ok(s), Ok(b)) => s@ == chars_of_bytes(b) && vstd::utf8::encode_utf8(s@) == b,
                (Err(e), Err(me)) => (e matches Error::MungeError(k, ds) && k == me && ds@
                    == me.desc_chars()),
                _ => false,
            })
        }),
{
    if has_nul(msg) {
        return Err(Error::InnerNull);
    }
    let r = match ctx {
        Some(c) => daemon.process_encode(c, msg),
        None => {
            let c = Context::new();
            proof {
                assert(opts_of(c) == default_opts());
            }
            daemon.process_encode(&c, msg)
        },
    };
    match r {
        Ok(bytes) => {
            proof {
                lemma_armor_ascii(frame_bytes(encode_frame(old(daemon)@, opts_arg(ctx), msg@)));
                lemma_encode_utf8_chars_of_bytes(bytes@);
            }
            Ok(ascii_to_string(bytes))
        },
        Err(me) => Err(Error::MungeError(me, me.desc())),
    }
}

/// Decodes a credential string through the given service, recovering the
/// payload and the attested identity, and populating the context's decode
/// metadata: origin address, encode and decode times, and the restriction
/// echo.
///
/// A string with an embedded NUL is refused locally, before the service
/// sees anything; a failed decode leaves the context untouched.  The
/// validation itself — armor, frame, version, integrity, tags, replay,
/// expiry, rewind and restrictions — is exactly what [`spec_decode`] says
/// of the string's UTF-8 bytes.
pub fn decode(encoded_msg: String, ctx: &mut Context, daemon: &mut Daemon) -> (r: Result<
    Credential,
    Error,
>)
    ensures
        ({
            let b = vstd::utf8::encode_utf8(encoded_msg@);
            &&& b.contains(0u8) ==> (r == Err::<Credential, Error>(Error::InnerNull)
                && final(daemon)@ == old(daemon)@ && *final(ctx) == *old(ctx))
            &&& !b.contains(0u8) ==> ({
                let (d2, rr) = spec_decode(old(daemon)@, b);
                &&& final(daemon)@ == d2
                &&& (match (r, rr) {
                    (Ok(cred), Ok(f)) => cred.uid == f.uid && cred.gid == f.gid && cred.message@
                        == f.payload && *final(ctx) == (Context {
                        addr4: Some(f.addr),
                        encode_time: Some(f.etime),
                        decode_time: Some(d2.clock),
                        uid_restriction: f.uid_res,
                        gid_restriction: f.gid_res,
                        ..*old(ctx)
                    }),
                    (Err(e), Err(me)) => (e matches Error::MungeError(k, ds) && k == me && ds@
                        == me.desc_chars()) && *final(ctx) == *old(ctx),
                    _ => false,
                })
            })
        }),
{
    let bytes = encoded_msg.as_str().as_bytes_vec();
    if has_nul(bytes.as_slice()) {
        return Err(Error::InnerNull);
    }
    match daemon.process_decode(&bytes) {
        Ok(f) => {
            let dt = daemon.clock();
            ctx.addr4 = Some(f.addr);
            ctx.encode_time = Some(f.etime);
            ctx.decode_time = Some(dt);
            ctx.uid_restriction = f.uid_res;
            ctx.gid_restriction = f.gid_res;
            Ok(Credential { uid: f.uid, gid: f.gid, message: f.payload })
        },
        Err(me) => Err(Error::MungeError(me, me.desc())),
    }
}

/// The human-readable description of a numeric status code: the success
/// text for `0`, each error kind's description for its code, and nothing
/// for any other value.
pub fn str_error(e: u32) -> (r: Option<String>)
    ensures
        e == 0 ==> (r matches Some(s) && s@ == "Success"@),
        1 <= e <= 18 ==> (r matches Some(s) && (forall|k: MungeError|
            #[trigger] k.code() == e ==> s@ == k.desc_chars())),
        e > 18 ==> r is None,
{
    if e == 0 {
        Some(String::from_str("Success"))
    } else if e <= 18 {
        let m = MungeError::from_u32(e);
        let s = m.desc();
        proof {
            assert forall|k: MungeError| #[trigger] k.code() == e implies s@ == k.desc_chars() by {
                assert(k.code() == m.code());
                assert(k == m);
            }
        }
        Some(s)
    } else {
        None
    }
}

} // verus!
