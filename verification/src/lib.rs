//! A native client library for MUNGE-style credential authentication.
//!
//! A [`Context`] carries the options for an encode or decode operation
//! (cipher, MAC and compression choices, time-to-live, an optional UID/GID
//! restriction, and the path of the service socket), together with the
//! metadata that a successful decode reports back.  [`encode`] turns a byte
//! payload into an opaque, printable credential string bound to the caller's
//! UID and GID; [`decode`] validates such a string against the service's
//! clock and replay cache and recovers the payload and the attested identity.
//!
//! The service itself is the [`Daemon`]: an in-process authority over the
//! clock, the credential serial numbers and the replay cache, with a wire
//! endpoint ([`Daemon::serve`]) so that it can also stand behind a local
//! socket.  Its behaviour is specified by [`spec_encode`], [`spec_decode`]
//! and [`spec_serve`], and the laws of the credential life cycle — the
//! round trip, replay, expiry and restriction rules — are stated and proved
//! over those specifications.

mod codec;
mod credential;
mod ctx;
mod daemon;
mod enums;
mod munge;
mod munge_option;
mod transport;

pub use codec::{
    armor_bytes, chars_of_bytes, csum_of, frame_bytes, frame_csum_ok, hex_bytes,
    lemma_parse_armor_bytes, lemma_parse_frame_bytes, lemma_unhex_hex, parse_armor, parse_frame,
    sum_bytes, unhex, Frame, FrameV, CRED_VERSION, FRAME_MIN_LEN, MAX_PAYLOAD,
};
pub use credential::Credential;
pub use ctx::{rfc3339_of, Context, SOCKET_PATH_MAX, TTL_DEFAULT, UID_ANY};
pub use daemon::{
    daemon_inv, default_opts, effective_ttl, encode_frame, lemma_decode_expired,
    lemma_decode_replayed, lemma_decode_replayed_general, lemma_decode_unauthorized,
    lemma_encode_decode_roundtrip, lemma_steps_monotone, lemma_steps_preserve_inv, opts_of,
    restriction_mismatch, spec_decode, spec_encode, CtxOpts, Daemon, DaemonV, ADDR_LOOPBACK,
    CLOCK_SKEW, TTL_DEFAULT_SECS,
};
pub use enums::{Error, MungeCipher, MungeError, MungeMac, MungeZip};
pub use munge::{decode, encode, opts_arg, str_error};
pub use munge_option::MungeOption;
pub use transport::{
    lemma_parse_request_bytes, lemma_parse_response_bytes, lemma_serve_decode, lemma_serve_encode,
    parse_request, parse_response, request_bytes, request_from_bytes, request_to_bytes,
    response_bytes, response_from_bytes, response_to_bytes, spec_serve, Request, RequestV,
    Response, ResponseV, OP_DECODE, OP_ENCODE,
};
