use vstd::prelude::*;

use crate::codec::{
    armor_bytes, armor_decode, armor_encode, frame_bytes, frame_csum_check, frame_csum_ok,
    frame_from_bytes, frame_to_bytes, lemma_parse_armor_bytes, lemma_parse_frame_bytes,
    parse_armor, parse_frame, Frame, FrameV, CRED_VERSION, FRAME_MIN_LEN, MAX_PAYLOAD,
};
use crate::ctx::{Context, TTL_DEFAULT, UID_ANY};
use crate::enums::{MungeError, MungeMac};

verus! {

/// Validity window, in seconds, applied when a context leaves the TTL at
/// [`TTL_DEFAULT`].
pub const TTL_DEFAULT_SECS: u32 = 300;

/// Seconds of backward clock skew tolerated before a credential counts as
/// rewound.
pub const CLOCK_SKEW: u64 = 60;

/// The loopback address in network byte order: the origin the service
/// stamps into credentials encoded by local callers.
pub const ADDR_LOOPBACK: u32 = 0x0100_007f;

/// The mathematical view of a [`Daemon`]: the identity it attests for its
/// local caller, its address, its clock, the next credential serial number,
/// and the serial numbers of every credential decoded so far.
pub struct DaemonV {
    /// UID the service attests for its local caller.
    pub uid: u32,
    /// GID the service attests for its local caller.
    pub gid: u32,
    /// Origin address stamped into credentials, in network byte order.
    pub addr: u32,
    /// The service clock, in seconds since the epoch.
    pub clock: u64,
    /// Serial number the next encoded credential receives.
    pub seq: u64,
    /// Serial numbers of all successfully decoded credentials.
    pub replay: Seq<u64>,
}

/// Every serial number in the replay cache has been issued, that is, lies
/// below the next serial number.
pub open spec fn daemon_inv(d: DaemonV) -> bool {
    forall|i: int| 0 <= i < d.replay.len() ==> #[trigger] d.replay[i] < d.seq
}

/// The validity window a context's TTL setting selects.
pub open spec fn effective_ttl(ttl: u32) -> u32 {
    if ttl == TTL_DEFAULT {
        TTL_DEFAULT_SECS
    } else {
        ttl
    }
}

/// The options of a [`Context`] that matter to an encode request, as plain
/// values.
#[derive(Debug, Clone, Copy, PartialEq, Eq, Structural)]
pub struct CtxOpts {
    /// Cipher type applied to the payload.
    pub cipher: crate::enums::MungeCipher,
    /// MAC type protecting the credential.
    pub mac: MungeMac,
    /// Compression type applied to the payload.
    pub zip: crate::enums::MungeZip,
    /// Validity window setting.
    pub ttl: u32,
    /// UID restriction, or [`UID_ANY`].
    pub uid_res: u32,
    /// GID restriction, or [`UID_ANY`].
    pub gid_res: u32,
}

/// The encode options a context carries.
pub open spec fn opts_of(c: Context) -> CtxOpts {
    CtxOpts {
        cipher: c.cipher,
        mac: c.mac,
        zip: c.zip,
        ttl: c.ttl,
        uid_res: c.uid_restriction,
        gid_res: c.gid_restriction,
    }
}

/// The encode options of a freshly constructed context.
pub open spec fn default_opts() -> CtxOpts {
    CtxOpts {
        cipher: crate::enums::MungeCipher::Default,
        mac: MungeMac::Default,
        zip: crate::enums::MungeZip::Default,
        ttl: TTL_DEFAULT,
        uid_res: UID_ANY,
        gid_res: UID_ANY,
    }
}

/// The frame the service builds when it encodes `p` for a caller whose
/// options are `o`.
pub open spec fn encode_frame(d: DaemonV, o: CtxOpts, p: Seq<u8>) -> FrameV {
    FrameV {
        version: CRED_VERSION,
        cipher: o.cipher.code() as u8,
        mac: o.mac.code() as u8,
        zip: o.zip.code() as u8,
        nonce: d.seq,
        etime: d.clock,
        ttl: effective_ttl(o.ttl),
        addr: d.addr,
        uid: d.uid,
        gid: d.gid,
        uid_res: o.uid_res,
        gid_res: o.gid_res,
        payload: p,
    }
}

/// What the service does with an encode request: its next state and either
/// the armored credential bytes or the status kind it refuses with.  A MAC
/// type of `MacNone` is refused, as is an oversized payload; otherwise the
/// frame is built, serialized, armored, and the serial number advances.
pub open spec fn spec_encode(d: DaemonV, o: CtxOpts, p: Seq<u8>) -> (DaemonV, Result<
    Seq<u8>,
    MungeError,
>) {
    if o.mac == MungeMac::MacNone {
        (d, Err(MungeError::BadMac))
    } else if p.len() > MAX_PAYLOAD {
        (d, Err(MungeError::BadLength))
    } else if d.seq == 0xffff_ffff_ffff_ffff {
        (d, Err(MungeError::Snafu))
    } else {
        (
            DaemonV { seq: (d.seq + 1) as u64, ..d },
            Ok(armor_bytes(frame_bytes(encode_frame(d, o, p)))),
        )
    }
}

/// The judgement the service passes on a parsed frame `f` whose serialized
/// bytes are `fb`, in the order the checks run: version, size, integrity
/// tag, known serial number, cipher, MAC and compression tags, replay,
/// expiry, clock rewind, and the UID/GID restriction against the caller.
pub open spec fn decode_checks(d: DaemonV, fb: Seq<u8>, f: FrameV) -> Result<FrameV, MungeError> {
    if f.version != CRED_VERSION {
        Err(MungeError::BadVersion)
    } else if fb.len() > FRAME_MIN_LEN + MAX_PAYLOAD {
        Err(MungeError::BadLength)
    } else if !frame_csum_ok(fb) {
        Err(MungeError::CredInvalid)
    } else if f.nonce >= d.seq {
        Err(MungeError::CredInvalid)
    } else if f.cipher > 5 {
        Err(MungeError::BadCipher)
    } else if f.mac == 0 || f.mac > 6 {
        Err(MungeError::BadMac)
    } else if f.zip > 3 {
        Err(MungeError::BadZip)
    } else if d.replay.contains(f.nonce) {
        Err(MungeError::CredReplayed)
    } else if d.clock > f.etime + f.ttl {
        Err(MungeError::CredExpired)
    } else if f.etime > d.clock + CLOCK_SKEW {
        Err(MungeError::CredRewound)
    } else if f.uid_res != UID_ANY && f.uid_res != d.uid {
        Err(MungeError::CredUnauthorized)
    } else if f.gid_res != UID_ANY && f.gid_res != d.gid {
        Err(MungeError::CredUnauthorized)
    } else {
        Ok(f)
    }
}

/// What the service does with a decode request: its next state and either
/// the accepted frame or the status kind it refuses with.  Only a
/// successful decode changes the state, by recording the credential's
/// serial number in the replay cache.
pub open spec fn spec_decode(d: DaemonV, b: Seq<u8>) -> (DaemonV, Result<FrameV, MungeError>) {
    match parse_armor(b) {
        None => (d, Err(MungeError::BadCred)),
        Some(fb) => match parse_frame(fb) {
            None => (d, Err(MungeError::BadCred)),
            Some(f) => match decode_checks(d, fb, f) {
                Err(e) => (d, Err(e)),
                Ok(f) => (DaemonV { replay: d.replay.push(f.nonce), ..d }, Ok(f)),
            },
        },
    }
}

/// An in-process stand-in for the credential service: the authority over
/// the clock, the replay cache, and the identity attested for its caller.
///
/// Where the real service runs as a separate daemon behind a local socket,
/// this one is linked into the caller's process; its clock is advanced
/// explicitly, and the identity it attests is fixed when it is created, as
/// the socket credentials of a connecting client would be.
pub struct Daemon {
    uid: u32,
    gid: u32,
    addr: u32,
    clock: u64,
    seq: u64,
    replay: Vec<u64>,
}

impl View for Daemon {
    type V = DaemonV;

    closed spec fn view(&self) -> DaemonV {
        DaemonV {
            uid: self.uid,
            gid: self.gid,
            addr: self.addr,
            clock: self.clock,
            seq: self.seq,
            replay: self.replay@,
        }
    }
}

impl Daemon {
    #[verifier::type_invariant]
    spec fn wf(self) -> bool {
        daemon_inv(self@)
    }

    /// A fresh service attesting the given identity for its caller, with
    /// its clock at zero, no credential issued and none decoded.
    pub fn new(uid: u32, gid: u32) -> (r: Daemon)
        ensures
            r@ == (DaemonV {
                uid,
                gid,
                addr: ADDR_LOOPBACK,
                clock: 0,
                seq: 0,
                replay: Seq::<u64>::empty(),
            }),
    {
        Daemon { uid, gid, addr: ADDR_LOOPBACK, clock: 0, seq: 0, replay: Vec::new() }
    }

    /// Moves the service clock to `now`, given in seconds since the epoch.
    pub fn set_clock(&mut self, now: u64)
        ensures
            final(self)@ == (DaemonV { clock: now, ..old(self)@ }),
    {
        proof {
            use_type_invariant(&*self);
        }
        self.clock = now;
    }

    /// The service clock, in seconds since the epoch.
    pub fn clock(&self) -> (r: u64)
        ensures
            r == self@.clock,
    {
        self.clock
    }

    /// The UID the service attests for its caller.
    pub fn uid(&self) -> (r: u32)
        ensures
            r == self@.uid,
    {
        self.uid
    }

    /// The GID the service attests for its caller.
    pub fn gid(&self) -> (r: u32)
        ensures
            r == self@.gid,
    {
        self.gid
    }

    /// Serves an encode request: builds, serializes and armors the frame
    /// for `payload` under the options of `c`, or refuses with a status
    /// kind, exactly as [`spec_encode`] says.
    pub fn process_encode(&mut self, c: &Context, payload: &[u8]) -> (r: Result<Vec<u8>, MungeError>)
        ensures
            final(self)@ == spec_encode(old(self)@, opts_of(*c), payload@).0,
            match (r, spec_encode(old(self)@, opts_of(*c), payload@).1) {
                (Ok(v), Ok(b)) => v@ == b,
                (Err(e1), Err(e2)) => e1 == e2,
                _ => false,
            },
    {
        proof {
            use_type_invariant(&*self);
        }
        if c.mac == MungeMac::MacNone {
            return Err(MungeError::BadMac);
        }
        if payload.len() > MAX_PAYLOAD {
            return Err(MungeError::BadLength);
        }
        if self.seq == 0xffff_ffff_ffff_ffff {
            return Err(MungeError::Snafu);
        }
        let f = Frame {
            version: CRED_VERSION,
            cipher: c.cipher.to_u32() as u8,
            mac: c.mac.to_u32() as u8,
            zip: c.zip.to_u32() as u8,
            nonce: self.seq,
            etime: self.clock,
            ttl: if c.ttl == TTL_DEFAULT {
                TTL_DEFAULT_SECS
            } else {
                c.ttl
            },
            addr: self.addr,
            uid: self.uid,
            gid: self.gid,
            uid_res: c.uid_restriction,
            gid_res: c.gid_restriction,
            payload: vstd::slice::slice_to_vec(payload),
        };
        proof {
            assert(f@ == encode_frame(self@, opts_of(*c), payload@));
        }
        let fb = frame_to_bytes(&f);
        let out = armor_encode(&fb);
        self.seq = self.seq + 1;
        Ok(out)
    }

    /// Whether a credential with this serial number has been decoded
    /// before.
    fn replay_contains(&self, nonce: u64) -> (r: bool)
        ensures
            r == self@.replay.contains(nonce),
    {
        let n = self.replay.len();
        let mut i: usize = 0;
        while i < n
            invariant
                n == self@.replay.len(),
                i <= n,
                forall|j: int| 0 <= j < i ==> #[trigger] self@.replay[j] != nonce,
            decreases n - i,
        {
            if self.replay[i] == nonce {
                assert(self@.replay.contains(nonce));
                return true;
            }
            i = i + 1;
        }
        assert(!self@.replay.contains(nonce));
        false
    }

    /// Serves a decode request on armored credential bytes: validates the
    /// armor, the frame, and every rule of [`decode_checks`], records a
    /// success in the replay cache, and hands the accepted frame back,
    /// exactly as [`spec_decode`] says.
    pub fn process_decode(&mut self, cred: &Vec<u8>) -> (r: Result<Frame, MungeError>)
        ensures
            final(self)@ == spec_decode(old(self)@, cred@).0,
            match (r, spec_decode(old(self)@, cred@).1) {
                (Ok(f), Ok(fv)) => f@ == fv,
                (Err(e1), Err(e2)) => e1 == e2,
                _ => false,
            },
    {
        proof {
            use_type_invariant(&*self);
        }
        let fb = match armor_decode(cred) {
            None => {
                return Err(MungeError::BadCred);
            },
            Some(v) => v,
        };
        let f = match frame_from_bytes(&fb) {
            None => {
                return Err(MungeError::BadCred);
            },
            Some(f) => f,
        };
        if f.version != CRED_VERSION {
            return Err(MungeError::BadVersion);
        }
        if fb.len() > FRAME_MIN_LEN + MAX_PAYLOAD {
            return Err(MungeError::BadLength);
        }
        if !frame_csum_check(&fb) {
            return Err(MungeError::CredInvalid);
        }
        if f.nonce >= self.seq {
            return Err(MungeError::CredInvalid);
        }
        if f.cipher > 5 {
            return Err(MungeError::BadCipher);
        }
        if f.mac == 0 || f.mac > 6 {
            return Err(MungeError::BadMac);
        }
        if f.zip > 3 {
            return Err(MungeError::BadZip);
        }
        if self.replay_contains(f.nonce) {
            return Err(MungeError::CredReplayed);
        }
        if self.clock > f.etime && self.clock - f.etime > f.ttl as u64 {
            return Err(MungeError::CredExpired);
        }
        if f.etime > self.clock && f.etime - self.clock > CLOCK_SKEW {
            return Err(MungeError::CredRewound);
        }
        if f.uid_res != UID_ANY && f.uid_res != self.uid {
            return Err(MungeError::CredUnauthorized);
        }
        if f.gid_res != UID_ANY && f.gid_res != self.gid {
            return Err(MungeError::CredUnauthorized);
        }
        let mut replay: Vec<u64> = Vec::new();
        core::mem::swap(&mut replay, &mut self.replay);
        replay.push(f.nonce);
        core::mem::swap(&mut replay, &mut self.replay);
        proof {
            assert(daemon_inv(self@));
        }
        Ok(f)
    }
}

// ---------------------------------------------------------------------------
// Laws of the credential life cycle
// ---------------------------------------------------------------------------

/// What holds of a freshly encoded credential: encoding succeeds, its armor
/// and frame parse back losslessly, its tags and integrity tag are sound,
/// and its serial number is fresh.
#[verifier::rlimit(100)]
#[verifier::spinoff_prover]
proof fn lemma_fresh_credential(d: DaemonV, o: CtxOpts, p: Seq<u8>, now: u64)
    requires
        daemon_inv(d),
        o.mac != MungeMac::MacNone,
        p.len() <= MAX_PAYLOAD,
        d.seq < 0xffff_ffff_ffff_ffff,
    ensures
        ({
            let f0 = encode_frame(d, o, p);
            let fb = frame_bytes(f0);
            let (d2, r) = spec_encode(d, o, p);
            let d3 = DaemonV { clock: now, ..d2 };
            &&& r == Ok::<Seq<u8>, MungeError>(armor_bytes(fb))
            &&& parse_armor(armor_bytes(fb)) == Some(fb)
            &&& parse_frame(fb) == Some(f0)
            &&& f0.version == CRED_VERSION
            &&& fb.len() == 52 + p.len()
            &&& frame_csum_ok(fb)
            &&& f0.nonce < d3.seq
            &&& f0.cipher <= 5
            &&& 1 <= f0.mac <= 6
            &&& f0.zip <= 3
            &&& !d3.replay.contains(f0.nonce)
            &&& f0.etime == d.clock
            &&& f0.ttl == effective_ttl(o.ttl)
            &&& d3 == (DaemonV { clock: now, seq: (d.seq + 1) as u64, ..d })
        }),
{
    let f0 = encode_frame(d, o, p);
    let fb = frame_bytes(f0);
    lemma_parse_frame_bytes(f0);
    lemma_parse_armor_bytes(fb);
    assert(o.cipher.code() <= 5);
    assert(1 <= o.mac.code() <= 6);
    assert(o.zip.code() <= 3);
    assert(fb.len() == 52 + p.len());
    assert(!d.replay.contains(d.seq));
}

/// Round trip: a credential freshly encoded for any payload (the empty one
/// included) decodes, within its validity window and before any replay, to
/// exactly that payload and the encoder's attested identity, under a
/// context whose restrictions are absent or match the caller.
#[verifier::rlimit(100)]
#[verifier::spinoff_prover]
pub proof fn lemma_encode_decode_roundtrip(d: DaemonV, o: CtxOpts, p: Seq<u8>, now: u64)
    requires
        daemon_inv(d),
        o.mac != MungeMac::MacNone,
        p.len() <= MAX_PAYLOAD,
        d.seq < 0xffff_ffff_ffff_ffff,
        d.clock <= now <= d.clock + effective_ttl(o.ttl),
        o.uid_res == UID_ANY || o.uid_res == d.uid,
        o.gid_res == UID_ANY || o.gid_res == d.gid,
    ensures
        ({
            let (d2, r) = spec_encode(d, o, p);
            let (d3, r2) = spec_decode(DaemonV { clock: now, ..d2 }, r->Ok_0);
            &&& r is Ok
            &&& r2 matches Ok(f) && f.payload == p && f.uid == d.uid && f.gid == d.gid
                && f.etime == d.clock && f.addr == d.addr
        }),
{
    lemma_fresh_credential(d, o, p, now);
    let f0 = encode_frame(d, o, p);
    let fb = frame_bytes(f0);
    let d3 = DaemonV { clock: now, ..spec_encode(d, o, p).0 };
    assert(decode_checks(d3, fb, f0) == Ok::<FrameV, MungeError>(f0));
}

/// Replay: after any successful decode, a second decode of the identical
/// credential fails with the replay kind — never succeeds, never reports a
/// different kind — and leaves the service unchanged, whatever its clock
/// then shows.
pub proof fn lemma_decode_replayed(d: DaemonV, b: Seq<u8>, now: u64)
    requires
        spec_decode(d, b).1 is Ok,
    ensures
        ({
            let d2 = DaemonV { clock: now, ..spec_decode(d, b).0 };
            spec_decode(d2, b) == (d2, Err::<FrameV, MungeError>(MungeError::CredReplayed))
        }),
{
    let fb = parse_armor(b)->Some_0;
    let f = parse_frame(fb)->Some_0;
    let d1 = spec_decode(d, b).0;
    assert(d1.replay == d.replay.push(f.nonce));
    assert(d1.replay[d.replay.len() as int] == f.nonce);
    assert(d1.replay.contains(f.nonce));
}

/// Replay, across any later state: once a credential has been decoded,
/// any service state that still records its serial number, and whose
/// serial counter has not moved backwards, refuses the identical
/// credential as replayed and stays unchanged.
pub proof fn lemma_decode_replayed_general(d0: DaemonV, d: DaemonV, b: Seq<u8>)
    requires
        spec_decode(d0, b).1 is Ok,
        d0.seq <= d.seq,
        d.replay.contains(spec_decode(d0, b).1->Ok_0.nonce),
    ensures
        spec_decode(d, b) == (d, Err::<FrameV, MungeError>(MungeError::CredReplayed)),
{
    let fb = parse_armor(b)->Some_0;
    let f = parse_frame(fb)->Some_0;
    assert(spec_decode(d0, b).1->Ok_0 == f);
    assert(f.nonce < d0.seq);
}

/// Every service step leaves the replay record intact: an encode does not
/// touch the replay cache, and a decode never removes a serial number from
/// it; neither lowers the serial counter.
pub proof fn lemma_steps_monotone(d: DaemonV, o: CtxOpts, p: Seq<u8>, b: Seq<u8>, n: u64)
    ensures
        spec_encode(d, o, p).0.replay == d.replay,
        d.seq <= spec_encode(d, o, p).0.seq,
        d.replay.contains(n) ==> spec_decode(d, b).0.replay.contains(n),
        spec_decode(d, b).0.seq == d.seq,
{
    let d2 = spec_decode(d, b).0;
    if d.replay.contains(n) && d2.replay != d.replay {
        let i = choose|i: int| 0 <= i < d.replay.len() && d.replay[i] == n;
        assert(d2.replay[i] == n);
        assert(d2.replay.contains(n));
    }
}

/// Both service steps preserve the replay-cache invariant.
pub proof fn lemma_steps_preserve_inv(d: DaemonV, o: CtxOpts, p: Seq<u8>, b: Seq<u8>)
    requires
        daemon_inv(d),
    ensures
        daemon_inv(spec_encode(d, o, p).0),
        daemon_inv(spec_decode(d, b).0),
{
    let d2 = spec_decode(d, b).0;
    if d2.replay != d.replay {
        let fb = parse_armor(b)->Some_0;
        let f = parse_frame(fb)->Some_0;
        assert(f.nonce < d.seq);
        assert forall|i: int| 0 <= i < d2.replay.len() implies #[trigger] d2.replay[i] < d2.seq by {
            if i < d.replay.len() {
                assert(d.replay[i] < d.seq);
            }
        }
    }
}

/// Expiry: a credential decoded after its validity window has elapsed
/// fails with the expired kind.
#[verifier::rlimit(100)]
#[verifier::spinoff_prover]
pub proof fn lemma_decode_expired(d: DaemonV, o: CtxOpts, p: Seq<u8>, now: u64)
    requires
        daemon_inv(d),
        o.mac != MungeMac::MacNone,
        p.len() <= MAX_PAYLOAD,
        d.seq < 0xffff_ffff_ffff_ffff,
        now > d.clock + effective_ttl(o.ttl),
    ensures
        ({
            let (d2, r) = spec_encode(d, o, p);
            let d3 = DaemonV { clock: now, ..d2 };
            &&& r is Ok
            &&& spec_decode(d3, r->Ok_0) == (d3, Err::<FrameV, MungeError>(MungeError::CredExpired))
        }),
{
    lemma_fresh_credential(d, o, p, now);
    let f0 = encode_frame(d, o, p);
    let fb = frame_bytes(f0);
    let d3 = DaemonV { clock: now, ..spec_encode(d, o, p).0 };
    assert(decode_checks(d3, fb, f0) == Err::<FrameV, MungeError>(MungeError::CredExpired));
}

/// Whether a context carries a UID or GID restriction that the caller the
/// service attests does not meet.
pub open spec fn restriction_mismatch(o: CtxOpts, d: DaemonV) -> bool {
    (o.uid_res != UID_ANY && o.uid_res != d.uid) || (o.gid_res != UID_ANY && o.gid_res != d.gid)
}

/// Restriction: a credential carrying a UID or GID restriction that does
/// not match the decoding caller fails with the unauthorized kind, even
/// within its validity window and before any replay.  (With no restriction,
/// or a matching one, the round-trip law above applies instead.)
#[verifier::rlimit(100)]
#[verifier::spinoff_prover]
pub proof fn lemma_decode_unauthorized(d: DaemonV, o: CtxOpts, p: Seq<u8>, now: u64)
    requires
        daemon_inv(d),
        o.mac != MungeMac::MacNone,
        p.len() <= MAX_PAYLOAD,
        d.seq < 0xffff_ffff_ffff_ffff,
        restriction_mismatch(o, d),
        d.clock <= now <= d.clock + effective_ttl(o.ttl),
    ensures
        ({
            let (d2, r) = spec_encode(d, o, p);
            let d3 = DaemonV { clock: now, ..d2 };
            let unauth = Err::<FrameV, MungeError>(MungeError::CredUnauthorized);
            &&& r is Ok
            &&& spec_decode(d3, r->Ok_0) == (d3, unauth)
        }),
{
    lemma_fresh_credential(d, o, p, now);
    let f0 = encode_frame(d, o, p);
    let fb = frame_bytes(f0);
    let d3 = DaemonV { clock: now, ..spec_encode(d, o, p).0 };
    assert(decode_checks(d3, fb, f0) == Err::<FrameV, MungeError>(MungeError::CredUnauthorized));
}

} // verus!
