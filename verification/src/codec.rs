use vstd::prelude::*;

verus! {

/// Version tag written into every credential frame.
pub const CRED_VERSION: u8 = 3;

/// The longest payload the service accepts, in bytes.
pub const MAX_PAYLOAD: usize = 1048576;

// ---------------------------------------------------------------------------
// Hexadecimal armor
//
// A credential travels as printable text.  The frame bytes are armored as
// lower-case hexadecimal digits between a fixed prefix and a closing colon,
// so the result is NUL-free and pure ASCII.
// ---------------------------------------------------------------------------

/// The ASCII digit for a value below sixteen.
pub open spec fn hex_digit(n: u8) -> u8 {
    if n < 10 {
        (48 + n) as u8
    } else {
        (87 + n) as u8
    }
}

/// Whether an ASCII byte is a lower-case hexadecimal digit.
pub open spec fn is_hex_digit(c: u8) -> bool {
    (48 <= c <= 57) || (97 <= c <= 102)
}

/// The value of a lower-case hexadecimal digit.
pub open spec fn hex_val(c: u8) -> u8
    recommends
        is_hex_digit(c),
{
    if 48 <= c <= 57 {
        (c - 48) as u8
    } else {
        (c - 87) as u8
    }
}

/// The hexadecimal armor of a byte sequence: two digits per byte, high
/// nibble first.
pub open spec fn hex_bytes(b: Seq<u8>) -> Seq<u8> {
    Seq::new(
        2 * b.len(),
        |i: int|
            if i % 2 == 0 {
                hex_digit((b[i / 2] / 16) as u8)
            } else {
                hex_digit((b[i / 2] % 16) as u8)
            },
    )
}

/// Whether a byte sequence consists of lower-case hexadecimal digits only.
pub open spec fn all_hex(s: Seq<u8>) -> bool {
    forall|i: int| 0 <= i < s.len() ==> is_hex_digit(#[trigger] s[i])
}

/// The inverse of [`hex_bytes`]: recovers the bytes from their armor, or
/// nothing if the input is not well-formed armor.
pub open spec fn unhex(s: Seq<u8>) -> Option<Seq<u8>> {
    if s.len() % 2 == 0 && all_hex(s) {
        Some(Seq::new(s.len() / 2, |i: int| ((hex_val(s[2 * i]) * 16 + hex_val(s[2 * i + 1])) as u8)))
    } else {
        None
    }
}

/// Hexadecimal armor loses nothing: unarmoring the armor of any byte
/// sequence gives that sequence back.
pub proof fn lemma_unhex_hex(b: Seq<u8>)
    ensures
        unhex(hex_bytes(b)) == Some(b),
{
    let h = hex_bytes(b);
    assert forall|i: int| 0 <= i < h.len() implies is_hex_digit(#[trigger] h[i]) by {
        if i % 2 == 0 {
            assert(h[i] == hex_digit((b[i / 2] / 16) as u8));
        } else {
            assert(h[i] == hex_digit((b[i / 2] % 16) as u8));
        }
    }
    assert(h.len() % 2 == 0);
    let u = unhex(h)->Some_0;
    assert forall|i: int| 0 <= i < b.len() implies u[i] == b[i] by {
        assert(h[2 * i] == hex_digit((b[i] / 16) as u8));
        assert(h[2 * i + 1] == hex_digit((b[i] % 16) as u8));
        assert(hex_val(hex_digit((b[i] / 16) as u8)) == b[i] / 16);
        assert(hex_val(hex_digit((b[i] % 16) as u8)) == b[i] % 16);
        assert(b[i] / 16 * 16 + b[i] % 16 == b[i]) by {
            vstd::arithmetic::div_mod::lemma_fundamental_div_mod(b[i] as int, 16);
        }
    }
    assert(u =~= b);
}

/// Appends the hexadecimal armor of `src` to `out`.
pub fn hex_encode_into(out: &mut Vec<u8>, src: &Vec<u8>)
    ensures
        final(out)@ == old(out)@ + hex_bytes(src@),
{
    let n = src.len();
    let mut i: usize = 0;
    while i < n
        invariant
            n == src@.len(),
            i <= n,
            out@ == old(out)@ + hex_bytes(src@).subrange(0, 2 * i as int),
        decreases n - i,
    {
        let byte = src[i];
        out.push(hex_digit_of(byte / 16));
        out.push(hex_digit_of(byte % 16));
        proof {
            let h = hex_bytes(src@);
            assert(h[2 * i as int] == hex_digit((src@[i as int] / 16) as u8));
            assert(h[2 * i as int + 1] == hex_digit((src@[i as int] % 16) as u8));
            assert(h.subrange(0, 2 * (i + 1) as int) =~= h.subrange(0, 2 * i as int)
                + seq![h[2 * i as int], h[2 * i as int + 1]]);
            assert(out@ =~= old(out)@ + h.subrange(0, 2 * (i + 1) as int));
        }
        i = i + 1;
    }
    proof {
        assert(hex_bytes(src@).subrange(0, 2 * n as int) =~= hex_bytes(src@));
    }
}

/// The ASCII digit for a value below sixteen.
fn hex_digit_of(n: u8) -> (r: u8)
    requires
        n < 16,
    ensures
        r == hex_digit(n),
{
    if n < 10 {
        48 + n
    } else {
        87 + n
    }
}

/// Recovers the bytes whose hexadecimal armor is `src[from..to]`, or
/// nothing if that range is not well-formed armor.
pub fn hex_decode_range(src: &Vec<u8>, from: usize, to: usize) -> (r: Option<Vec<u8>>)
    requires
        from <= to <= src@.len(),
    ensures
        match r {
            Some(v) => unhex(src@.subrange(from as int, to as int)) == Some(v@),
            None => unhex(src@.subrange(from as int, to as int)) is None,
        },
{
    let s = Ghost(src@.subrange(from as int, to as int));
    let len = to - from;
    if len % 2 != 0 {
        return None;
    }
    let mut out: Vec<u8> = Vec::new();
    let mut i: usize = 0;
    while i < len
        invariant
            from <= to <= src@.len(),
            s@ == src@.subrange(from as int, to as int),
            len == to - from,
            len % 2 == 0,
            i <= len,
            i % 2 == 0,
            all_hex(s@.subrange(0, i as int)),
            out@.len() == i / 2,
            forall|j: int|
                0 <= j < i / 2 ==> #[trigger] out@[j] == ((hex_val(s@[2 * j]) * 16 + hex_val(
                    s@[2 * j + 1],
                )) as u8),
        decreases len - i,
    {
        let hi = src[from + i];
        let lo = src[from + i + 1];
        proof {
            assert(s@[i as int] == src@[from + i]);
            assert(s@[i as int + 1] == src@[from + i + 1]);
        }
        let hv = hex_val_of(hi);
        let lv = hex_val_of(lo);
        if hv == 255 || lv == 255 {
            proof {
                if hv == 255 {
                    assert(!is_hex_digit(s@[i as int]));
                } else {
                    assert(!is_hex_digit(s@[i as int + 1]));
                }
            }
            return None;
        }
        out.push(hv * 16 + lv);
        proof {
            assert(all_hex(s@.subrange(0, i + 2 as int))) by {
                assert forall|j: int| 0 <= j < i + 2 implies is_hex_digit(#[trigger] s@[j]) by {
                    if j < i {
                        assert(s@.subrange(0, i as int)[j] == s@[j]);
                    }
                }
            }
        }
        i = i + 2;
    }
    proof {
        assert(s@.subrange(0, len as int) =~= s@);
        assert(unhex(s@) is Some);
        assert(out@ =~= unhex(s@)->Some_0);
    }
    Some(out)
}

/// The value of a lower-case hexadecimal ASCII digit, or 255 for any other
/// byte.
fn hex_val_of(c: u8) -> (r: u8)
    ensures
        is_hex_digit(c) ==> r == hex_val(c),
        !is_hex_digit(c) ==> r == 255,
{
    if 48 <= c && c <= 57 {
        c - 48
    } else if 97 <= c && c <= 102 {
        c - 87
    } else {
        255
    }
}

// ---------------------------------------------------------------------------
// Byte scanning and summing
// ---------------------------------------------------------------------------

/// Whether a byte vector contains a NUL byte.
pub fn has_nul(v: &[u8]) -> (r: bool)
    ensures
        r == v@.contains(0u8),
{
    let n = v.len();
    let mut i: usize = 0;
    while i < n
        invariant
            n == v@.len(),
            i <= n,
            forall|j: int| 0 <= j < i ==> #[trigger] v@[j] != 0u8,
        decreases n - i,
    {
        if v[i] == 0 {
            assert(v@.contains(0u8));
            return true;
        }
        i = i + 1;
    }
    assert(!v@.contains(0u8));
    false
}

/// The sum of a byte sequence's values.
pub open spec fn sum_bytes(s: Seq<u8>) -> int
    decreases s.len(),
{
    if s.len() == 0 {
        0
    } else {
        sum_bytes(s.drop_last()) + s.last()
    }
}

/// The integrity tag of a byte sequence: its byte sum, reduced to 32 bits.
pub open spec fn csum_of(s: Seq<u8>) -> u32 {
    (sum_bytes(s) % 0x1_0000_0000) as u32
}

/// Computes the integrity tag of `v[0..to]`.
pub fn csum_range(v: &Vec<u8>, to: usize) -> (r: u32)
    requires
        to <= v@.len(),
        v@.len() <= 0x10_0000_0000,
    ensures
        r == csum_of(v@.subrange(0, to as int)),
{
    let mut acc: u64 = 0;
    let mut i: usize = 0;
    while i < to
        invariant
            to <= v@.len(),
            v@.len() <= 0x10_0000_0000,
            i <= to,
            acc == sum_bytes(v@.subrange(0, i as int)),
            acc <= 255 * i,
        decreases to - i,
    {
        proof {
            assert(v@.subrange(0, i + 1).drop_last() =~= v@.subrange(0, i as int));
            assert(v@.subrange(0, i + 1).last() == v@[i as int]);
        }
        acc = acc + v[i] as u64;
        i = i + 1;
    }
    proof {
        assert(v@.subrange(0, to as int) == v@.subrange(0, i as int));
    }
    (acc % 0x1_0000_0000) as u32
}


// ---------------------------------------------------------------------------
// Credential frames
//
// The decoded form of a credential: a fixed header of tags, times and
// identities, the payload, and a trailing integrity tag over everything
// before it.
// ---------------------------------------------------------------------------

/// The byte length of the smallest well-formed frame (empty payload).
pub const FRAME_MIN_LEN: usize = 52;

/// The decoded form of a credential.
pub struct Frame {
    /// Frame format version; always [`CRED_VERSION`] for frames this library
    /// issues.
    pub version: u8,
    /// Numeric cipher type the payload was encrypted with.
    pub cipher: u8,
    /// Numeric MAC type protecting the credential.
    pub mac: u8,
    /// Numeric compression type applied to the payload.
    pub zip: u8,
    /// Serial number the issuing service gave this credential; the replay
    /// cache is keyed by it.
    pub nonce: u64,
    /// Encode time, in seconds since the epoch of the service's clock.
    pub etime: u64,
    /// Validity window in seconds from the encode time.
    pub ttl: u32,
    /// Origin address, in network byte order.
    pub addr: u32,
    /// UID the service attests for the encoder.
    pub uid: u32,
    /// GID the service attests for the encoder.
    pub gid: u32,
    /// UID a decoder must have, or [`crate::ctx::UID_ANY`].
    pub uid_res: u32,
    /// GID a decoder must have, or [`crate::ctx::UID_ANY`].
    pub gid_res: u32,
    /// The payload carried by the credential.
    pub payload: Vec<u8>,
}

/// The mathematical view of a [`Frame`].
pub struct FrameV {
    /// Frame format version.
    pub version: u8,
    /// Numeric cipher type.
    pub cipher: u8,
    /// Numeric MAC type.
    pub mac: u8,
    /// Numeric compression type.
    pub zip: u8,
    /// Serial number of the credential.
    pub nonce: u64,
    /// Encode time in seconds since the epoch.
    pub etime: u64,
    /// Validity window in seconds.
    pub ttl: u32,
    /// Origin address in network byte order.
    pub addr: u32,
    /// Attested UID.
    pub uid: u32,
    /// Attested GID.
    pub gid: u32,
    /// UID restriction.
    pub uid_res: u32,
    /// GID restriction.
    pub gid_res: u32,
    /// The payload bytes.
    pub payload: Seq<u8>,
}

impl View for Frame {
    type V = FrameV;

    open spec fn view(&self) -> FrameV {
        FrameV {
            version: self.version,
            cipher: self.cipher,
            mac: self.mac,
            zip: self.zip,
            nonce: self.nonce,
            etime: self.etime,
            ttl: self.ttl,
            addr: self.addr,
            uid: self.uid,
            gid: self.gid,
            uid_res: self.uid_res,
            gid_res: self.gid_res,
            payload: self.payload@,
        }
    }
}

/// The serialized frame without its integrity tag: tag bytes, little-endian
/// numbers, payload length and payload.
pub open spec fn frame_body(f: FrameV) -> Seq<u8> {
    seq![f.version, f.cipher, f.mac, f.zip] + vstd::bytes::spec_u64_to_le_bytes(f.nonce)
        + vstd::bytes::spec_u64_to_le_bytes(f.etime) + vstd::bytes::spec_u32_to_le_bytes(f.ttl)
        + vstd::bytes::spec_u32_to_le_bytes(f.addr) + vstd::bytes::spec_u32_to_le_bytes(f.uid)
        + vstd::bytes::spec_u32_to_le_bytes(f.gid) + vstd::bytes::spec_u32_to_le_bytes(f.uid_res)
        + vstd::bytes::spec_u32_to_le_bytes(f.gid_res) + vstd::bytes::spec_u32_to_le_bytes(
        f.payload.len() as u32,
    ) + f.payload
}

/// The full serialized frame: the body followed by its integrity tag.
pub open spec fn frame_bytes(f: FrameV) -> Seq<u8> {
    frame_body(f) + vstd::bytes::spec_u32_to_le_bytes(csum_of(frame_body(f)))
}

/// Recovers a frame from its serialized bytes, going by the embedded payload
/// length; nothing if the lengths do not line up.  The integrity tag is
/// checked separately by [`frame_csum_ok`].
pub open spec fn parse_frame(b: Seq<u8>) -> Option<FrameV> {
    if b.len() < FRAME_MIN_LEN {
        None
    } else if b.len() == FRAME_MIN_LEN + vstd::bytes::spec_u32_from_le_bytes(
        b.subrange(44, 48),
    ) as int {
        Some(
            FrameV {
                version: b[0],
                cipher: b[1],
                mac: b[2],
                zip: b[3],
                nonce: vstd::bytes::spec_u64_from_le_bytes(b.subrange(4, 12)),
                etime: vstd::bytes::spec_u64_from_le_bytes(b.subrange(12, 20)),
                ttl: vstd::bytes::spec_u32_from_le_bytes(b.subrange(20, 24)),
                addr: vstd::bytes::spec_u32_from_le_bytes(b.subrange(24, 28)),
                uid: vstd::bytes::spec_u32_from_le_bytes(b.subrange(28, 32)),
                gid: vstd::bytes::spec_u32_from_le_bytes(b.subrange(32, 36)),
                uid_res: vstd::bytes::spec_u32_from_le_bytes(b.subrange(36, 40)),
                gid_res: vstd::bytes::spec_u32_from_le_bytes(b.subrange(40, 44)),
                payload: b.subrange(48, b.len() - 4),
            },
        )
    } else {
        None
    }
}

/// Whether a serialized frame's trailing integrity tag matches its body.
pub open spec fn frame_csum_ok(b: Seq<u8>) -> bool
    recommends
        b.len() >= FRAME_MIN_LEN,
{
    vstd::bytes::spec_u32_from_le_bytes(b.subrange(b.len() - 4, b.len() as int)) == csum_of(
        b.subrange(0, b.len() - 4),
    )
}

/// Serializing a frame loses nothing: its bytes parse back to the same
/// frame, and the integrity tag they carry matches.
pub proof fn lemma_parse_frame_bytes(f: FrameV)
    requires
        f.payload.len() <= MAX_PAYLOAD,
    ensures
        parse_frame(frame_bytes(f)) == Some(f),
        frame_csum_ok(frame_bytes(f)),
{
    vstd::bytes::lemma_auto_spec_u32_to_from_le_bytes();
    vstd::bytes::lemma_auto_spec_u64_to_from_le_bytes();
    let body = frame_body(f);
    let b = frame_bytes(f);
    assert(body.len() == 48 + f.payload.len());
    assert(b.len() == 52 + f.payload.len());
    assert(b.subrange(44, 48) =~= vstd::bytes::spec_u32_to_le_bytes(f.payload.len() as u32));
    assert(vstd::bytes::spec_u32_from_le_bytes(b.subrange(44, 48)) == f.payload.len());
    assert(b.subrange(4, 12) =~= vstd::bytes::spec_u64_to_le_bytes(f.nonce));
    assert(b.subrange(12, 20) =~= vstd::bytes::spec_u64_to_le_bytes(f.etime));
    assert(b.subrange(20, 24) =~= vstd::bytes::spec_u32_to_le_bytes(f.ttl));
    assert(b.subrange(24, 28) =~= vstd::bytes::spec_u32_to_le_bytes(f.addr));
    assert(b.subrange(28, 32) =~= vstd::bytes::spec_u32_to_le_bytes(f.uid));
    assert(b.subrange(32, 36) =~= vstd::bytes::spec_u32_to_le_bytes(f.gid));
    assert(b.subrange(36, 40) =~= vstd::bytes::spec_u32_to_le_bytes(f.uid_res));
    assert(b.subrange(40, 44) =~= vstd::bytes::spec_u32_to_le_bytes(f.gid_res));
    assert(b.subrange(48, b.len() - 4) =~= f.payload);
    assert(b.subrange(0, b.len() - 4) =~= body);
    assert(b.subrange(b.len() - 4, b.len() as int) =~= vstd::bytes::spec_u32_to_le_bytes(
        csum_of(body),
    ));
    assert(parse_frame(b)->Some_0 =~~= f);
}

/// Serializes a frame, integrity tag included.
pub fn frame_to_bytes(f: &Frame) -> (r: Vec<u8>)
    requires
        f.payload@.len() <= MAX_PAYLOAD,
    ensures
        r@ == frame_bytes(f@),
{
    let mut out: Vec<u8> = Vec::new();
    out.push(f.version);
    out.push(f.cipher);
    out.push(f.mac);
    out.push(f.zip);
    let mut t = vstd::bytes::u64_to_le_bytes(f.nonce);
    out.append(&mut t);
    let mut t = vstd::bytes::u64_to_le_bytes(f.etime);
    out.append(&mut t);
    let mut t = vstd::bytes::u32_to_le_bytes(f.ttl);
    out.append(&mut t);
    let mut t = vstd::bytes::u32_to_le_bytes(f.addr);
    out.append(&mut t);
    let mut t = vstd::bytes::u32_to_le_bytes(f.uid);
    out.append(&mut t);
    let mut t = vstd::bytes::u32_to_le_bytes(f.gid);
    out.append(&mut t);
    let mut t = vstd::bytes::u32_to_le_bytes(f.uid_res);
    out.append(&mut t);
    let mut t = vstd::bytes::u32_to_le_bytes(f.gid_res);
    out.append(&mut t);
    let mut t = vstd::bytes::u32_to_le_bytes(f.payload.len() as u32);
    out.append(&mut t);
    let n = f.payload.len();
    let mut i: usize = 0;
    while i < n
        invariant
            n == f.payload@.len(),
            i <= n,
            out@ == frame_body(f@).subrange(0, 48 + i as int),
            frame_body(f@).len() == 48 + n,
        decreases n - i,
    {
        out.push(f.payload[i]);
        proof {
            assert(frame_body(f@)[48 + i as int] == f.payload@[i as int]);
            assert(out@ =~= frame_body(f@).subrange(0, 48 + (i + 1) as int));
        }
        i = i + 1;
    }
    proof {
        assert(out@ =~= frame_body(f@));
    }
    let c = csum_range(&out, out.len());
    let mut t = vstd::bytes::u32_to_le_bytes(c);
    out.append(&mut t);
    proof {
        assert(out@ =~= frame_bytes(f@));
    }
    out
}

/// Parses serialized frame bytes back into a frame, going by the embedded
/// payload length.
pub fn frame_from_bytes(b: &Vec<u8>) -> (r: Option<Frame>)
    ensures
        match r {
            Some(f) => parse_frame(b@) == Some(f@),
            None => parse_frame(b@) is None,
        },
{
    if b.len() < FRAME_MIN_LEN {
        return None;
    }
    let s = b.as_slice();
    let l = vstd::bytes::u32_from_le_bytes(vstd::slice::slice_subrange(s, 44, 48));
    if l as u64 != (b.len() - FRAME_MIN_LEN) as u64 {
        return None;
    }
    let f = Frame {
        version: *vstd::slice::slice_index_get(s, 0),
        cipher: *vstd::slice::slice_index_get(s, 1),
        mac: *vstd::slice::slice_index_get(s, 2),
        zip: *vstd::slice::slice_index_get(s, 3),
        nonce: vstd::bytes::u64_from_le_bytes(vstd::slice::slice_subrange(s, 4, 12)),
        etime: vstd::bytes::u64_from_le_bytes(vstd::slice::slice_subrange(s, 12, 20)),
        ttl: vstd::bytes::u32_from_le_bytes(vstd::slice::slice_subrange(s, 20, 24)),
        addr: vstd::bytes::u32_from_le_bytes(vstd::slice::slice_subrange(s, 24, 28)),
        uid: vstd::bytes::u32_from_le_bytes(vstd::slice::slice_subrange(s, 28, 32)),
        gid: vstd::bytes::u32_from_le_bytes(vstd::slice::slice_subrange(s, 32, 36)),
        uid_res: vstd::bytes::u32_from_le_bytes(vstd::slice::slice_subrange(s, 36, 40)),
        gid_res: vstd::bytes::u32_from_le_bytes(vstd::slice::slice_subrange(s, 40, 44)),
        payload: vstd::slice::slice_to_vec(vstd::slice::slice_subrange(s, 48, b.len() - 4)),
    };
    proof {
        assert(parse_frame(b@)->Some_0 =~~= f@);
    }
    Some(f)
}

/// Checks a serialized frame's trailing integrity tag against its body.
pub fn frame_csum_check(b: &Vec<u8>) -> (r: bool)
    requires
        FRAME_MIN_LEN <= b@.len(),
        b@.len() <= MAX_PAYLOAD + FRAME_MIN_LEN,
    ensures
        r == frame_csum_ok(b@),
{
    let want = vstd::bytes::u32_from_le_bytes(
        vstd::slice::slice_subrange(b.as_slice(), b.len() - 4, b.len()),
    );
    let got = csum_range(b, b.len() - 4);
    want == got
}

// ---------------------------------------------------------------------------
// Credential armor
//
// A serialized frame travels as the printable string "MUNGE:<hex>:".
// ---------------------------------------------------------------------------

/// The fixed prefix of an armored credential: the bytes of "MUNGE:".
pub open spec fn armor_prefix() -> Seq<u8> {
    seq![77u8, 85u8, 78u8, 71u8, 69u8, 58u8]
}

/// The armored form of serialized frame bytes: the prefix, the hexadecimal
/// digits, and a closing colon.
pub open spec fn armor_bytes(fb: Seq<u8>) -> Seq<u8> {
    armor_prefix() + hex_bytes(fb) + seq![58u8]
}

/// Recovers serialized frame bytes from an armored credential, or nothing
/// if the input is not well-formed armor.
pub open spec fn parse_armor(b: Seq<u8>) -> Option<Seq<u8>> {
    if b.len() >= 7 && b.subrange(0, 6) == armor_prefix() && b[b.len() - 1] == 58u8 {
        unhex(b.subrange(6, b.len() - 1))
    } else {
        None
    }
}

/// Armoring loses nothing: the armor of any byte sequence parses back to
/// that sequence.
pub proof fn lemma_parse_armor_bytes(fb: Seq<u8>)
    ensures
        parse_armor(armor_bytes(fb)) == Some(fb),
{
    let a = armor_bytes(fb);
    assert(a.len() == 7 + 2 * fb.len());
    assert(a.subrange(0, 6) =~= armor_prefix());
    assert(a[a.len() - 1] == 58u8);
    assert(a.subrange(6, a.len() - 1) =~= hex_bytes(fb));
    lemma_unhex_hex(fb);
}

/// An armored credential is printable ASCII: every byte is strictly between
/// the NUL byte and 128.
pub proof fn lemma_armor_ascii(fb: Seq<u8>)
    ensures
        forall|i: int| 0 <= i < armor_bytes(fb).len() ==> 0 < #[trigger] armor_bytes(fb)[i] < 128,
{
    let a = armor_bytes(fb);
    assert forall|i: int| 0 <= i < a.len() implies 0 < #[trigger] a[i] < 128 by {
        if 6 <= i < a.len() - 1 {
            assert(a[i] == hex_bytes(fb)[i - 6]);
        }
    }
}

/// Armors serialized frame bytes as a printable credential.
pub fn armor_encode(fb: &Vec<u8>) -> (r: Vec<u8>)
    ensures
        r@ == armor_bytes(fb@),
{
    let mut out: Vec<u8> = Vec::new();
    out.push(77);
    out.push(85);
    out.push(78);
    out.push(71);
    out.push(69);
    out.push(58);
    proof {
        assert(out@ =~= armor_prefix());
    }
    hex_encode_into(&mut out, fb);
    out.push(58);
    proof {
        assert(out@ =~= armor_bytes(fb@));
    }
    out
}

/// Strips the armor from a credential, or reports that it is not
/// well-formed armor.
pub fn armor_decode(b: &Vec<u8>) -> (r: Option<Vec<u8>>)
    ensures
        match r {
            Some(v) => parse_armor(b@) == Some(v@),
            None => parse_armor(b@) is None,
        },
{
    if b.len() < 7 {
        return None;
    }
    if !(*vstd::slice::slice_index_get(b.as_slice(), 0) == 77
        && *vstd::slice::slice_index_get(b.as_slice(), 1) == 85
        && *vstd::slice::slice_index_get(b.as_slice(), 2) == 78
        && *vstd::slice::slice_index_get(b.as_slice(), 3) == 71
        && *vstd::slice::slice_index_get(b.as_slice(), 4) == 69
        && *vstd::slice::slice_index_get(b.as_slice(), 5) == 58) {
        proof {
            assert(b@.subrange(0, 6) != armor_prefix());
        }
        return None;
    }
    proof {
        assert(b@.subrange(0, 6) =~= armor_prefix());
    }
    if *vstd::slice::slice_index_get(b.as_slice(), b.len() - 1) != 58 {
        return None;
    }
    hex_decode_range(b, 6, b.len() - 1)
}



// ---------------------------------------------------------------------------
// Lifting armored bytes to text
// ---------------------------------------------------------------------------

/// The characters of a byte sequence, one character per byte.
pub open spec fn chars_of_bytes(b: Seq<u8>) -> Seq<char> {
    Seq::new(b.len(), |i: int| b[i] as char)
}

/// For bytes below 128, lifting each byte to its character inverts UTF-8
/// encoding: encoding the characters gives exactly the original bytes.
pub proof fn lemma_encode_utf8_chars_of_bytes(b: Seq<u8>)
    requires
        forall|i: int| 0 <= i < b.len() ==> #[trigger] b[i] < 128,
    ensures
        vstd::utf8::encode_utf8(chars_of_bytes(b)) == b,
{
    let c = chars_of_bytes(b);
    assert forall|i: int| 0 <= i < c.len() implies '\u{0}' <= #[trigger] c[i] <= '\u{7f}' by {
        assert(c[i] == b[i] as char);
        assert(b[i] < 128);
    }
    assert(vstd::utf8::is_ascii_chars(c));
    vstd::utf8::is_ascii_chars_encode_utf8(c);
    assert(vstd::utf8::encode_utf8(c) =~= b);
}

} // verus!
