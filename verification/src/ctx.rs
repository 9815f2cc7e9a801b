use vstd::prelude::*;

use crate::codec::has_nul;
use crate::enums::{Error, MungeCipher, MungeError, MungeMac, MungeZip};
use crate::munge_option::MungeOption;

verus! {

/// The text chrono renders for a given epoch second count: a function of
/// the count alone.
pub uninterp spec fn rfc3339_of(secs: i64) -> Seq<char>;

/// Relies on chrono's `DateTime::from_timestamp` and `to_rfc3339`: any
/// second count up to the end of year 9999 converts and formats as its
/// RFC 3339 text, a function of the count alone; counts beyond chrono's
/// calendar range (about 262,000 years) are refused.
#[verifier::external_body]
fn timestamp_rfc3339(secs: i64) -> (r: Option<String>)
    ensures
        (0 <= secs <= 253_402_300_799) ==> r is Some,
        secs >= 10_000_000_000_000 ==> r is None,
        (r matches Some(s) ==> s@ == rfc3339_of(secs)),
{
    match chrono::DateTime::<chrono::Utc>::from_timestamp(secs, 0) {
        Some(dt) => Some(dt.to_rfc3339()),
        None => None,
    }
}

/// Relies on `str::from_utf8`: it succeeds exactly on valid UTF-8 and
/// decodes it, as vstd's model of UTF-8 states.
#[verifier::external_body]
fn utf8_string(bytes: &Vec<u8>) -> (r: Option<String>)
    ensures
        r is Some <==> vstd::utf8::valid_utf8(bytes@),
        (r matches Some(s) ==> s@ == vstd::utf8::decode_utf8(bytes@)),
{
    match core::str::from_utf8(bytes.as_slice()) {
        Ok(s) => Some(s.to_owned()),
        Err(_) => None,
    }
}

/// The value of a UID or GID restriction meaning "no restriction".
pub const UID_ANY: u32 = 0xffff_ffff;

/// The TTL value meaning "use the service's default validity window".
pub const TTL_DEFAULT: u32 = 0;

/// The longest socket path the service accepts, in bytes.
pub const SOCKET_PATH_MAX: usize = 107;

/// Configuration for one encode or decode operation, together with the
/// metadata a successful decode reports back.
///
/// The socket path, cipher, MAC, compression, TTL and restriction fields are
/// inputs to encode; the origin address and the two timestamps are outputs of
/// decode and readable only once a decode has populated them.
#[derive(Debug, Clone, PartialEq, Eq)]
pub struct Context {
    /// Path of the service's local socket.
    pub socket: String,
    /// Cipher applied to the payload at encode time.
    pub cipher: MungeCipher,
    /// MAC algorithm protecting the credential.
    pub mac: MungeMac,
    /// Compression applied to the payload at encode time.
    pub zip: MungeZip,
    /// Credential validity window in seconds; [`TTL_DEFAULT`] selects the
    /// service's default window.
    pub ttl: u32,
    /// UID a decoder must have, or [`UID_ANY`] for no restriction.
    pub uid_restriction: u32,
    /// GID a decoder must have, or [`UID_ANY`] for no restriction.
    pub gid_restriction: u32,
    /// Origin address of the last decoded credential, in network byte order;
    /// populated only by a successful decode.
    pub addr4: Option<u32>,
    /// Encode time of the last decoded credential, in seconds since the
    /// epoch; populated only by a successful decode.
    pub encode_time: Option<u64>,
    /// Decode time of the last decoded credential, in seconds since the
    /// epoch; populated only by a successful decode.
    pub decode_time: Option<u64>,
}

impl Context {
    /// A fresh context: default socket path, default cipher, MAC and
    /// compression, default TTL, no restriction, and no decode metadata.
    pub fn new() -> (r: Context)
        ensures
            r.socket@ == "/var/run/munge/munge.socket"@,
            r.cipher == MungeCipher::Default,
            r.mac == MungeMac::Default,
            r.zip == MungeZip::Default,
            r.ttl == TTL_DEFAULT,
            r.uid_restriction == UID_ANY,
            r.gid_restriction == UID_ANY,
            r.addr4 is None,
            r.encode_time is None,
            r.decode_time is None,
    {
        Context {
            socket: String::from_str("/var/run/munge/munge.socket"),
            cipher: MungeCipher::Default,
            mac: MungeMac::Default,
            zip: MungeZip::Default,
            ttl: TTL_DEFAULT,
            uid_restriction: UID_ANY,
            gid_restriction: UID_ANY,
            addr4: None,
            encode_time: None,
            decode_time: None,
        }
    }

    /// Sets the path of the service's local socket.  The path must be valid
    /// UTF-8 text without an embedded NUL, and no longer than
    /// [`SOCKET_PATH_MAX`] bytes; a failed call leaves the context exactly
    /// as it was.
    pub fn set_socket(&mut self, path: Vec<u8>) -> (r: Result<(), Error>)
        ensures
            r is Ok <==> (vstd::utf8::valid_utf8(path@) && !path@.contains(0u8) && path@.len()
                <= SOCKET_PATH_MAX),
            !vstd::utf8::valid_utf8(path@) ==> r == Err::<(), Error>(Error::NonUtf8SocketPath),
            (vstd::utf8::valid_utf8(path@) && path@.contains(0u8)) ==> r == Err::<(), Error>(
                Error::InnerNull,
            ),
            (vstd::utf8::valid_utf8(path@) && !path@.contains(0u8) && path@.len()
                > SOCKET_PATH_MAX) ==> (match r {
                Err(Error::MungeError(k, s)) => k == MungeError::BadLength && s@
                    == MungeError::BadLength.desc_chars(),
                _ => false,
            }),
            r is Ok ==> final(self).socket@ == vstd::utf8::decode_utf8(path@),
            r is Ok ==> *final(self) == (Context { socket: final(self).socket, ..*old(self) }),
            !(r is Ok) ==> *final(self) == *old(self),
    {
        let s = match utf8_string(&path) {
            None => {
                return Err(Error::NonUtf8SocketPath);
            },
            Some(s) => s,
        };
        if has_nul(path.as_slice()) {
            return Err(Error::InnerNull);
        }
        if path.len() > SOCKET_PATH_MAX {
            return Err(Error::MungeError(MungeError::BadLength, MungeError::BadLength.desc()));
        }
        self.socket = s;
        Ok(())
    }

    /// Sets one numeric option: the TTL, a restriction, or a cipher, MAC or
    /// compression type given by its numeric identifier.  An identifier
    /// outside the option's range, or an option that is not numeric, is
    /// rejected with `BadArg` before anything changes.
    pub fn set_ctx_opt(&mut self, option: MungeOption, value: u32) -> (r: Result<(), MungeError>)
        ensures
            option == MungeOption::TTL ==> (r is Ok && *final(self) == (Context {
                ttl: value,
                ..*old(self)
            })),
            option == MungeOption::UID_RESTRICTION ==> (r is Ok && *final(self) == (Context {
                uid_restriction: value,
                ..*old(self)
            })),
            option == MungeOption::GID_RESTRICTION ==> (r is Ok && *final(self) == (Context {
                gid_restriction: value,
                ..*old(self)
            })),
            (option == MungeOption::CIPHER_TYPE && value <= 5) ==> (r is Ok
                && final(self).cipher.code() == value && *final(self) == (Context {
                cipher: final(self).cipher,
                ..*old(self)
            })),
            (option == MungeOption::MAC_TYPE && value <= 6) ==> (r is Ok
                && final(self).mac.code() == value && *final(self) == (Context {
                mac: final(self).mac,
                ..*old(self)
            })),
            (option == MungeOption::ZIP_TYPE && value <= 3) ==> (r is Ok
                && final(self).zip.code() == value && *final(self) == (Context {
                zip: final(self).zip,
                ..*old(self)
            })),
            !(r is Ok) ==> (r == Err::<(), MungeError>(MungeError::BadArg) && *final(self) == *old(
                self,
            )),
            r is Ok ==> !(option == MungeOption::CIPHER_TYPE && value > 5),
            r is Ok ==> !(option == MungeOption::MAC_TYPE && value > 6),
            r is Ok ==> !(option == MungeOption::ZIP_TYPE && value > 3),
            matches!(option, MungeOption::REALM | MungeOption::ADDR4 | MungeOption::ENCODE_TIME
                | MungeOption::DECODE_TIME | MungeOption::SOCKET) ==> !(r is Ok),
    {
        match option {
            MungeOption::CIPHER_TYPE => match MungeCipher::from_u32(value) {
                Ok(c) => {
                    self.cipher = c;
                    Ok(())
                },
                Err(_) => Err(MungeError::BadArg),
            },
            MungeOption::MAC_TYPE => match MungeMac::from_u32(value) {
                Ok(m) => {
                    self.mac = m;
                    Ok(())
                },
                Err(_) => Err(MungeError::BadArg),
            },
            MungeOption::ZIP_TYPE => match MungeZip::from_u32(value) {
                Ok(z) => {
                    self.zip = z;
                    Ok(())
                },
                Err(_) => Err(MungeError::BadArg),
            },
            MungeOption::TTL => {
                self.ttl = value;
                Ok(())
            },
            MungeOption::UID_RESTRICTION => {
                self.uid_restriction = value;
                Ok(())
            },
            MungeOption::GID_RESTRICTION => {
                self.gid_restriction = value;
                Ok(())
            },
            _ => Err(MungeError::BadArg),
        }
    }

    /// Reads one numeric option back.  Options that are not numeric, and
    /// the decode metadata, are refused with `BadArg`.
    pub fn get_ctx_opt(&self, option: MungeOption) -> (r: Result<i32, Error>)
        ensures
            match option {
                MungeOption::CIPHER_TYPE => r == Ok::<i32, Error>(self.cipher.code() as i32),
                MungeOption::MAC_TYPE => r == Ok::<i32, Error>(self.mac.code() as i32),
                MungeOption::ZIP_TYPE => r == Ok::<i32, Error>(self.zip.code() as i32),
                MungeOption::TTL => r == Ok::<i32, Error>(self.ttl as i32),
                MungeOption::UID_RESTRICTION => r == Ok::<i32, Error>(self.uid_restriction as i32),
                MungeOption::GID_RESTRICTION => r == Ok::<i32, Error>(self.gid_restriction as i32),
                _ => (r matches Err(Error::MungeError(k, s)) && k == MungeError::BadArg && s@
                    == MungeError::BadArg.desc_chars()),
            },
    {
        match option {
            MungeOption::CIPHER_TYPE => Ok(self.cipher.to_u32() as i32),
            MungeOption::MAC_TYPE => Ok(self.mac.to_u32() as i32),
            MungeOption::ZIP_TYPE => Ok(self.zip.to_u32() as i32),
            MungeOption::TTL => Ok(self.ttl as i32),
            MungeOption::UID_RESTRICTION => Ok(self.uid_restriction as i32),
            MungeOption::GID_RESTRICTION => Ok(self.gid_restriction as i32),
            _ => Err(Error::MungeError(MungeError::BadArg, MungeError::BadArg.desc())),
        }
    }

    /// Sets the TTL option.
    pub fn set_ttl(&mut self, ttl: u32) -> (r: Result<(), MungeError>)
        ensures
            r is Ok,
            *final(self) == (Context { ttl, ..*old(self) }),
    {
        self.set_ctx_opt(MungeOption::TTL, ttl)
    }

    /// Sets the MAC type option.
    pub fn set_mac(&mut self, mac: MungeMac) -> (r: Result<(), MungeError>)
        ensures
            r is Ok,
            *final(self) == (Context { mac, ..*old(self) }),
    {
        let r = self.set_ctx_opt(MungeOption::MAC_TYPE, mac.to_u32());
        proof {
            assert(self.mac == mac);
        }
        r
    }

    /// Sets the compression type option.
    pub fn set_zip(&mut self, zip_type: MungeZip) -> (r: Result<(), MungeError>)
        ensures
            r is Ok,
            *final(self) == (Context { zip: zip_type, ..*old(self) }),
    {
        let r = self.set_ctx_opt(MungeOption::ZIP_TYPE, zip_type.to_u32());
        proof {
            assert(self.zip == zip_type);
        }
        r
    }

    /// Sets the cipher type option.
    pub fn set_cipher(&mut self, cipher: MungeCipher) -> (r: Result<(), MungeError>)
        ensures
            r is Ok,
            *final(self) == (Context { cipher, ..*old(self) }),
    {
        let r = self.set_ctx_opt(MungeOption::CIPHER_TYPE, cipher.to_u32());
        proof {
            assert(self.cipher == cipher);
        }
        r
    }

    /// Restricts decoding to the given UID; [`UID_ANY`] clears the
    /// restriction.
    pub fn set_uid_restriction(&mut self, uid: u32) -> (r: Result<(), MungeError>)
        ensures
            r is Ok,
            *final(self) == (Context { uid_restriction: uid, ..*old(self) }),
    {
        self.set_ctx_opt(MungeOption::UID_RESTRICTION, uid)
    }

    /// Restricts decoding to the given GID; [`UID_ANY`] clears the
    /// restriction.
    pub fn set_gid_restriction(&mut self, gid: u32) -> (r: Result<(), MungeError>)
        ensures
            r is Ok,
            *final(self) == (Context { gid_restriction: gid, ..*old(self) }),
    {
        self.set_ctx_opt(MungeOption::GID_RESTRICTION, gid)
    }

    /// Reads the TTL option back.
    pub fn ttl(&self) -> (r: Result<i32, Error>)
        ensures
            r == Ok::<i32, Error>(self.ttl as i32),
    {
        self.get_ctx_opt(MungeOption::TTL)
    }

    /// Reads the MAC type option back.
    pub fn mac(&self) -> (r: Result<MungeMac, Error>)
        ensures
            r == Ok::<MungeMac, Error>(self.mac),
    {
        match self.get_ctx_opt(MungeOption::MAC_TYPE) {
            Ok(v) => match MungeMac::from_u32(v as u32) {
                Ok(m) => {
                    proof {
                        assert(m == self.mac);
                    }
                    Ok(m)
                },
                Err(e) => Err(e),
            },
            Err(e) => Err(e),
        }
    }

    /// Reads the compression type option back.
    pub fn zip(&self) -> (r: Result<MungeZip, Error>)
        ensures
            r == Ok::<MungeZip, Error>(self.zip),
    {
        match self.get_ctx_opt(MungeOption::ZIP_TYPE) {
            Ok(v) => match MungeZip::from_u32(v as u32) {
                Ok(z) => {
                    proof {
                        assert(z == self.zip);
                    }
                    Ok(z)
                },
                Err(e) => Err(e),
            },
            Err(e) => Err(e),
        }
    }

    /// Reads the cipher type option back.
    pub fn cipher(&self) -> (r: Result<MungeCipher, Error>)
        ensures
            r == Ok::<MungeCipher, Error>(self.cipher),
    {
        match self.get_ctx_opt(MungeOption::CIPHER_TYPE) {
            Ok(v) => match MungeCipher::from_u32(v as u32) {
                Ok(c) => {
                    proof {
                        assert(c == self.cipher);
                    }
                    Ok(c)
                },
                Err(e) => Err(e),
            },
            Err(e) => Err(e),
        }
    }

    /// Reads the UID restriction back; [`UID_ANY`] means no restriction.
    pub fn uid_restriction(&self) -> (r: Result<u32, Error>)
        ensures
            r == Ok::<u32, Error>(self.uid_restriction),
    {
        Ok(self.uid_restriction)
    }

    /// Reads the GID restriction back; [`UID_ANY`] means no restriction.
    pub fn gid_restriction(&self) -> (r: Result<u32, Error>)
        ensures
            r == Ok::<u32, Error>(self.gid_restriction),
    {
        Ok(self.gid_restriction)
    }

    /// Reads the socket path back.
    pub fn socket(&self) -> (r: Result<String, Error>)
        ensures
            r matches Ok(s) && s@ == self.socket@,
    {
        Ok(self.socket.clone())
    }

    /// The origin address of the last decoded credential, in network byte
    /// order.  Fails until a decode has populated this context.
    pub fn addr4(&self) -> (r: Result<u32, Error>)
        ensures
            match self.addr4 {
                Some(a) => r == Ok::<u32, Error>(a),
                None => (r matches Err(Error::MungeError(k, d)) && k == MungeError::BadArg
                    && d@ == MungeError::BadArg.desc_chars()),
            },
    {
        match self.addr4 {
            Some(a) => Ok(a),
            None => Err(Error::MungeError(MungeError::BadArg, MungeError::BadArg.desc())),
        }
    }

    /// What a time getter returns for a stored second count: an error until
    /// a decode stores one; the RFC 3339 text while the count is within the
    /// calendar range; the invalid-time error beyond it.
    pub open spec fn time_result(t: Option<u64>, r: Result<String, Error>) -> bool {
        match t {
            None => (r matches Err(Error::MungeError(k, s)) && k == MungeError::BadArg && s@
                == MungeError::BadArg.desc_chars()),
            Some(t) => {
                &&& (t <= 253_402_300_799 ==> (r matches Ok(s) && s@ == rfc3339_of(t as i64)))
                &&& (t >= 10_000_000_000_000 ==> r == Err::<String, Error>(Error::InvalidTime))
                &&& (r == Err::<String, Error>(Error::InvalidTime) || (r matches Ok(s) && s@
                    == rfc3339_of(t as i64)))
            },
        }
    }

    /// The encode time of the last decoded credential, rendered as an
    /// RFC 3339 calendar timestamp.  Fails with `BadArg` until a decode has
    /// populated this context, and with `InvalidTime` if the stored second
    /// count lies outside the representable calendar range.
    pub fn encode_time(&self) -> (r: Result<String, Error>)
        ensures
            Self::time_result(self.encode_time, r),
    {
        match self.encode_time {
            None => Err(Error::MungeError(MungeError::BadArg, MungeError::BadArg.desc())),
            Some(t) => {
                if t > 0x7fff_ffff_ffff_ffff {
                    return Err(Error::InvalidTime);
                }
                match timestamp_rfc3339(t as i64) {
                    Some(s) => Ok(s),
                    None => Err(Error::InvalidTime),
                }
            },
        }
    }

    /// The decode time of the last decoded credential, rendered as an
    /// RFC 3339 calendar timestamp.  Fails with `BadArg` until a decode has
    /// populated this context, and with `InvalidTime` if the stored second
    /// count lies outside the representable calendar range.
    pub fn decode_time(&self) -> (r: Result<String, Error>)
        ensures
            Self::time_result(self.decode_time, r),
    {
        match self.decode_time {
            None => Err(Error::MungeError(MungeError::BadArg, MungeError::BadArg.desc())),
            Some(t) => {
                if t > 0x7fff_ffff_ffff_ffff {
                    return Err(Error::InvalidTime);
                }
                match timestamp_rfc3339(t as i64) {
                    Some(s) => Ok(s),
                    None => Err(Error::InvalidTime),
                }
            },
        }
    }
}

} // verus!
