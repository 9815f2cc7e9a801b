use vstd::prelude::*;

verus! {

/// Status kinds reported by the credential service.  Code `0` means success
/// and is never represented here; the codes `1` through `18` map onto the
/// variants below, in order.
#[derive(Debug, Clone, Copy, PartialEq, Eq, Structural)]
pub enum MungeError {
    Snafu,
    BadArg,
    BadLength,
    Overflow,
    NoMemory,
    Socket,
    Timeout,
    BadCred,
    BadVersion,
    BadCipher,
    BadMac,
    BadZip,
    BadRealm,
    CredInvalid,
    CredExpired,
    CredRewound,
    CredReplayed,
    CredUnauthorized,
}

impl MungeError {
    /// The numeric status code of this kind.
    pub open spec fn code(self) -> u32 {
        match self {
            MungeError::Snafu => 1,
            MungeError::BadArg => 2,
            MungeError::BadLength => 3,
            MungeError::Overflow => 4,
            MungeError::NoMemory => 5,
            MungeError::Socket => 6,
            MungeError::Timeout => 7,
            MungeError::BadCred => 8,
            MungeError::BadVersion => 9,
            MungeError::BadCipher => 10,
            MungeError::BadMac => 11,
            MungeError::BadZip => 12,
            MungeError::BadRealm => 13,
            MungeError::CredInvalid => 14,
            MungeError::CredExpired => 15,
            MungeError::CredRewound => 16,
            MungeError::CredReplayed => 17,
            MungeError::CredUnauthorized => 18,
        }
    }

    /// The human-readable description of this kind.
    pub open spec fn desc_chars(self) -> Seq<char> {
        match self {
            MungeError::Snafu => "Snafu error"@,
            MungeError::BadArg => "Bad argument"@,
            MungeError::BadLength => "Bad length"@,
            MungeError::Overflow => "Overflow error"@,
            MungeError::NoMemory => "No memory available"@,
            MungeError::Socket => "Socket error"@,
            MungeError::Timeout => "Operation timed out"@,
            MungeError::BadCred => "Bad credential"@,
            MungeError::BadVersion => "Bad version"@,
            MungeError::BadCipher => "Bad cipher"@,
            MungeError::BadMac => "Bad MAC"@,
            MungeError::BadZip => "Bad ZIP"@,
            MungeError::BadRealm => "Bad realm"@,
            MungeError::CredInvalid => "Credential invalid"@,
            MungeError::CredExpired => "Credential expired"@,
            MungeError::CredRewound => "Credential rewound"@,
            MungeError::CredReplayed => "Credential replayed"@,
            MungeError::CredUnauthorized => "Credential unauthorized"@,
        }
    }

    /// Converts this kind to its numeric status code.
    pub fn to_u32(self) -> (r: u32)
        ensures
            r == self.code(),
    {
        match self {
            MungeError::Snafu => 1,
            MungeError::BadArg => 2,
            MungeError::BadLength => 3,
            MungeError::Overflow => 4,
            MungeError::NoMemory => 5,
            MungeError::Socket => 6,
            MungeError::Timeout => 7,
            MungeError::BadCred => 8,
            MungeError::BadVersion => 9,
            MungeError::BadCipher => 10,
            MungeError::BadMac => 11,
            MungeError::BadZip => 12,
            MungeError::BadRealm => 13,
            MungeError::CredInvalid => 14,
            MungeError::CredExpired => 15,
            MungeError::CredRewound => 16,
            MungeError::CredReplayed => 17,
            MungeError::CredUnauthorized => 18,
        }
    }

    /// Maps a numeric status code onto a kind.  The mapping is total: any
    /// code outside the defined range (including `0`, which signals success
    /// and should never reach an error path) falls back to `BadArg`.
    pub fn from_u32(err: u32) -> (r: MungeError)
        ensures
            r.code() == if 1 <= err <= 18 { err } else { 2u32 },
    {
        match err {
            1 => MungeError::Snafu,
            2 => MungeError::BadArg,
            3 => MungeError::BadLength,
            4 => MungeError::Overflow,
            5 => MungeError::NoMemory,
            6 => MungeError::Socket,
            7 => MungeError::Timeout,
            8 => MungeError::BadCred,
            9 => MungeError::BadVersion,
            10 => MungeError::BadCipher,
            11 => MungeError::BadMac,
            12 => MungeError::BadZip,
            13 => MungeError::BadRealm,
            14 => MungeError::CredInvalid,
            15 => MungeError::CredExpired,
            16 => MungeError::CredRewound,
            17 => MungeError::CredReplayed,
            18 => MungeError::CredUnauthorized,
            _ => MungeError::BadArg,
        }
    }

    /// Builds the human-readable description of this kind.
    pub fn desc(self) -> (r: String)
        ensures
            r@ == self.desc_chars(),
    {
        match self {
            MungeError::Snafu => String::from_str("Snafu error"),
            MungeError::BadArg => String::from_str("Bad argument"),
            MungeError::BadLength => String::from_str("Bad length"),
            MungeError::Overflow => String::from_str("Overflow error"),
            MungeError::NoMemory => String::from_str("No memory available"),
            MungeError::Socket => String::from_str("Socket error"),
            MungeError::Timeout => String::from_str("Operation timed out"),
            MungeError::BadCred => String::from_str("Bad credential"),
            MungeError::BadVersion => String::from_str("Bad version"),
            MungeError::BadCipher => String::from_str("Bad cipher"),
            MungeError::BadMac => String::from_str("Bad MAC"),
            MungeError::BadZip => String::from_str("Bad ZIP"),
            MungeError::BadRealm => String::from_str("Bad realm"),
            MungeError::CredInvalid => String::from_str("Credential invalid"),
            MungeError::CredExpired => String::from_str("Credential expired"),
            MungeError::CredRewound => String::from_str("Credential rewound"),
            MungeError::CredReplayed => String::from_str("Credential replayed"),
            MungeError::CredUnauthorized => String::from_str("Credential unauthorized"),
        }
    }
}

/// Everything that can go wrong in this library: a service status kind with
/// its description, and the purely local failures of this layer.
#[derive(Debug, Clone, PartialEq, Eq)]
pub enum Error {
    /// A status kind reported by the credential service, with its
    /// human-readable description.
    MungeError(MungeError, String),
    /// Text handed back by the service was not valid UTF-8.
    InvalidUtf8,
    /// Bytes produced during decoding could not be lifted to a string.
    InvalidFromUtf8,
    /// An input contained an embedded NUL terminator and cannot be framed.
    InnerNull,
    /// The socket path is not representable as UTF-8 text.
    NonUtf8SocketPath,
    /// A numeric value read back does not name any cipher type.
    TryFromPrimitiveCipher(u32),
    /// A numeric value read back does not name any MAC type.
    TryFromPrimitiveMac(u32),
    /// A numeric value read back does not name any compression type.
    TryFromPrimitiveZip(u32),
    /// A timestamp is outside the representable calendar range.
    InvalidTime,
}

/// Symmetric cipher types a credential's payload may be encrypted with.
#[derive(Debug, Clone, Copy, PartialEq, Eq, Structural)]
pub enum MungeCipher {
    CipherNone,
    Default,
    Blowfish,
    Cast5,
    Aes128,
    Aes256,
}

impl MungeCipher {
    /// The numeric identifier of this cipher type.
    pub open spec fn code(self) -> u32 {
        match self {
            MungeCipher::CipherNone => 0,
            MungeCipher::Default => 1,
            MungeCipher::Blowfish => 2,
            MungeCipher::Cast5 => 3,
            MungeCipher::Aes128 => 4,
            MungeCipher::Aes256 => 5,
        }
    }

    /// Converts this cipher type to its numeric identifier.
    pub fn to_u32(self) -> (r: u32)
        ensures
            r == self.code(),
    {
        match self {
            MungeCipher::CipherNone => 0,
            MungeCipher::Default => 1,
            MungeCipher::Blowfish => 2,
            MungeCipher::Cast5 => 3,
            MungeCipher::Aes128 => 4,
            MungeCipher::Aes256 => 5,
        }
    }

    /// Maps a numeric identifier onto a cipher type; identifiers outside the
    /// defined range are rejected rather than coerced.
    pub fn from_u32(v: u32) -> (r: Result<MungeCipher, Error>)
        ensures
            v <= 5 ==> (r matches Ok(c) && c.code() == v),
            v > 5 ==> r == Err::<MungeCipher, Error>(Error::TryFromPrimitiveCipher(v)),
    {
        match v {
            0 => Ok(MungeCipher::CipherNone),
            1 => Ok(MungeCipher::Default),
            2 => Ok(MungeCipher::Blowfish),
            3 => Ok(MungeCipher::Cast5),
            4 => Ok(MungeCipher::Aes128),
            5 => Ok(MungeCipher::Aes256),
            _ => Err(Error::TryFromPrimitiveCipher(v)),
        }
    }
}

/// Message authentication code types protecting a credential's integrity.
#[derive(Debug, Clone, Copy, PartialEq, Eq, Structural)]
pub enum MungeMac {
    MacNone,
    Default,
    MD5,
    SHA1,
    RIPEMD160,
    SHA256,
    SHA512,
}

impl MungeMac {
    /// The numeric identifier of this MAC type.
    pub open spec fn code(self) -> u32 {
        match self {
            MungeMac::MacNone => 0,
            MungeMac::Default => 1,
            MungeMac::MD5 => 2,
            MungeMac::SHA1 => 3,
            MungeMac::RIPEMD160 => 4,
            MungeMac::SHA256 => 5,
            MungeMac::SHA512 => 6,
        }
    }

    /// Converts this MAC type to its numeric identifier.
    pub fn to_u32(self) -> (r: u32)
        ensures
            r == self.code(),
    {
        match self {
            MungeMac::MacNone => 0,
            MungeMac::Default => 1,
            MungeMac::MD5 => 2,
            MungeMac::SHA1 => 3,
            MungeMac::RIPEMD160 => 4,
            MungeMac::SHA256 => 5,
            MungeMac::SHA512 => 6,
        }
    }

    /// Maps a numeric identifier onto a MAC type; identifiers outside the
    /// defined range are rejected rather than coerced.
    pub fn from_u32(v: u32) -> (r: Result<MungeMac, Error>)
        ensures
            v <= 6 ==> (r matches Ok(m) && m.code() == v),
            v > 6 ==> r == Err::<MungeMac, Error>(Error::TryFromPrimitiveMac(v)),
    {
        match v {
            0 => Ok(MungeMac::MacNone),
            1 => Ok(MungeMac::Default),
            2 => Ok(MungeMac::MD5),
            3 => Ok(MungeMac::SHA1),
            4 => Ok(MungeMac::RIPEMD160),
            5 => Ok(MungeMac::SHA256),
            6 => Ok(MungeMac::SHA512),
            _ => Err(Error::TryFromPrimitiveMac(v)),
        }
    }
}

/// Compression types a credential's payload may be compressed with.
#[derive(Debug, Clone, Copy, PartialEq, Eq, Structural)]
pub enum MungeZip {
    ZipNone,
    Default,
    Bzlib,
    Zlib,
}

impl MungeZip {
    /// The numeric identifier of this compression type.
    pub open spec fn code(self) -> u32 {
        match self {
            MungeZip::ZipNone => 0,
            MungeZip::Default => 1,
            MungeZip::Bzlib => 2,
            MungeZip::Zlib => 3,
        }
    }

    /// Converts this compression type to its numeric identifier.
    pub fn to_u32(self) -> (r: u32)
        ensures
            r == self.code(),
    {
        match self {
            MungeZip::ZipNone => 0,
            MungeZip::Default => 1,
            MungeZip::Bzlib => 2,
            MungeZip::Zlib => 3,
        }
    }

    /// Maps a numeric identifier onto a compression type; identifiers outside
    /// the defined range are rejected rather than coerced.
    pub fn from_u32(v: u32) -> (r: Result<MungeZip, Error>)
        ensures
            v <= 3 ==> (r matches Ok(z) && z.code() == v),
            v > 3 ==> r == Err::<MungeZip, Error>(Error::TryFromPrimitiveZip(v)),
    {
        match v {
            0 => Ok(MungeZip::ZipNone),
            1 => Ok(MungeZip::Default),
            2 => Ok(MungeZip::Bzlib),
            3 => Ok(MungeZip::Zlib),
            _ => Err(Error::TryFromPrimitiveZip(v)),
        }
    }
}

} // verus!
