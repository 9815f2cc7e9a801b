use vstd::prelude::*;

verus! {

/// The options of a [`crate::Context`], each with the numeric identifier the
/// service protocol uses for it.
#[allow(non_camel_case_types)]
#[derive(Debug, Clone, Copy, PartialEq, Eq, Structural)]
pub enum MungeOption {
    CIPHER_TYPE,
    MAC_TYPE,
    ZIP_TYPE,
    REALM,
    TTL,
    ADDR4,
    ENCODE_TIME,
    DECODE_TIME,
    SOCKET,
    UID_RESTRICTION,
    GID_RESTRICTION,
}

impl MungeOption {
    /// The numeric identifier of this option.
    pub open spec fn code(self) -> u32 {
        match self {
            MungeOption::CIPHER_TYPE => 0,
            MungeOption::MAC_TYPE => 1,
            MungeOption::ZIP_TYPE => 2,
            MungeOption::REALM => 3,
            MungeOption::TTL => 4,
            MungeOption::ADDR4 => 5,
            MungeOption::ENCODE_TIME => 6,
            MungeOption::DECODE_TIME => 7,
            MungeOption::SOCKET => 8,
            MungeOption::UID_RESTRICTION => 9,
            MungeOption::GID_RESTRICTION => 10,
        }
    }

    /// Converts this option to its numeric identifier.
    pub fn to_u32(self) -> (r: u32)
        ensures
            r == self.code(),
    {
        match self {
            MungeOption::CIPHER_TYPE => 0,
            MungeOption::MAC_TYPE => 1,
            MungeOption::ZIP_TYPE => 2,
            MungeOption::REALM => 3,
            MungeOption::TTL => 4,
            MungeOption::ADDR4 => 5,
            MungeOption::ENCODE_TIME => 6,
            MungeOption::DECODE_TIME => 7,
            MungeOption::SOCKET => 8,
            MungeOption::UID_RESTRICTION => 9,
            MungeOption::GID_RESTRICTION => 10,
        }
    }
}

} // verus!
