//! Encoding and decoding of the rtnetlink wire protocol: type-length-value
//! attribute records, link messages with their fixed headers, nested and
//! context-dependent link-info attributes, and the message envelope that
//! selects a body decoder by message-type code.

use vstd::prelude::*;

pub mod address_family;
pub mod bytes;
pub mod error;
pub mod link;
pub mod message;
pub mod nla;
pub mod properties;

pub use address_family::AddressFamily;
pub use error::{DecodeError, ErrorCause, ErrorFrame};
pub use message::{
    RouteNetlinkMessage, RouteNetlinkMessageBuffer, RTM_DELLINK, RTM_GETLINK, RTM_NEWLINK,
    RTM_SETLINK,
};
pub use nla::{DefaultNla, NlaBuffer};

verus! {

/// Rounds a record length up to the next 4-byte boundary, the alignment the
/// wire format requires between attribute records.
pub open spec fn spec_align4(n: int) -> int {
    if n % 4 == 0 {
        n
    } else {
        n + (4 - n % 4)
    }
}

/// Exec counterpart of [`spec_align4`].
pub fn align4(n: usize) -> (r: usize)
    requires
        n + 3 <= usize::MAX,
    ensures
        r == spec_align4(n as int),
{
    if n % 4 == 0 {
        n
    } else {
        n + (4 - n % 4)
    }
}

} // verus!
