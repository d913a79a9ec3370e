//! The encoding lookup: the call that asks for a character's bytes in one of
//! the printer's character tables.
//!
//! The conversion is done by the `iconv` crate, which opens a converter of
//! the platform's iconv for every call. What comes back depends on the
//! converters that the platform has installed and on the state of the
//! process, not on the character alone, so nothing is claimed of it: the
//! library is verified for every outcome of the call.

use vstd::prelude::*;
use crate::charset::CharacterTable;

verus! {

/// Calls `iconv::encode` on the one-character UTF-8 text `ch`, with the name
/// of one of the two character tables as the target encoding, and returns the
/// converted bytes, or `None` for any error of the conversion.
///
/// Trusted, and without a claim on the result: an error may mean that the
/// encoding does not have the character, that the platform does not know the
/// encoding, or that the platform's call failed for a reason of its own.
/// `iconv::encode` panics on an encoding name with a NUL in it; the two names
/// that are admitted have none.
#[verifier::external_body]
pub(crate) fn encode_char(ch: char, encoding: &str) -> (r: Option<Vec<u8>>)
    requires
        encoding@ == CharacterTable::CP437.encoding_name() || encoding@
            == CharacterTable::CP866.encoding_name(),
{
    iconv::encode(ch.to_string().as_str(), encoding).ok()
}

} // verus!
