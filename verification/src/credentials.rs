//! Extracting the developer key and secret from the credential file's
//! two lines.
//!
//! The file format is `key: <value>` on the first line and
//! `secret: <value>` on the second: the literal prefix length, not the
//! label text, determines the split, so the key is everything after the
//! first four characters and the secret everything after the first
//! seven.

use vstd::prelude::*;
use vstd::string::{StringExecFns, StrSliceExecFns};
use crate::records::Credentials;

verus! {

/// The number of characters that precede the key on its line.
pub open spec fn key_prefix_len() -> int {
    4
}

/// The number of characters that precede the secret on its line.
pub open spec fn secret_prefix_len() -> int {
    7
}

/// Extracts the credential pair from the file's first two lines. Lines
/// shorter than their prefixes carry no value and are left out here;
/// the caller treats them as a failure to read the file.
pub fn extract_credentials(line1: &str, line2: &str) -> (r: Credentials)
    requires
        line1@.len() >= key_prefix_len(),
        line2@.len() >= secret_prefix_len(),
    ensures
        r@.api_key == line1@.skip(key_prefix_len()),
        r@.api_secret == line2@.skip(secret_prefix_len()),
{
    let n1: usize = line1.unicode_len();
    let api_key = line1.substring_char(4, n1).to_owned();
    let n2: usize = line2.unicode_len();
    let api_secret = line2.substring_char(7, n2).to_owned();
    proof {
        assert(line1@.subrange(4, n1 as int) =~= line1@.skip(4));
        assert(line2@.subrange(7, n2 as int) =~= line2@.skip(7));
    }
    Credentials { api_key, api_secret }
}

} // verus!
