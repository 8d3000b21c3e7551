//! User profile details, and the deterministic fallback profile picture:
//! a checksum of the principal picks one of the well-known avatars.

use vstd::prelude::*;

use crate::consts::{GOBGOB_PROPIC_URL, GOBGOB_TOTAL_COUNT};
use crate::digits::{dec_digits, u128_to_dec_string};
use vstd::string::StringSliceAdditionalSpecFns;
use vstd::utf8::encode_utf8;

verus! {

/// What the CRC-32 checksum of a byte run is: a function of the bytes
/// alone, computed by the outside checksum routine.
pub uninterp spec fn crc32_of(bytes: Seq<u8>) -> u32;

/// Relies on crc32fast::hash: the CRC-32 (IEEE) checksum of the bytes
/// alone.
#[verifier::external_body]
fn crc32_hash(bytes: &[u8]) -> (r: u32)
    ensures
        r == crc32_of(bytes@),
{
    crc32fast::hash(bytes)
}

/// The avatar index a principal hashes to: one of the
/// [`GOBGOB_TOTAL_COUNT`] well-known avatars, numbered from 1.
pub open spec fn spec_avatar_index(principal: Seq<u8>) -> u32 {
    ((crc32_of(principal) % GOBGOB_TOTAL_COUNT) + 1) as u32
}

fn index_from_principal(principal: &str) -> (r: u32)
    ensures
        r == spec_avatar_index(encode_utf8(principal@)),
        1 <= r <= GOBGOB_TOTAL_COUNT,
{
    let hash_value = crc32_hash(principal.as_bytes());
    (hash_value % GOBGOB_TOTAL_COUNT) + 1
}

/// The fallback profile picture URL of the principal text `principal`:
/// the checksum of its encoded bytes picks the avatar.
pub open spec fn spec_propic(principal: Seq<char>) -> Seq<char> {
    GOBGOB_PROPIC_URL@ + dec_digits(spec_avatar_index(encode_utf8(principal)) as int)
        + "/public"@
}

/// The deterministic fallback profile picture of a principal: the
/// checksum of its text form's bytes picks one of the well-known avatars
/// (the engine carries principals as text, so the text is what is
/// hashed).
pub fn propic_from_principal(principal: &str) -> (r: String)
    ensures
        r@ == spec_propic(principal@),
{
    let index = index_from_principal(principal);
    let digits = u128_to_dec_string(index as u128);
    let mut url = String::from_str(GOBGOB_PROPIC_URL);
    url.append(digits.as_str());
    url.append("/public");
    url
}

/// A user's public profile.
#[derive(Clone, Debug)]
pub struct ProfileDetails {
    pub username: Option<String>,
    pub lifetime_earnings: u64,
    pub followers_cnt: u64,
    pub following_cnt: u64,
    pub profile_pic: Option<String>,
    pub display_name: Option<String>,
    /// The user's principal, in text form.
    pub principal: String,
    pub hots: u64,
    pub nots: u64,
}

impl ProfileDetails {
    /// The username, or the principal's text when no username is set.
    pub fn username_or_principal(&self) -> (r: String)
        ensures
            r@ == (match self.username {
                Some(u) => u@,
                None => self.principal@,
            }),
    {
        match &self.username {
            Some(u) => u.clone(),
            None => self.principal.clone(),
        }
    }

    /// The principal's text.
    pub fn principal(&self) -> (r: String)
        ensures
            r@ == self.principal@,
    {
        self.principal.clone()
    }

    /// The display name, falling back to the username, falling back to the
    /// principal.
    pub fn display_name_or_fallback(&self) -> (r: String)
        ensures
            r@ == (match self.display_name {
                Some(d) => d@,
                None => match self.username {
                    Some(u) => u@,
                    None => self.principal@,
                },
            }),
    {
        match &self.display_name {
            Some(d) => d.clone(),
            None => self.username_or_principal(),
        }
    }

    /// The profile picture, or the principal's deterministic fallback
    /// avatar when none (or an empty one) is set.
    pub fn profile_pic_or_random(&self) -> (r: String)
        ensures
            r@ == (match self.profile_pic {
                Some(p) => if p@.len() > 0 {
                    p@
                } else {
                    spec_propic(self.principal@)
                },
                None => spec_propic(self.principal@),
            }),
    {
        match &self.profile_pic {
            Some(p) => {
                if !p.as_str().is_empty() {
                    return p.clone();
                }
            },
            None => {},
        }
        propic_from_principal(self.principal.as_str())
    }
}

} // verus!
