use crate::strategy::RequestStrategy;
use vstd::prelude::*;

verus! {

/// A lower-case hexadecimal digit.
pub open spec fn lower_hex_digit(c: char) -> bool {
    ('0' <= c && c <= '9') || ('a' <= c && c <= 'f')
}

/// The hyphenated lower-case text of a random (version 4, RFC 4122 variant)
/// UUID: 36 characters, hyphens at 8, 13, 18 and 23, hex digits elsewhere, the
/// version digit `4` at 14 and one of `89ab` at 19.
pub open spec fn uuid_v4_text(s: Seq<char>) -> bool {
    &&& s.len() == 36
    &&& forall|i: int|
        0 <= i < 36 ==> if i == 8 || i == 13 || i == 18 || i == 23 {
            #[trigger] s[i] == '-'
        } else {
            lower_hex_digit(s[i])
        }
    &&& s[14] == '4'
    &&& (s[19] == '8' || s[19] == '9' || s[19] == 'a' || s[19] == 'b')
}

/// Relies on uuid::Uuid::new_v4 and its Display impl: 122 random bits with the
/// version set to 4 and the variant to RFC 4122, written as hyphenated
/// lower-case hex. Panics only where the system's random source fails.
#[verifier::external_body]
fn fresh_key() -> (r: String)
    ensures
        uuid_v4_text(r@),
{
    uuid::Uuid::new_v4().to_string()
}

impl RequestStrategy {
    /// The idempotency key to send, given a freshly generated one: none for
    /// `Once`, the caller's key for `Idempotent`, and `fresh` for the retrying
    /// strategies.
    pub fn key_with(&self, fresh: String) -> (r: Option<String>)
        ensures
            match *self {
                RequestStrategy::Once => r is None,
                RequestStrategy::Idempotent(key) => r matches Some(k) && k@ == key@,
                _ => r matches Some(k) && k@ == fresh@,
            },
    {
        match self {
            RequestStrategy::Once => None,
            RequestStrategy::Idempotent(key) => Some(key.clone()),
            RequestStrategy::Retry(_) | RequestStrategy::ExponentialBackoff(_) => Some(fresh),
        }
    }

    /// The idempotency key for one logical request: none for `Once`, the
    /// caller's key for `Idempotent`, and a new random UUID for the retrying
    /// strategies. Call it once per request and send the same key with every
    /// attempt.
    pub fn get_key(&self) -> (r: Option<String>)
        ensures
            match *self {
                RequestStrategy::Once => r is None,
                RequestStrategy::Idempotent(key) => r matches Some(k) && k@ == key@,
                _ => r matches Some(k) && uuid_v4_text(k@),
            },
    {
        match self {
            RequestStrategy::Retry(_) | RequestStrategy::ExponentialBackoff(_) => {
                self.key_with(fresh_key())
            },
            _ => self.key_with(String::new()),
        }
    }
}

} // verus!
