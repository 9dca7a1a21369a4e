//! Identifiers and clock readings.

use vstd::prelude::*;

verus! {

/// A lowercase hexadecimal digit.
pub open spec fn is_lower_hex(c: char) -> bool {
    ('0' <= c && c <= '9') || ('a' <= c && c <= 'f')
}

/// The simple (unhyphenated) text form of a UUID: 32 lowercase hex digits.
pub open spec fn is_simple_uuid(u: Seq<char>) -> bool {
    u.len() == 32 && forall|i: int| 0 <= i < 32 ==> is_lower_hex(#[trigger] u[i])
}

/// An identifier made by `new_id(prefix)`: the prefix, an underscore and a simple UUID.
pub open spec fn is_generated_id(prefix: Seq<char>, id: Seq<char>) -> bool {
    &&& id.len() == prefix.len() + 33
    &&& id.subrange(0, prefix.len() as int) == prefix
    &&& id[prefix.len() as int] == '_'
    &&& is_simple_uuid(id.subrange(prefix.len() as int + 1, id.len() as int))
}

/// A fresh random UUID in its simple text form.
/// Calls `uuid::Uuid::new_v4()` and formats it with `.simple()`; the contract claims
/// only the shape that the crate's formatter writes: 32 lowercase hexadecimal digits.
/// Which digits come out is random and is not stated.
#[verifier::external_body]
fn random_uuid_simple() -> (r: String)
    ensures
        is_simple_uuid(r@),
{
    uuid::Uuid::new_v4().simple().to_string()
}

/// A new identifier `"{prefix}_{uuid}"`.
pub fn new_id(prefix: &str) -> (r: String)
    ensures
        is_generated_id(prefix@, r@),
{
    let u = random_uuid_simple();
    let mut r = String::from_str(prefix);
    r.append("_");
    r.append(u.as_str());
    proof {
        assert("_"@.len() == 1) by {
            reveal_strlit("_");
        }
        assert("_"@[0] == '_') by {
            reveal_strlit("_");
        }
        assert(r@.subrange(0, prefix@.len() as int) =~= prefix@);
        assert(r@.subrange(prefix@.len() as int + 1, r@.len() as int) =~= u@);
    }
    r
}

/// The current time, in milliseconds since the Unix epoch (UTC).
/// Calls `chrono::Utc::now()` and reads `timestamp_millis()`; nothing is stated of the
/// value, which depends on the clock.
#[verifier::external_body]
pub fn now_utc() -> (r: i64) {
    chrono::Utc::now().timestamp_millis()
}

/// A new API token: an identifier with the prefix `token`.
pub fn generate_token() -> (r: String)
    ensures
        is_generated_id("token"@, r@),
{
    new_id("token")
}

} // verus!
