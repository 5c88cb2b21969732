//! Filename helpers: extensions and unique identifiers.
use crate::text::{digits, radix_string, signed_decimal, signed_decimal_string};
use vstd::prelude::*;

verus! {

/// The extension of the path `s`, as `std::path::Path` reads it: what
/// follows the last `.` of the final component, unless that component has
/// no `.` past its first character.
pub uninterp spec fn extension_of(s: Seq<char>) -> Option<Seq<char>>;

/// Relies on `std::path::Path::extension` (and `OsStr::to_str`, which
/// cannot fail on a path made from a `str`). The documentation says that a
/// path without a `.` has no extension, and that the extension is what
/// follows the final `.`.
#[verifier::external_body]
fn path_extension(s: &str) -> (r: Option<&str>)
    ensures
        r matches Some(e) ==> extension_of(s@) == Some(e@),
        r is None ==> extension_of(s@) is None,
        (forall|i: int| 0 <= i < s@.len() ==> s@[i] != '.') ==> r is None,
        r matches Some(e) ==> forall|i: int| 0 <= i < e@.len() ==> e@[i] != '.',
{
    std::path::Path::new(s).extension().and_then(|e| e.to_str())
}

/// The extension of `filename`, if it has one.
pub fn get_file_extension(filename: &str) -> (r: Option<&str>)
    ensures
        r matches Some(e) ==> extension_of(filename@) == Some(e@),
        r is None ==> extension_of(filename@) is None,
        (forall|i: int| 0 <= i < filename@.len() ==> filename@[i] != '.') ==> r is None,
{
    path_extension(filename)
}

/// An identifier made of a millisecond timestamp and a random number: the
/// timestamp in decimal, `_`, the number in lower-case hexadecimal.
pub open spec fn unique_id_text(millis: int, random: nat) -> Seq<char> {
    signed_decimal(millis) + "_"@ + digits(random, 16)
}

/// The identifier for the timestamp `millis` and the random number `random`.
pub fn unique_id(millis: i64, random: u32) -> (r: String)
    ensures
        r@ == unique_id_text(millis as int, random as nat),
{
    let time = signed_decimal_string(millis);
    let hex = radix_string(random as u64, 16);
    time.concat("_").concat(hex.as_str())
}

/// Relies on `chrono::Utc::now` and `DateTime::timestamp_millis`: the time
/// now in milliseconds since the epoch.
#[verifier::external_body]
fn now_millis() -> (r: i64) {
    chrono::Utc::now().timestamp_millis()
}

/// Relies on `rand::random` (the thread-local generator): a random number.
#[verifier::external_body]
fn random_u32() -> (r: u32) {
    rand::random::<u32>()
}

/// A fresh identifier from the time now and a random number.
pub fn generate_unique_id() -> (r: String)
    ensures
        exists|millis: i64, random: u32| r@ == unique_id_text(millis as int, random as nat),
{
    let millis = now_millis();
    let random = random_u32();
    unique_id(millis, random)
}

} // verus!
