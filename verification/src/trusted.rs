//! The boundary to code that is called but not verified: the identifier and
//! timestamp types, the random draws, the clock and the string validators.
//! Each contract here is taken on trust from the called crate's source or
//! documentation; everything else in the crate is proved from them.

use vstd::prelude::*;

use validator::ValidateEmail;
use validator::ValidateLength;

verus! {

/// `uuid::Uuid`, carried through as an opaque identifier. Only equality of
/// two identifiers is ever used in a contract.
#[verifier::external_type_specification]
#[verifier::external_body]
pub struct ExUuid(uuid::Uuid);

/// `chrono::NaiveDateTime`, carried through as an opaque timestamp.
#[verifier::external_type_specification]
#[verifier::external_body]
pub struct ExNaiveDateTime(chrono::NaiveDateTime);

/// `rand::random_ratio`: a coin that lands `true` with probability
/// `numerator / denominator`. It panics when the denominator is zero or
/// smaller than the numerator, so both are excluded. Its documentation
/// fixes the two certain outcomes; of every other draw nothing is known.
pub assume_specification[ rand::random_ratio ](numerator: u32, denominator: u32) -> (hit: bool)
    requires
        denominator > 0,
        numerator <= denominator,
    ensures
        numerator == denominator ==> hit,
        numerator == 0 ==> !hit,
;

/// `rand::random_range` on the half-open range `low..high` of `u8`. It
/// panics on an empty range, which is excluded. The value drawn lies in the
/// range; which value it is, is not known. Like every draw here it uses the
/// generator of the current thread, which panics if the operating system
/// gives it no seed.
#[verifier::external_body]
pub(crate) fn random_in_range(low: u8, high: u8) -> (value: u8)
    requires
        low < high,
    ensures
        low <= value < high,
{
    rand::random_range(low..high)
}

/// `chrono::Utc::now` followed by `naive_utc`: the current time of the
/// machine, without a time zone. Nothing is claimed of the value. The call
/// panics on a machine whose clock stands before 1970; that depends on no
/// argument, so no precondition can leave it out.
#[verifier::external_body]
pub(crate) fn current_time() -> chrono::NaiveDateTime {
    chrono::Utc::now().naive_utc()
}

/// `String::push`: appends one character at the end.
pub assume_specification[ String::push ](text: &mut String, ch: char)
    ensures
        final(text)@ == old(text)@.push(ch),
;

/// What `validator` accepts as a length: with `equal` set, exactly that
/// length, whatever the bounds; otherwise any length within the bounds that
/// are set.
pub open spec fn length_accepted(
    length: nat,
    min: Option<u64>,
    max: Option<u64>,
    equal: Option<u64>,
) -> bool {
    match equal {
        Some(wanted) => length == wanted,
        None => (min matches Some(least) ==> length >= least) && (max matches Some(most) ==> length
            <= most),
    }
}

/// `validator::ValidateLength::validate_length` on a `String`, whose length
/// the validator takes to be its number of characters.
#[verifier::external_body]
pub(crate) fn validate_length(
    value: &String,
    min: Option<u64>,
    max: Option<u64>,
    equal: Option<u64>,
) -> (ok: bool)
    ensures
        ok == length_accepted(value@.len(), min, max, equal),
{
    value.validate_length(min, max, equal)
}

/// Whether `validator` accepts the text as an e-mail address. The rule is
/// the one that HTML5 forms use, with length limits on both parts and with
/// internationalised domain names: it depends on the text alone.
pub uninterp spec fn email_accepted(text: Seq<char>) -> bool;

/// `validator::ValidateEmail::validate_email` on a `String`. The answer is
/// the named rule; the validator's source shows at its first test that an
/// empty text, and one without `@`, are turned down.
#[verifier::external_body]
pub(crate) fn validate_email(email: &String) -> (ok: bool)
    ensures
        ok == email_accepted(email@),
        email@.len() == 0 ==> !ok,
        !email@.contains('@') ==> !ok,
{
    email.validate_email()
}

} // verus!
