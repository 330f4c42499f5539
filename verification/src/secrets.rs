//! The application's settings for signing in, as they are sent.

use vstd::prelude::*;

verus! {

/// What `rocket` makes of a text when it percent-encodes it.
pub uninterp spec fn rocket_percent_encoding(text: Seq<char>) -> Seq<char>;

/// Calls `rocket::http::RawStr::percent_encode` on the text. Claimed: the
/// result is `rocket_percent_encoding` of the text.
#[verifier::external_body]
fn percent_encode(text: &str) -> (res: String)
    ensures
        res@ == rocket_percent_encoding(text@),
{
    rocket::http::RawStr::new(text).percent_encode().to_string()
}

/// The address the sign-in returns to, percent-encoded, from its setting.
pub fn redirect_uri(setting: &str) -> (res: String)
    ensures
        res@ == rocket_percent_encoding(setting@),
{
    percent_encode(setting)
}

/// The permissions asked for, percent-encoded, from their setting.
pub fn scope(setting: &str) -> (res: String)
    ensures
        res@ == rocket_percent_encoding(setting@),
{
    percent_encode(setting)
}

} // verus!
