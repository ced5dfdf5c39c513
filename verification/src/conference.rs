use vstd::prelude::*;
use vstd::string::StringExecFns;

use crate::text::contains_seq;
use crate::text::contains_substring;
use crate::text::decimal_of;
use crate::text::to_decimal;

verus! {

/// The greeting composed for `name` at the venue called `conf`.
pub open spec fn greeting_of(name: Seq<char>, conf: Seq<char>) -> Seq<char> {
    "Hello "@ + name + ", welcome to "@ + conf
}

/// Take a name and say hello.
pub fn say_hello(name: String, conf: String) -> (r: String)
    ensures
        r@ == greeting_of(name@, conf@),
{
    let mut r = "Hello ".to_owned();
    r.append(name.as_str());
    r.append(", welcome to ");
    r.append(conf.as_str());
    proof {
        assert(r@ =~= greeting_of(name@, conf@));
    }
    r
}

/// The greeting for a caller who did not name a venue.
pub fn say_hello_default(name: String) -> (r: String)
    ensures
        r@ == greeting_of(name@, "the conference"@),
{
    say_hello(name, "the conference".to_owned())
}

/// Decide a registration lookup from the registration list already read in:
/// one of exactly two literal status strings, according to whether `name`
/// occurs in `contents`. Opening and reading the list is the host's work.
pub fn registration_status(contents: &str, name: &str) -> (r: String)
    ensures
        contains_seq(contents@, name@) ==> r@ == "You are registered!"@,
        !contains_seq(contents@, name@) ==> r@ == "Sorry you are not in our list!"@,
{
    if contains_substring(contents, name) {
        "You are registered!".to_owned()
    } else {
        "Sorry you are not in our list!".to_owned()
    }
}

/// Give a list of attendees and count.
pub fn count_att(att_list: Vec<String>) -> (r: usize)
    ensures
        r == att_list@.len(),
{
    att_list.len()
}

/// Format the sum of two numbers as a decimal string.
pub fn sum_as_string(a: usize, b: usize) -> (r: String)
    requires
        a + b <= usize::MAX,
    ensures
        r@ == decimal_of((a + b) as nat),
{
    to_decimal(a + b)
}

} // verus!
