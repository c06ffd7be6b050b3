use rand::Rng;
use vstd::prelude::*;

verus! {

pub const DEFAULT_LEN: i32 = 12;

pub const DEFAULT_MIN: i32 = 0;

pub const DEFAULT_MAX: i32 = 1_000_000;

pub open spec fn is_alphanumeric(c: char) -> bool {
    ('0' <= c && c <= '9') || ('a' <= c && c <= 'z') || ('A' <= c && c <= 'Z')
}

/// Relies on `rand::Rng::gen_range` over an inclusive range of the thread-local
/// generator: a value inside the range; it panics on an empty range.
#[verifier::external_body]
fn random_in_range(low: i32, high: i32) -> (r: i32)
    requires
        low <= high,
    ensures
        low <= r <= high,
{
    rand::thread_rng().gen_range(low..=high)
}

/// Relies on `rand::distributions::Alphanumeric`, sampled `len` times from the
/// thread-local generator: each character is an ASCII letter or digit.
#[verifier::external_body]
fn random_alphanumeric(len: usize) -> (r: String)
    ensures
        r@.len() == len,
        forall|i: int| 0 <= i < r@.len() ==> is_alphanumeric(#[trigger] r@[i]),
{
    rand::thread_rng().sample_iter(&rand::distributions::Alphanumeric).take(len).map(char::from).collect::<String>()
}

/// A random string of ASCII letters and digits, twelve long unless `len` says otherwise.
pub fn generate_alphanumeric_string(len: Option<i32>) -> (r: String)
    requires
        len matches Some(n) ==> n >= 0,
    ensures
        r@.len() == (match len {
            Some(n) => n,
            None => DEFAULT_LEN,
        }),
        forall|i: int| 0 <= i < r@.len() ==> is_alphanumeric(#[trigger] r@[i]),
{
    let n = match len {
        Some(n) => n,
        None => DEFAULT_LEN,
    };
    random_alphanumeric(n as usize)
}

/// A random integer in `[min, max]`, the bounds defaulting to 0 and 1 000 000.
pub fn generate_int_from_range(min: Option<i32>, max: Option<i32>) -> (r: i32)
    requires
        (match min {
            Some(v) => v,
            None => DEFAULT_MIN,
        }) <= (match max {
            Some(v) => v,
            None => DEFAULT_MAX,
        }),
    ensures
        (match min {
            Some(v) => v,
            None => DEFAULT_MIN,
        }) <= r <= (match max {
            Some(v) => v,
            None => DEFAULT_MAX,
        }),
{
    let low = match min {
        Some(v) => v,
        None => DEFAULT_MIN,
    };
    let high = match max {
        Some(v) => v,
        None => DEFAULT_MAX,
    };
    random_in_range(low, high)
}

} // verus!
