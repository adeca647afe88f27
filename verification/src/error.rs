use vstd::prelude::*;

verus! {

/// The I/O error that readers of byte slices report when input runs short.
#[verifier::external_type_specification]
#[verifier::external_body]
pub struct ExIoError(std::io::Error);

/// Everything that can go wrong in this library.
#[derive(Debug)]
pub enum Error {
    /// The input ended (or otherwise failed) while a value was being read.
    Io(std::io::Error),
    /// The server answered with a non-zero status code.
    MemcacheError(u16),
    /// The client detected a protocol violation or was given bad arguments.
    ClientError(String),
    /// Something the protocol does not describe was received.
    UnknownError(String),
}

} // verus!

verus! {

/// The character of a decimal digit `d` (`0` to `9`).
pub open spec fn digit_char(d: nat) -> char {
    (48 + d) as char
}

/// The decimal numeral of `n`, without sign or leading zeros.
pub open spec fn decimal_digits(n: nat) -> Seq<char>
    decreases n,
{
    if n < 10 {
        seq![digit_char(n)]
    } else {
        decimal_digits(n / 10).push(digit_char(n % 10))
    }
}

/// `ToString::to_string` on a `u64`, which goes through its `Display`
/// implementation: the number in decimal, without sign or leading zeros.
#[verifier::external_body]
fn decimal_string(n: u64) -> (s: String)
    ensures
        s@ == decimal_digits(n as nat),
{
    n.to_string()
}

/// `prefix` followed by `n` in decimal, as error messages quote numbers.
pub fn numbered_message(prefix: &str, n: u64) -> (s: String)
    ensures
        s@ == prefix@ + decimal_digits(n as nat),
{
    let mut s = String::from_str(prefix);
    let digits = decimal_string(n);
    s.append(digits.as_str());
    s
}

} // verus!
