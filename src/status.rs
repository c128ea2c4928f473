use vstd::prelude::*;

verus! {

/// The decimal digit for `d`, below 10.
pub open spec fn digit_char(d: nat) -> char {
    seq!['0', '1', '2', '3', '4', '5', '6', '7', '8', '9'][d as int]
}

/// `n` written in decimal, without leading zeros.
pub open spec fn decimal(n: nat) -> Seq<char>
    decreases n,
{
    if n < 10 {
        seq![digit_char(n)]
    } else {
        decimal(n / 10).push(digit_char(n % 10))
    }
}

/// Relies on `u64::to_string` (std's `Display` for integers): the number in
/// decimal digits, no sign, no leading zeros.
#[verifier::external_body]
pub(crate) fn decimal_text(n: u64) -> (r: String)
    ensures
        r@ == decimal(n as nat),
{
    n.to_string()
}

pub open spec fn status_prefix() -> Seq<char> {
    "HackManhattan will have people in it for the next"@
}

/// The status shown when nobody is present.
pub open spec fn empty_status() -> Seq<char> {
    "There is no one in HackManhattan 😴"@
}

/// Whole minutes of a remaining time in milliseconds.
pub open spec fn whole_minutes(remaining_ms: nat) -> nat {
    remaining_ms / 60000
}

/// The status text for a remaining time: whole hours and the minutes past
/// them, the minutes alone under an hour, and the empty status where not even
/// one whole minute remains.
pub open spec fn status_text(remaining_ms: nat) -> Seq<char> {
    let hours = whole_minutes(remaining_ms) / 60;
    let minutes = whole_minutes(remaining_ms) % 60;
    if hours > 0 {
        status_prefix() + " "@ + decimal(hours) + " hours and "@ + decimal(minutes)
            + " minutes 🤠"@
    } else if minutes > 0 {
        status_prefix() + " "@ + decimal(minutes) + " minutes 🤠"@
    } else {
        empty_status()
    }
}

/// The status shown when nobody is present.
pub fn empty_message() -> (r: String)
    ensures
        r@ == empty_status(),
{
    String::from_str("There is no one in HackManhattan 😴")
}

/// Renders a remaining time as the status text.
pub fn format_status(remaining_ms: u64) -> (r: String)
    ensures
        r@ == status_text(remaining_ms as nat),
{
    let total_minutes = remaining_ms / 60000;
    let hours = total_minutes / 60;
    let minutes = total_minutes % 60;
    if hours > 0 {
        let mut s = String::from_str("HackManhattan will have people in it for the next");
        s.append(" ");
        let h = decimal_text(hours);
        s.append(h.as_str());
        s.append(" hours and ");
        let m = decimal_text(minutes);
        s.append(m.as_str());
        s.append(" minutes 🤠");
        s
    } else if minutes > 0 {
        let mut s = String::from_str("HackManhattan will have people in it for the next");
        s.append(" ");
        let m = decimal_text(minutes);
        s.append(m.as_str());
        s.append(" minutes 🤠");
        s
    } else {
        empty_message()
    }
}

} // verus!
