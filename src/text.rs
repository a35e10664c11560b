//! The text forms in which records and failures are reported.
use vstd::prelude::*;
use vstd::string::*;
use vstd::utf8::*;

verus! {

/// The character of a decimal digit.
pub open spec fn digit_char(d: nat) -> char {
    if d == 0 {
        '0'
    } else if d == 1 {
        '1'
    } else if d == 2 {
        '2'
    } else if d == 3 {
        '3'
    } else if d == 4 {
        '4'
    } else if d == 5 {
        '5'
    } else if d == 6 {
        '6'
    } else if d == 7 {
        '7'
    } else if d == 8 {
        '8'
    } else {
        '9'
    }
}

/// Decimal notation of a natural number, without leading zeros.
pub open spec fn decimal(n: nat) -> Seq<char>
    decreases n,
{
    if n < 10 {
        seq![digit_char(n)]
    } else {
        decimal(n / 10).push(digit_char(n % 10))
    }
}

/// Dotted-decimal notation of an IPv4 address given by its four octets.
pub open spec fn ipv4_spec(octets: Seq<u8>) -> Seq<char> {
    decimal(octets[0] as nat) + seq!['.'] + decimal(octets[1] as nat) + seq!['.'] + decimal(
        octets[2] as nat,
    ) + seq!['.'] + decimal(octets[3] as nat)
}

/// A mail-exchange record as plain values: its preference and the text of
/// its exchange host.
pub struct MxData {
    pub preference: u16,
    pub exchange: String,
}

/// Text of a mail-exchange record: the preference, a space, the host.
pub open spec fn mx_spec(preference: u16, exchange: Seq<char>) -> Seq<char> {
    decimal(preference as nat) + seq![' '] + exchange
}

/// The prefix that sets a failure apart from record data.
pub open spec fn error_prefix() -> Seq<char> {
    seq!['E', 'r', 'r', 'o', 'r', ':', ' ']
}

/// The marker that reports a failed query with the given message.
pub open spec fn error_spec(message: Seq<char>) -> Seq<char> {
    error_prefix() + message
}

/// Text of a byte string decoded as UTF-8, each invalid sequence replaced by
/// U+FFFD.
pub uninterp spec fn lossy_text(bytes: Seq<u8>) -> Seq<char>;

/// Relies on `String::push`: the character is appended at the end.
#[verifier::external_body]
fn push_char(s: &mut String, c: char)
    ensures
        final(s)@ == old(s)@.push(c),
{
    s.push(c)
}

/// Relies on `String::from_utf8_lossy`: it never fails, and on valid UTF-8 it
/// yields exactly the decoded characters.
#[verifier::external_body]
fn decode_lossy(bytes: &Vec<u8>) -> (r: String)
    ensures
        r@ == lossy_text(bytes@),
        valid_utf8(bytes@) ==> r@ == decode_utf8(bytes@),
{
    String::from_utf8_lossy(bytes).into_owned()
}

fn digit(d: u64) -> (c: char)
    requires
        d < 10,
    ensures
        c == digit_char(d as nat),
{
    if d == 0 {
        '0'
    } else if d == 1 {
        '1'
    } else if d == 2 {
        '2'
    } else if d == 3 {
        '3'
    } else if d == 4 {
        '4'
    } else if d == 5 {
        '5'
    } else if d == 6 {
        '6'
    } else if d == 7 {
        '7'
    } else if d == 8 {
        '8'
    } else {
        '9'
    }
}

/// Appends the decimal notation of `n` to `s`.
pub fn push_decimal(s: &mut String, n: u64)
    ensures
        final(s)@ == old(s)@ + decimal(n as nat),
    decreases n,
{
    if n >= 10 {
        push_decimal(s, n / 10);
    }
    push_char(s, digit(n % 10));
    assert(final(s)@ =~= old(s)@ + decimal(n as nat));
}

/// Decimal notation of `n`.
pub fn decimal_text(n: u64) -> (r: String)
    ensures
        r@ == decimal(n as nat),
{
    let mut r = String::new();
    push_decimal(&mut r, n);
    assert(r@ =~= decimal(n as nat));
    r
}

/// Dotted-decimal text of an IPv4 address, as `93.184.216.34`.
pub fn ipv4_text(octets: [u8; 4]) -> (r: String)
    ensures
        r@ == ipv4_spec(octets@),
{
    let mut r = String::new();
    push_decimal(&mut r, octets[0] as u64);
    push_char(&mut r, '.');
    push_decimal(&mut r, octets[1] as u64);
    push_char(&mut r, '.');
    push_decimal(&mut r, octets[2] as u64);
    push_char(&mut r, '.');
    push_decimal(&mut r, octets[3] as u64);
    assert(r@ =~= ipv4_spec(octets@));
    r
}

/// Text of a mail-exchange record, as `10 mail.example.com`.
pub fn mx_text(mx: &MxData) -> (r: String)
    ensures
        r@ == mx_spec(mx.preference, mx.exchange@),
{
    let mut r = String::new();
    push_decimal(&mut r, mx.preference as u64);
    push_char(&mut r, ' ');
    r.append(mx.exchange.as_str());
    assert(r@ =~= mx_spec(mx.preference, mx.exchange@));
    r
}

/// The marker for a failed query: `Error: ` followed by the message.
pub fn error_marker(message: &str) -> (r: String)
    ensures
        r@ == error_spec(message@),
{
    let mut r = String::from_str("Error: ");
    proof {
        reveal_strlit("Error: ");
    }
    assert(r@ =~= error_prefix());
    r.append(message);
    r
}

/// The text of one TXT data chunk, decoded leniently.
pub fn chunk_text(chunk: &Vec<u8>) -> (r: String)
    ensures
        r@ == lossy_text(chunk@),
        valid_utf8(chunk@) ==> r@ == decode_utf8(chunk@),
{
    decode_lossy(chunk)
}

} // verus!
