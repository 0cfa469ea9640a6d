//! Shell commands run for the desktop front end: which shell, and what a finished command
//! answers.
use vstd::prelude::*;
use vstd::utf8::*;

use crate::text::{push_char, push_str};
use crate::utils::byte::utf8_string;

verus! {

/// The shell that runs commands.
pub fn get_shell_path() -> (r: String)
    ensures
        r@ == "/bin/sh"@,
{
    String::from_str("/bin/sh")
}

/// The character of a 6-bit value in the standard base64 alphabet `A-Za-z0-9+/`.
pub open spec fn base64_digit(n: int) -> char {
    if n < 26 {
        (65 + n) as char
    } else if n < 52 {
        (97 + n - 26) as char
    } else if n < 62 {
        (48 + n - 52) as char
    } else if n == 62 {
        '+'
    } else {
        '/'
    }
}

/// The standard padded base64 text of `b`: each group of three bytes gives four characters
/// of six bits each; a last group of one or two bytes is filled with zero bits and padded
/// with `=` to four characters.
pub open spec fn base64_standard(b: Seq<u8>) -> Seq<char>
    decreases b.len(),
{
    let x = b[0] as int;
    let y = b[1] as int;
    let z = b[2] as int;
    if b.len() == 0 {
        Seq::empty()
    } else if b.len() == 1 {
        seq![base64_digit(x / 4), base64_digit((x % 4) * 16), '=', '=']
    } else if b.len() == 2 {
        seq![base64_digit(x / 4), base64_digit((x % 4) * 16 + y / 16), base64_digit((y % 16) * 4), '=']
    } else {
        seq![
            base64_digit(x / 4),
            base64_digit((x % 4) * 16 + y / 16),
            base64_digit((y % 16) * 4 + z / 64),
            base64_digit(z % 64),
        ] + base64_standard(b.skip(3))
    }
}

/// The number of characters of the padded base64 text of `n` bytes.
pub open spec fn padded_base64_len(n: nat) -> int {
    (n / 3) * 4 + if n % 3 > 0 {
        4int
    } else {
        0int
    }
}

/// `base64::engine::general_purpose::STANDARD.encode(bytes)`: the padded standard base64
/// text of the bytes (RFC 4648, alphabet `A-Za-z0-9+/`, `=` padding). It panics where that
/// text's length overflows `usize`, which `requires` leaves out.
#[verifier::external_body]
fn encode_base64(bytes: &[u8]) -> (r: String)
    requires
        padded_base64_len(bytes@.len()) <= usize::MAX,
    ensures
        r@ == base64_standard(bytes@),
{
    base64::Engine::encode(&base64::engine::general_purpose::STANDARD, bytes)
}

/// What a finished shell command answers: its output in base64 between double quotes when
/// it succeeded, else its error output as text. Error output that is not UTF-8 is a fault
/// of the shell, which `requires` leaves out.
pub fn command_result(success: bool, stdout: &[u8], stderr: &[u8]) -> (r: Result<
    String,
    String,
>)
    requires
        success ==> padded_base64_len(stdout@.len()) <= usize::MAX,
        !success ==> valid_utf8(stderr@),
    ensures
        success ==> (r matches Ok(s) && s@ == seq!['"'] + base64_standard(stdout@) + seq!['"']),
        !success ==> (r matches Err(e) && e@ == decode_utf8(stderr@)),
{
    if success {
        let encoded = encode_base64(stdout);
        let mut s = String::new();
        push_char(&mut s, '"');
        push_str(&mut s, encoded.as_str());
        push_char(&mut s, '"');
        Ok(s)
    } else {
        match utf8_string(stderr) {
            Some(e) => Err(e),
            None => {
                proof {
                    assert(false);
                }
                Err(String::new())
            },
        }
    }
}

} // verus!
