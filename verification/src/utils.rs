//! Colouring and shortening of messages.

use crate::text::byte_len;
use vstd::prelude::*;
use vstd::string::StringExecFns;
use vstd::string::StringSliceAdditionalSpecFns;
use vstd::utf8::decode_utf8_split;
use vstd::utf8::encode_utf8;
use vstd::utf8::encode_utf8_decode_utf8;
use vstd::utf8::encode_utf8_valid_utf8;
use vstd::utf8::is_char_boundary;

verus! {

/// `message` between the escape sequence `escape` and the one that resets the colour.
pub open spec fn coloured(escape: Seq<char>, message: Seq<char>) -> Seq<char> {
    escape + message + "\x1b[0m"@
}

/// `message` in red.
pub fn format_error_message(message: &str) -> (out: String)
    ensures
        out@ == coloured("\x1b[0;31m"@, message@),
{
    String::from_str("\x1b[0;31m").concat(message).concat("\x1b[0m")
}

/// `message` in green.
pub fn format_success_message(message: &str) -> (out: String)
    ensures
        out@ == coloured("\x1b[0;32m"@, message@),
{
    String::from_str("\x1b[0;32m").concat(message).concat("\x1b[0m")
}

/// `message` in yellow.
pub fn format_warning_message(message: &str) -> (out: String)
    ensures
        out@ == coloured("\x1b[0;33m"@, message@),
{
    String::from_str("\x1b[0;33m").concat(message).concat("\x1b[0m")
}

/// `message` in cyan.
pub fn format_info_message(message: &str) -> (out: String)
    ensures
        out@ == coloured("\x1b[0;36m"@, message@),
{
    String::from_str("\x1b[0;36m").concat(message).concat("\x1b[0m")
}

/// The number of bytes that are kept of a text that is cut to `max_length`:
/// three less, to make room for the dots.
pub open spec fn kept_bytes(max_length: usize) -> int {
    if max_length >= 3 {
        max_length - 3
    } else {
        0
    }
}

/// `s` stays as it is if it takes no more than `max_length` bytes. A longer
/// one is cut after `kept_bytes(max_length)` bytes, and three dots follow. The
/// cut may not fall inside a character.
pub fn truncate_string(s: &str, max_length: usize) -> (out: String)
    requires
        byte_len(s@) > max_length ==> is_char_boundary(s.spec_bytes(), kept_bytes(max_length)),
    ensures
        byte_len(s@) <= max_length ==> out@ == s@,
        byte_len(s@) > max_length ==> exists|k: int|
            0 <= k <= s@.len() && byte_len(#[trigger] s@.take(k)) == kept_bytes(max_length) && out@
                == s@.take(k) + "..."@,
{
    if s.as_bytes().len() <= max_length {
        String::from_str(s)
    } else {
        let keep: usize = if max_length >= 3 {
            max_length - 3
        } else {
            0
        };
        let (head, _tail) = s.split_at(keep);
        proof {
            let bytes = encode_utf8(s@);
            encode_utf8_valid_utf8(s@);
            decode_utf8_split(bytes, keep as int);
            encode_utf8_decode_utf8(s@);
            encode_utf8_decode_utf8(head@);
            encode_utf8_decode_utf8(_tail@);
            assert(s@.take(head@.len() as int) =~= head@);
        }
        String::from_str(head).concat("...")
    }
}

} // verus!
