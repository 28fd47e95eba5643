//! The bytes that every connection is answered with.

use vstd::prelude::*;
use vstd::string::*;

verus! {

/// Size of the buffer that the single read of a request may fill.
pub const READ_BUFFER_SIZE: usize = 1024;

/// The whole response as text: a status line, an empty header section, a body.
pub const RESPONSE: &'static str = "HTTP/1.1 200 OK\r\n\r\n<h1>Hello World</h1>";

/// The status line, with its line ending.
pub const STATUS_LINE: &'static str = "HTTP/1.1 200 OK\r\n";

/// The empty line that closes the header section.
pub const BLANK_LINE: &'static str = "\r\n";

/// The body.
pub const BODY: &'static str = "<h1>Hello World</h1>";

/// The response on the wire: the encoding of [`RESPONSE`].
pub open spec fn response_bytes() -> Seq<u8> {
    RESPONSE.spec_bytes()
}

/// Builds the response.
pub fn response() -> (bytes: Vec<u8>)
    ensures
        bytes@ == response_bytes(),
{
    RESPONSE.as_bytes_vec()
}

/// The response is plain ASCII, one byte for each of its 39 characters.
pub proof fn lemma_response_is_ascii()
    ensures
        is_ascii(RESPONSE),
        response_bytes().len() == 39,
        forall|i: int| 0 <= i < 39 ==> response_bytes()[i] == RESPONSE@[i] as u8,
{
    reveal_strlit("HTTP/1.1 200 OK\r\n\r\n<h1>Hello World</h1>");
    is_ascii_spec_bytes(RESPONSE);
}

/// The response is the status line, then the blank line, then the body, and
/// nothing else: it carries no header.
pub proof fn lemma_response_layout()
    ensures
        response_bytes() == STATUS_LINE.spec_bytes() + BLANK_LINE.spec_bytes() + BODY.spec_bytes(),
        STATUS_LINE.spec_bytes().len() == 17,
        BLANK_LINE.spec_bytes().len() == 2,
        BODY.spec_bytes().len() == 20,
{
    reveal_strlit("HTTP/1.1 200 OK\r\n\r\n<h1>Hello World</h1>");
    reveal_strlit("HTTP/1.1 200 OK\r\n");
    reveal_strlit("\r\n");
    reveal_strlit("<h1>Hello World</h1>");
    is_ascii_spec_bytes(RESPONSE);
    is_ascii_spec_bytes(STATUS_LINE);
    is_ascii_spec_bytes(BLANK_LINE);
    is_ascii_spec_bytes(BODY);
    assert(response_bytes() =~= STATUS_LINE.spec_bytes() + BLANK_LINE.spec_bytes()
        + BODY.spec_bytes());
}

} // verus!
