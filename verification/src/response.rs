//! The fixed reply that tells a client its tunnel is ready.

use vstd::prelude::*;

verus! {

/// Number of bytes in the success reply.
pub const SUCCESS_RESPONSE_LEN: usize = 69;

/// The text of the success reply.
pub open spec fn success_response_text() -> Seq<char> {
    "HTTP/1.1 200 Connection established\r\nProxy-Connection: Keep-Alive\r\n\r\n"@
}

/// The bytes of the success reply as they go on the wire.
pub open spec fn success_response() -> Seq<u8> {
    Seq::new(success_response_text().len(), |i: int| success_response_text()[i] as u8)
}

/// The reply is plain ASCII, has the advertised length, and is encoded one
/// byte per character.
pub proof fn lemma_success_response_shape()
    ensures
        success_response().len() == SUCCESS_RESPONSE_LEN,
        vstd::utf8::is_ascii_chars(success_response_text()),
        vstd::utf8::encode_utf8(success_response_text()) == success_response(),
{
    reveal_strlit("HTTP/1.1 200 Connection established\r\nProxy-Connection: Keep-Alive\r\n\r\n");
    let text = success_response_text();
    assert(vstd::utf8::is_ascii_chars(text));
    vstd::utf8::is_ascii_chars_encode_utf8(text);
    assert(vstd::utf8::encode_utf8(text) =~= success_response());
}

/// Writes the success reply at the start of `buf` and returns its length.
///
/// The bytes of `buf` behind the reply are left as they were.
pub fn form_http_response(buf: &mut [u8]) -> (len: usize)
    requires
        old(buf)@.len() >= SUCCESS_RESPONSE_LEN,
    ensures
        len == SUCCESS_RESPONSE_LEN,
        final(buf)@ == success_response() + old(buf)@.skip(SUCCESS_RESPONSE_LEN as int),
{
    let text = "HTTP/1.1 200 Connection established\r\nProxy-Connection: Keep-Alive\r\n\r\n";
    let bytes = text.as_bytes();
    proof {
        lemma_success_response_shape();
    }
    let mut i: usize = 0;
    while i < SUCCESS_RESPONSE_LEN
        invariant
            i <= SUCCESS_RESPONSE_LEN,
            buf@.len() == old(buf)@.len(),
            buf@.len() >= SUCCESS_RESPONSE_LEN,
            bytes@ == success_response(),
            bytes@.len() == SUCCESS_RESPONSE_LEN,
            forall|j: int| 0 <= j < i ==> buf@[j] == success_response()[j],
            forall|j: int| i <= j < buf@.len() ==> buf@[j] == old(buf)@[j],
        decreases SUCCESS_RESPONSE_LEN - i,
    {
        buf[i] = bytes[i];
        i += 1;
    }
    SUCCESS_RESPONSE_LEN
}

} // verus!
