//! Request-body handling for the Binary Ninja WARP client.
//!
//! The plugin puts `Content-Encoding: gzip` on **every** request, but the
//! body is often plain JSON. A request that claims gzip has its body
//! buffered (up to [`MAX_BODY_BYTES`]), decoded only when it really starts
//! with the gzip magic bytes, and handed on without the header.

use std::io::Read;
use vstd::prelude::*;

use crate::text::{eq_ignore_ascii_case, eq_ignore_case, owned, trim, trim_ws};

verus! {

/// Largest request body we are willing to buffer (matches the JSON limit).
pub const MAX_BODY_BYTES: usize = 100_663_296;

/// Marker for the body-sniffing middleware; the functions below hold its
/// decisions.
#[derive(Clone, Copy, Debug)]
pub struct SniffGzipBody;

/// Why a body was refused.
#[derive(Debug, Clone)]
pub enum BodyError {
    /// 400, with the reason.
    BadRequest(String),
    /// 413.
    PayloadTooLarge,
}

/// What `flate2`'s gzip decoder reads from `input` when at most `cap` bytes
/// of output are taken: the bytes, or the text of the decoder's error.
pub uninterp spec fn gzip_decode(input: Seq<u8>, cap: nat) -> Result<Seq<u8>, Seq<char>>;

/// `flate2::read::GzDecoder::new(input).take(cap).read_to_end(..)`: the
/// decoded bytes (never more than `cap`), or the error's text.
#[verifier::external_body]
fn gunzip_capped(input: &[u8], cap: u64) -> (r: Result<Vec<u8>, String>)
    ensures
        match r {
            Ok(out) => gzip_decode(input@, cap as nat) == Ok::<Seq<u8>, Seq<char>>(out@)
                && out@.len() <= cap,
            Err(e) => gzip_decode(input@, cap as nat) == Err::<Seq<u8>, Seq<char>>(e@),
        },
{
    let mut out = Vec::new();
    match flate2::read::GzDecoder::new(input).take(cap).read_to_end(&mut out) {
        Ok(_) => Ok(out),
        Err(e) => Err(e.to_string()),
    }
}

/// The body starts with the gzip magic bytes `1f 8b`.
pub open spec fn gzip_magic(bytes: Seq<u8>) -> bool {
    bytes.len() >= 2 && bytes[0] == 0x1f && bytes[1] == 0x8b
}

/// What a body that claims gzip becomes: `Err(None)` stands for "too
/// large", `Err(Some(m))` for a refusal with message `m`.
pub open spec fn decoded_body(raw: Seq<u8>) -> Result<Seq<u8>, Option<Seq<char>>> {
    if !gzip_magic(raw) {
        Ok(raw)
    } else {
        gunzipped(raw)
    }
}

/// A request body being read, chunk by chunk.
#[derive(Debug, Clone)]
pub struct BodyBuffer {
    pub bytes: Vec<u8>,
}

/// The request says its body is gzip: the `Content-Encoding` value,
/// trimmed, is `gzip` in any ASCII case.
pub fn claims_gzip(content_encoding: Option<&str>) -> (r: bool)
    ensures
        r == match content_encoding {
            Some(v) => eq_ignore_case(trim_ws(v@), "gzip"@),
            None => false,
        },
{
    match content_encoding {
        Some(v) => eq_ignore_ascii_case(trim(v), "gzip"),
        None => false,
    }
}

pub fn is_gzip(bytes: &[u8]) -> (r: bool)
    ensures
        r == gzip_magic(bytes@),
{
    bytes.len() >= 2 && bytes[0] == 0x1f && bytes[1] == 0x8b
}

/// What a gzip body decodes to.
pub open spec fn gunzipped(raw: Seq<u8>) -> Result<Seq<u8>, Option<Seq<char>>> {
    match gzip_decode(raw, MAX_BODY_BYTES as nat + 1) {
        Ok(out) => if out.len() > MAX_BODY_BYTES { Err(None) } else { Ok(out) },
        Err(e) => Err(Some("invalid gzip request body: "@ + e)),
    }
}

pub open spec fn body_result(r: Result<Vec<u8>, BodyError>) -> Result<Seq<u8>, Option<Seq<char>>> {
    match r {
        Ok(v) => Ok(v@),
        Err(BodyError::PayloadTooLarge) => Err(None),
        Err(BodyError::BadRequest(m)) => Err(Some(m@)),
    }
}

/// Decodes a gzip body: refused (400) when the decoder fails and (413)
/// when the output exceeds the limit.
pub fn gunzip(bytes: &[u8]) -> (r: Result<Vec<u8>, BodyError>)
    ensures
        body_result(r) == gunzipped(bytes@),
{
    match gunzip_capped(bytes, (MAX_BODY_BYTES as u64) + 1) {
        Ok(out) => {
            if out.len() > MAX_BODY_BYTES {
                Err(BodyError::PayloadTooLarge)
            } else {
                Ok(out)
            }
        },
        Err(e) => Err(BodyError::BadRequest(
            String::from_str("invalid gzip request body: ").concat(e.as_str()),
        )),
    }
}

/// The body handed on for a request that claims gzip: decoded when it
/// starts with the magic bytes, and unchanged otherwise.
pub fn decode_body(raw: Vec<u8>) -> (r: Result<Vec<u8>, BodyError>)
    ensures
        body_result(r) == decoded_body(raw@),
{
    if !is_gzip(raw.as_slice()) {
        return Ok(raw);
    }
    gunzip(raw.as_slice())
}

/// A plain body that only claims to be gzip passes through untouched.
pub proof fn lemma_plain_body_unchanged(raw: Seq<u8>)
    requires
        !gzip_magic(raw),
    ensures
        decoded_body(raw) == Ok::<Seq<u8>, Option<Seq<char>>>(raw),
{
}

impl BodyError {
    pub fn status_code(&self) -> (r: u16)
        ensures
            r == match self {
                BodyError::BadRequest(_) => 400u16,
                BodyError::PayloadTooLarge => 413u16,
            },
    {
        match self {
            BodyError::BadRequest(_) => 400,
            BodyError::PayloadTooLarge => 413,
        }
    }

    pub fn message(&self) -> (r: String)
        ensures
            r@ == match self {
                BodyError::BadRequest(m) => m@,
                BodyError::PayloadTooLarge => "request body too large"@,
            },
    {
        match self {
            BodyError::BadRequest(m) => m.clone(),
            BodyError::PayloadTooLarge => owned("request body too large"),
        }
    }
}

impl BodyBuffer {
    pub fn new() -> (r: Self)
        ensures
            r.bytes@ == Seq::<u8>::empty(),
    {
        BodyBuffer { bytes: Vec::new() }
    }

    /// Appends the next chunk of the body, unless the body would then
    /// exceed the limit.
    pub fn push_chunk(&mut self, chunk: &[u8]) -> (r: Result<(), BodyError>)
        requires
            old(self).bytes@.len() <= MAX_BODY_BYTES,
        ensures
            final(self).bytes@.len() <= MAX_BODY_BYTES,
            old(self).bytes@.len() + chunk@.len() > MAX_BODY_BYTES ==> (r matches Err(BodyError::PayloadTooLarge)
                && final(self).bytes@ == old(self).bytes@),
            old(self).bytes@.len() + chunk@.len() <= MAX_BODY_BYTES ==> (r is Ok
                && final(self).bytes@ == old(self).bytes@ + chunk@),
    {
        if chunk.len() > MAX_BODY_BYTES - self.bytes.len() {
            return Err(BodyError::PayloadTooLarge);
        }
        let mut i: usize = 0;
        let ghost start = self.bytes@;
        while i < chunk.len()
            invariant
                i <= chunk@.len(),
                start.len() + chunk@.len() <= MAX_BODY_BYTES,
                self.bytes@ == start + chunk@.take(i as int),
            decreases chunk.len() - i,
        {
            self.bytes.push(chunk[i]);
            i += 1;
            assert(self.bytes@ =~= start + chunk@.take(i as int));
        }
        assert(chunk@.take(chunk@.len() as int) =~= chunk@);
        Ok(())
    }
}

} // verus!
