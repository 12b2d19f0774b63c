use crate::error::{Failure, ForwardError};
use crate::text::same_text;
use async_compression::futures::bufread::{
    BrotliDecoder, BrotliEncoder, DeflateDecoder, DeflateEncoder, GzipDecoder, GzipEncoder,
};
use smol::future::block_on;
use smol::io::AsyncReadExt;
use vstd::prelude::*;
use vstd::slice::slice_to_vec;

verus! {

/// A content encoding that the proxy can undo and apply again.
#[derive(Clone, Copy, Debug, PartialEq, Eq, Structural)]
pub enum Encoding {
    /// `gzip`
    Gzip,
    /// `br`
    Brotli,
    /// `deflate`
    Deflate,
}

/// The direction in which a body is transcoded.
#[derive(Clone, Copy, Debug, PartialEq, Eq, Structural)]
pub enum Coder {
    /// From the encoded body to the plain one.
    De,
    /// From the plain body to the encoded one.
    En,
}

impl Encoding {
    /// The encoding that a `content-encoding` value names. The value counts
    /// as it is written: capitals, spaces and lists name none.
    pub open spec fn named(name: Seq<char>) -> Option<Encoding> {
        if name == "gzip"@ {
            Some(Encoding::Gzip)
        } else if name == "br"@ {
            Some(Encoding::Brotli)
        } else if name == "deflate"@ {
            Some(Encoding::Deflate)
        } else {
            None
        }
    }

    /// The encoding that a `content-encoding` value names.
    pub fn from_name(name: &str) -> (r: Option<Encoding>)
        ensures
            r == Encoding::named(name@),
    {
        if same_text(name, "gzip") {
            Some(Encoding::Gzip)
        } else if same_text(name, "br") {
            Some(Encoding::Brotli)
        } else if same_text(name, "deflate") {
            Some(Encoding::Deflate)
        } else {
            None
        }
    }
}

/// What reading a `GzipEncoder` to its end gives for the plain bytes `body`;
/// nothing where the read fails.
pub uninterp spec fn gzip_encoded(body: Seq<u8>) -> Option<Seq<u8>>;

/// What reading a `GzipDecoder` to its end gives for the encoded bytes
/// `body`; nothing where the read fails.
pub uninterp spec fn gzip_decoded(body: Seq<u8>) -> Option<Seq<u8>>;

/// What reading a `BrotliEncoder` to its end gives for the plain bytes `body`;
/// nothing where the read fails.
pub uninterp spec fn brotli_encoded(body: Seq<u8>) -> Option<Seq<u8>>;

/// What reading a `BrotliDecoder` to its end gives for the encoded bytes
/// `body`; nothing where the read fails.
pub uninterp spec fn brotli_decoded(body: Seq<u8>) -> Option<Seq<u8>>;

/// What reading a `DeflateEncoder` to its end gives for the plain bytes
/// `body`; nothing where the read fails.
pub uninterp spec fn deflate_encoded(body: Seq<u8>) -> Option<Seq<u8>>;

/// What reading a `DeflateDecoder` to its end gives for the encoded bytes
/// `body`; nothing where the read fails.
pub uninterp spec fn deflate_decoded(body: Seq<u8>) -> Option<Seq<u8>>;

/// Whether a read came out as the model says.
pub open spec fn read_as(r: Option<Vec<u8>>, model: Option<Seq<u8>>) -> bool {
    match model {
        Some(bytes) => r matches Some(v) && v@ == bytes,
        None => r is None,
    }
}

/// `GzipEncoder::new` of `async_compression`, over the bytes in memory, read to
/// its end by `AsyncReadExt::read_to_end` under `block_on`, both as `smol`
/// hands them on. The contract only gives the outcome its name,
/// `gzip_encoded`.
#[verifier::external_body]
fn gzip_encode(body: &[u8]) -> (r: Option<Vec<u8>>)
    ensures
        read_as(r, gzip_encoded(body@)),
{
    let mut out = Vec::new();
    match block_on(GzipEncoder::new(body).read_to_end(&mut out)) {
        Ok(_) => Some(out),
        Err(_) => None,
    }
}

/// `GzipDecoder::new` of `async_compression`, over the bytes in memory, read to
/// its end by `AsyncReadExt::read_to_end` under `block_on`, both as `smol`
/// hands them on. The contract only gives the outcome its name,
/// `gzip_decoded`.
#[verifier::external_body]
fn gzip_decode(body: &[u8]) -> (r: Option<Vec<u8>>)
    ensures
        read_as(r, gzip_decoded(body@)),
{
    let mut out = Vec::new();
    match block_on(GzipDecoder::new(body).read_to_end(&mut out)) {
        Ok(_) => Some(out),
        Err(_) => None,
    }
}

/// `BrotliEncoder::new` of `async_compression`, over the bytes in memory, read to
/// its end by `AsyncReadExt::read_to_end` under `block_on`, both as `smol`
/// hands them on. The contract only gives the outcome its name,
/// `brotli_encoded`.
#[verifier::external_body]
fn brotli_encode(body: &[u8]) -> (r: Option<Vec<u8>>)
    ensures
        read_as(r, brotli_encoded(body@)),
{
    let mut out = Vec::new();
    match block_on(BrotliEncoder::new(body).read_to_end(&mut out)) {
        Ok(_) => Some(out),
        Err(_) => None,
    }
}

/// `BrotliDecoder::new` of `async_compression`, over the bytes in memory, read to
/// its end by `AsyncReadExt::read_to_end` under `block_on`, both as `smol`
/// hands them on. The contract only gives the outcome its name,
/// `brotli_decoded`.
#[verifier::external_body]
fn brotli_decode(body: &[u8]) -> (r: Option<Vec<u8>>)
    ensures
        read_as(r, brotli_decoded(body@)),
{
    let mut out = Vec::new();
    match block_on(BrotliDecoder::new(body).read_to_end(&mut out)) {
        Ok(_) => Some(out),
        Err(_) => None,
    }
}

/// `DeflateEncoder::new` of `async_compression`, over the bytes in memory, read to
/// its end by `AsyncReadExt::read_to_end` under `block_on`, both as `smol`
/// hands them on. The contract only gives the outcome its name,
/// `deflate_encoded`.
#[verifier::external_body]
fn deflate_encode(body: &[u8]) -> (r: Option<Vec<u8>>)
    ensures
        read_as(r, deflate_encoded(body@)),
{
    let mut out = Vec::new();
    match block_on(DeflateEncoder::new(body).read_to_end(&mut out)) {
        Ok(_) => Some(out),
        Err(_) => None,
    }
}

/// `DeflateDecoder::new` of `async_compression`, over the bytes in memory, read to
/// its end by `AsyncReadExt::read_to_end` under `block_on`, both as `smol`
/// hands them on. The contract only gives the outcome its name,
/// `deflate_decoded`.
#[verifier::external_body]
fn deflate_decode(body: &[u8]) -> (r: Option<Vec<u8>>)
    ensures
        read_as(r, deflate_decoded(body@)),
{
    let mut out = Vec::new();
    match block_on(DeflateDecoder::new(body).read_to_end(&mut out)) {
        Ok(_) => Some(out),
        Err(_) => None,
    }
}

/// The body `body` transcoded in the direction `coder` for `encoding`, by the
/// codec's own account; nothing where the codec fails.
pub open spec fn transcoded(coder: Coder, encoding: Encoding, body: Seq<u8>) -> Option<Seq<u8>> {
    match (coder, encoding) {
        (Coder::De, Encoding::Gzip) => gzip_decoded(body),
        (Coder::En, Encoding::Gzip) => gzip_encoded(body),
        (Coder::De, Encoding::Brotli) => brotli_decoded(body),
        (Coder::En, Encoding::Brotli) => brotli_encoded(body),
        (Coder::De, Encoding::Deflate) => deflate_decoded(body),
        (Coder::En, Encoding::Deflate) => deflate_encoded(body),
    }
}

/// What becomes of a body under its declared `content-encoding`: without one
/// the body is as it is; one that the proxy does not handle is reported with
/// its name; else the codec decides.
pub open spec fn coded(coder: Coder, encoding: Option<Seq<char>>, body: Seq<u8>) -> Result<
    Seq<u8>,
    Failure,
> {
    match encoding {
        None => Ok(body),
        Some(name) => match Encoding::named(name) {
            None => Err(Failure::UnhandledEncoding(name)),
            Some(e) => match transcoded(coder, e, body) {
                Some(out) => Ok(out),
                None => Err(Failure::BodyDecodeError),
            },
        },
    }
}

/// Whether bytes came out as the model says.
pub open spec fn gives(r: Result<Vec<u8>, ForwardError>, model: Result<Seq<u8>, Failure>) -> bool {
    match model {
        Ok(bytes) => r matches Ok(v) && v@ == bytes,
        Err(e) => r matches Err(x) && x@ == e,
    }
}

/// The declared encoding as a mathematical value.
pub open spec fn name_view(encoding: Option<&str>) -> Option<Seq<char>> {
    match encoding {
        Some(name) => Some(name@),
        None => None,
    }
}

impl Coder {
    /// The body transcoded in this direction for `encoding`.
    pub fn apply(&self, encoding: Encoding, body: &[u8]) -> (r: Option<Vec<u8>>)
        ensures
            read_as(r, transcoded(*self, encoding, body@)),
    {
        match (self, encoding) {
            (Coder::De, Encoding::Gzip) => gzip_decode(body),
            (Coder::En, Encoding::Gzip) => gzip_encode(body),
            (Coder::De, Encoding::Brotli) => brotli_decode(body),
            (Coder::En, Encoding::Brotli) => brotli_encode(body),
            (Coder::De, Encoding::Deflate) => deflate_decode(body),
            (Coder::En, Encoding::Deflate) => deflate_encode(body),
        }
    }

    /// The body transcoded in this direction under the declared
    /// `content-encoding`, `encoding`.
    pub fn code(&self, encoding: Option<&str>, body: &[u8]) -> (r: Result<Vec<u8>, ForwardError>)
        ensures
            gives(r, coded(*self, name_view(encoding), body@)),
    {
        match encoding {
            None => Ok(slice_to_vec(body)),
            Some(name) => match Encoding::from_name(name) {
                None => Err(ForwardError::UnhandledEncoding(name.to_owned())),
                Some(e) => match self.apply(e, body) {
                    Some(out) => Ok(out),
                    None => Err(ForwardError::BodyDecodeError),
                },
            },
        }
    }
}

} // verus!
