use crate::coder::{coded, gives, name_view, Coder};
use crate::error::{Failure, ForwardError};
use crate::forward::{lemma_rewritten_without_origin, rewritten, Forward, RouteView};
use crate::text::occurs_in;
use crate::text::utf8_text;
use vstd::prelude::*;
use vstd::string::StrSliceExecFns;
use vstd::utf8::{decode_utf8, decode_utf8_encode_utf8, encode_utf8, valid_utf8};

verus! {

/// The plain body with the origins replaced: the bytes are read as UTF-8
/// text, the text is rewritten and written as UTF-8 again. Bytes that are no
/// UTF-8 text are reported.
pub open spec fn text_rewritten(routes: Seq<RouteView>, plain: Seq<u8>) -> Result<Seq<u8>, Failure> {
    if valid_utf8(plain) {
        Ok(encode_utf8(rewritten(routes, decode_utf8(plain))))
    } else {
        Err(Failure::BodyDecodeError)
    }
}

/// The body with the origins replaced, under its declared `content-encoding`:
/// decoded, rewritten as text, and encoded as it was. The first step that
/// fails is reported.
pub open spec fn body_rewritten(
    routes: Seq<RouteView>,
    encoding: Option<Seq<char>>,
    body: Seq<u8>,
) -> Result<Seq<u8>, Failure> {
    match coded(Coder::De, encoding, body) {
        Err(e) => Err(e),
        Ok(plain) => match text_rewritten(routes, plain) {
            Err(e) => Err(e),
            Ok(text) => coded(Coder::En, encoding, text),
        },
    }
}

/// A plain body of text in which no origin shows is rewritten to itself.
pub proof fn lemma_text_rewritten_without_origin(routes: Seq<RouteView>, plain: Seq<u8>)
    requires
        valid_utf8(plain),
        forall|i: int|
            0 <= i < routes.len() ==> !occurs_in(
                (#[trigger] routes[i]).target.host_with_port(),
                decode_utf8(plain),
            ),
    ensures
        text_rewritten(routes, plain) == Ok::<Seq<u8>, Failure>(plain),
{
    lemma_rewritten_without_origin(routes, decode_utf8(plain));
    decode_utf8_encode_utf8(plain);
}

impl Forward {
    /// The plain body with the origins replaced.
    pub fn rewrite_bytes(&self, plain: &[u8]) -> (r: Result<Vec<u8>, ForwardError>)
        ensures
            gives(r, text_rewritten(self@, plain@)),
    {
        match utf8_text(plain) {
            Some(text) => {
                let out = self.rewrite(text);
                Ok(out.as_str().as_bytes_vec())
            },
            None => Err(ForwardError::BodyDecodeError),
        }
    }

    /// The body with the origins replaced, under its declared
    /// `content-encoding`.
    pub fn rewrite_body(&self, encoding: Option<&str>, body: &[u8]) -> (r: Result<
        Vec<u8>,
        ForwardError,
    >)
        ensures
            gives(r, body_rewritten(self@, name_view(encoding), body@)),
    {
        match Coder::De.code(encoding, body) {
            Err(e) => Err(e),
            Ok(plain) => match self.rewrite_bytes(plain.as_slice()) {
                Err(e) => Err(e),
                Ok(text) => Coder::En.code(encoding, text.as_slice()),
            },
        }
    }
}

} // verus!
