use async_compression::futures::bufread::{
    BrotliDecoder, BrotliEncoder, DeflateDecoder, DeflateEncoder, GzipDecoder, GzipEncoder,
};
use origin_proxy::coder::{Coder, Encoding};
use origin_proxy::error::ForwardError;
use origin_proxy::forward::Forward;
use smol::future::block_on;
use smol::io::AsyncReadExt;

const PLAIN: &[u8] = b"{\"host\": \"origin.internal:8443\", \"again\": \"origin.internal:8443\"}";

fn gunzip(bytes: &[u8]) -> Vec<u8> {
    let mut out = Vec::new();
    block_on(GzipDecoder::new(bytes).read_to_end(&mut out)).unwrap();
    out
}

fn gzip(bytes: &[u8]) -> Vec<u8> {
    let mut out = Vec::new();
    block_on(GzipEncoder::new(bytes).read_to_end(&mut out)).unwrap();
    out
}

#[test]
fn three_encodings_are_named() {
    assert_eq!(Encoding::from_name("gzip"), Some(Encoding::Gzip));
    assert_eq!(Encoding::from_name("br"), Some(Encoding::Brotli));
    assert_eq!(Encoding::from_name("deflate"), Some(Encoding::Deflate));
    assert_eq!(Encoding::from_name("GZIP"), None);
    assert_eq!(Encoding::from_name("gzip, br"), None);
    assert_eq!(Encoding::from_name(" gzip"), None);
    assert_eq!(Encoding::from_name("identity"), None);
    assert_eq!(Encoding::from_name("zstd"), None);
    assert_eq!(Encoding::from_name(""), None);
}

#[test]
fn gzip_goes_there_and_back() {
    let encoded = Coder::En.apply(Encoding::Gzip, PLAIN).unwrap();
    assert_ne!(encoded, PLAIN);
    assert_eq!(&encoded[..2], &[0x1f, 0x8b]);
    assert_eq!(gunzip(&encoded), PLAIN);
    assert_eq!(Coder::De.apply(Encoding::Gzip, &encoded).unwrap(), PLAIN);
    assert_eq!(Coder::De.apply(Encoding::Gzip, &gzip(PLAIN)).unwrap(), PLAIN);
}

#[test]
fn brotli_goes_there_and_back() {
    let encoded = Coder::En.apply(Encoding::Brotli, PLAIN).unwrap();
    assert_ne!(encoded, PLAIN);
    let mut out = Vec::new();
    block_on(BrotliDecoder::new(&encoded[..]).read_to_end(&mut out)).unwrap();
    assert_eq!(out, PLAIN);
    assert_eq!(Coder::De.apply(Encoding::Brotli, &encoded).unwrap(), PLAIN);
    let mut theirs = Vec::new();
    block_on(BrotliEncoder::new(PLAIN).read_to_end(&mut theirs)).unwrap();
    assert_eq!(Coder::De.apply(Encoding::Brotli, &theirs).unwrap(), PLAIN);
}

#[test]
fn deflate_goes_there_and_back() {
    let encoded = Coder::En.apply(Encoding::Deflate, PLAIN).unwrap();
    assert_ne!(encoded, PLAIN);
    let mut out = Vec::new();
    block_on(DeflateDecoder::new(&encoded[..]).read_to_end(&mut out)).unwrap();
    assert_eq!(out, PLAIN);
    assert_eq!(Coder::De.apply(Encoding::Deflate, &encoded).unwrap(), PLAIN);
    let mut theirs = Vec::new();
    block_on(DeflateEncoder::new(PLAIN).read_to_end(&mut theirs)).unwrap();
    assert_eq!(Coder::De.apply(Encoding::Deflate, &theirs).unwrap(), PLAIN);
}

#[test]
fn the_three_encodings_differ() {
    let a = Coder::En.apply(Encoding::Gzip, PLAIN).unwrap();
    let b = Coder::En.apply(Encoding::Brotli, PLAIN).unwrap();
    let c = Coder::En.apply(Encoding::Deflate, PLAIN).unwrap();
    assert_ne!(a, b);
    assert_ne!(a, c);
    assert_ne!(b, c);
}

#[test]
fn bytes_that_are_not_encoded_do_not_decode() {
    assert!(Coder::De.apply(Encoding::Gzip, PLAIN).is_none());
    assert!(Coder::De.apply(Encoding::Deflate, &[0xff, 0xff, 0xff, 0xff]).is_none());
}

#[test]
fn code_goes_by_the_declared_encoding() {
    assert_eq!(Coder::De.code(None, PLAIN).unwrap(), PLAIN);
    assert_eq!(Coder::En.code(None, PLAIN).unwrap(), PLAIN);
    let encoded = Coder::En.code(Some("gzip"), PLAIN).unwrap();
    assert_eq!(gunzip(&encoded), PLAIN);
    assert_eq!(Coder::De.code(Some("gzip"), &encoded).unwrap(), PLAIN);
    let encoded = Coder::En.code(Some("br"), PLAIN).unwrap();
    assert_eq!(Coder::De.code(Some("br"), &encoded).unwrap(), PLAIN);
    let encoded = Coder::En.code(Some("deflate"), PLAIN).unwrap();
    assert_eq!(Coder::De.code(Some("deflate"), &encoded).unwrap(), PLAIN);
}

#[test]
fn code_reports_what_it_cannot_do() {
    match Coder::De.code(Some("zstd"), PLAIN) {
        Err(ForwardError::UnhandledEncoding(name)) => assert_eq!(name, "zstd"),
        other => panic!("{:?}", other),
    }
    match Coder::En.code(Some("Gzip"), PLAIN) {
        Err(ForwardError::UnhandledEncoding(name)) => assert_eq!(name, "Gzip"),
        other => panic!("{:?}", other),
    }
    assert!(matches!(Coder::De.code(Some("gzip"), PLAIN), Err(ForwardError::BodyDecodeError)));
}

#[test]
fn rewrite_bytes_rewrites_utf8_text() {
    let pairs = vec![("pub.example".to_string(), "https://origin.internal:8443".to_string())];
    let forward = Forward::new(&pairs).unwrap();
    assert_eq!(
        forward.rewrite_bytes(PLAIN).unwrap(),
        b"{\"host\": \"pub.example\", \"again\": \"pub.example\"}"
    );
    assert_eq!(
        forward.rewrite_bytes("é origin.internal:8443 ü".as_bytes()).unwrap(),
        "é pub.example ü".as_bytes()
    );
    assert_eq!(forward.rewrite_bytes(b"").unwrap(), b"");
    assert!(matches!(
        forward.rewrite_bytes(&[b'a', 0xff, b'b']),
        Err(ForwardError::BodyDecodeError)
    ));
    assert!(matches!(forward.rewrite_bytes(&[0xc3]), Err(ForwardError::BodyDecodeError)));
}

#[test]
fn rewrite_body_decodes_rewrites_and_encodes_again() {
    let pairs = vec![("pub.example".to_string(), "https://origin.internal:8443".to_string())];
    let forward = Forward::new(&pairs).unwrap();
    let out = forward.rewrite_body(Some("gzip"), &gzip(PLAIN)).unwrap();
    assert_eq!(gunzip(&out), b"{\"host\": \"pub.example\", \"again\": \"pub.example\"}");
    let out = forward.rewrite_body(None, PLAIN).unwrap();
    assert_eq!(out, b"{\"host\": \"pub.example\", \"again\": \"pub.example\"}");
    let encoded = Coder::En.apply(Encoding::Brotli, PLAIN).unwrap();
    let out = forward.rewrite_body(Some("br"), &encoded).unwrap();
    assert_eq!(
        Coder::De.apply(Encoding::Brotli, &out).unwrap(),
        b"{\"host\": \"pub.example\", \"again\": \"pub.example\"}"
    );
}

#[test]
fn rewrite_body_reports_the_step_that_fails() {
    let pairs = vec![("pub.example".to_string(), "https://origin.internal:8443".to_string())];
    let forward = Forward::new(&pairs).unwrap();
    assert!(matches!(
        forward.rewrite_body(Some("gzip"), PLAIN),
        Err(ForwardError::BodyDecodeError)
    ));
    assert!(matches!(
        forward.rewrite_body(Some("gzip"), &gzip(&[0xff, 0xfe])),
        Err(ForwardError::BodyDecodeError)
    ));
    assert!(matches!(
        forward.rewrite_body(Some("compress"), PLAIN),
        Err(ForwardError::UnhandledEncoding(_))
    ));
}
