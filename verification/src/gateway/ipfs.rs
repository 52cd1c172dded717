//! IPFS archival of ISO 20022 XML messages: endpoints and gzip framing.
use flate2::read::GzDecoder;
use flate2::write::GzEncoder;
use flate2::Compression;
use std::io::{Read, Write};
use vstd::prelude::*;
use vstd::string::*;

verus! {

/// IPFS client for document storage.
#[derive(Debug, Clone)]
pub struct IpfsClient {
    api_url: String,
    gateway_url: String,
}

impl IpfsClient {
    /// The IPFS API endpoint.
    pub closed spec fn spec_api_url(&self) -> Seq<char> {
        self.api_url@
    }

    /// The gateway used for retrieval.
    pub closed spec fn spec_gateway_url(&self) -> Seq<char> {
        self.gateway_url@
    }

    /// Create a new IPFS client.
    pub fn new(api_url: String, gateway_url: String) -> (r: IpfsClient)
        ensures
            r.spec_api_url() == api_url@,
            r.spec_gateway_url() == gateway_url@,
    {
        IpfsClient { api_url, gateway_url }
    }

    /// The endpoint that adds a file: `{api_url}/api/v0/add`.
    pub fn add_endpoint(&self) -> (r: String)
        ensures
            r@ == self.spec_api_url() + "/api/v0/add"@,
    {
        let mut r = self.api_url.clone();
        r.append("/api/v0/add");
        r
    }

    /// The gateway address of a stored document: `{gateway_url}/ipfs/{hash}`.
    pub fn content_url(&self, hash: &str) -> (r: String)
        ensures
            r@ == self.spec_gateway_url() + "/ipfs/"@ + hash@,
    {
        let mut r = self.gateway_url.clone();
        r.append("/ipfs/");
        r.append(hash);
        r
    }

    /// The endpoint that pins a document: `{api_url}/api/v0/pin/add?arg={hash}`.
    pub fn pin_endpoint(&self, hash: &str) -> (r: String)
        ensures
            r@ == self.spec_api_url() + "/api/v0/pin/add?arg="@ + hash@,
    {
        let mut r = self.api_url.clone();
        r.append("/api/v0/pin/add?arg=");
        r.append(hash);
        r
    }
}

/// What `flate2`'s `GzEncoder` at the default level makes of `data` written into a `Vec`:
/// the gzip stream, or `None` where the encoder reports an error.
pub uninterp spec fn gzip_of(data: Seq<u8>) -> Option<Seq<u8>>;

/// Gzip-compresses `data` with `flate2::write::GzEncoder` (default level) into a `Vec`.
///
/// Claimed: the outcome is the one [`gzip_of`] names, which depends on `data` alone (the
/// header carries no time stamp and a fixed OS byte, and the output `Vec` takes every
/// write): the encoder's stream, or the I/O error's text where it reports one.
#[verifier::external_body]
fn gzip_encode(data: &[u8]) -> (r: Result<Vec<u8>, String>)
    ensures
        match gzip_of(data@) {
            Some(z) => r is Ok && r->Ok_0@ == z,
            None => r is Err,
        },
{
    let mut encoder = GzEncoder::new(Vec::new(), Compression::default());
    match encoder.write_all(data) {
        Ok(()) => match encoder.finish() {
            Ok(v) => Ok(v),
            Err(e) => Err(e.to_string()),
        },
        Err(e) => Err(e.to_string()),
    }
}

/// What `flate2`'s `GzDecoder` reading `data` to the end makes of it: the decoded bytes, or
/// `None` where it reports an error.
pub uninterp spec fn gunzip_of(data: Seq<u8>) -> Option<Seq<u8>>;

/// Gzip-decompresses `data` with `flate2::read::GzDecoder`, reading to the end.
///
/// Claimed: the outcome is the one [`gunzip_of`] names, which depends on `data` alone (it
/// is read from a slice); and the stream `GzEncoder` wrote for some bytes decodes to
/// exactly those bytes. The I/O error's text is returned where decoding fails.
#[verifier::external_body]
fn gzip_decode(data: &[u8]) -> (r: Result<Vec<u8>, String>)
    ensures
        match gunzip_of(data@) {
            Some(p) => r is Ok && r->Ok_0@ == p,
            None => r is Err,
        },
        forall|plain: Seq<u8>| #[trigger] gzip_of(plain) == Some(data@) ==> r is Ok && r->Ok_0@
            == plain,
{
    let mut decoder = GzDecoder::new(data);
    let mut decompressed = Vec::new();
    match decoder.read_to_end(&mut decompressed) {
        Ok(_) => Ok(decompressed),
        Err(e) => Err(e.to_string()),
    }
}

/// Why a message could not be (de)compressed.
#[derive(Debug, Clone)]
pub enum CompressionError {
    /// The gzip stream could not be written or read; the I/O error's text.
    Io(String),
}

/// Gzip-compress data.
pub fn compress(data: &[u8]) -> (r: Result<Vec<u8>, CompressionError>)
    ensures
        match gzip_of(data@) {
            Some(z) => r is Ok && r->Ok_0@ == z,
            None => r is Err,
        },
{
    match gzip_encode(data) {
        Ok(v) => Ok(v),
        Err(e) => Err(CompressionError::Io(e)),
    }
}

/// Gzip-decompress data. What [`compress`] produced decompresses to the bytes it was given.
pub fn decompress(data: &[u8]) -> (r: Result<Vec<u8>, CompressionError>)
    ensures
        match gunzip_of(data@) {
            Some(p) => r is Ok && r->Ok_0@ == p,
            None => r is Err,
        },
        forall|plain: Seq<u8>| #[trigger] gzip_of(plain) == Some(data@) ==> r is Ok && r->Ok_0@
            == plain,
{
    match gzip_decode(data) {
        Ok(v) => Ok(v),
        Err(e) => Err(CompressionError::Io(e)),
    }
}

} // verus!
