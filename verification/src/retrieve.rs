//! CRL retrieval: validation of fetched HTTP responses and the
//! transport capability they come through.

use vstd::prelude::*;
use crate::Error;
use crate::codec::{Crl, crl_decodes, crl_wf, parse_crl};

verus! {

/// A fetched HTTP response, reduced to what the retriever inspects.
pub struct HttpResponse {
    /// HTTP status code.
    pub status: u16,
    /// Declared content type.
    pub content_type: String,
    /// Response body.
    pub body: Vec<u8>,
}

/// The transport capability the retriever is given: a synchronous
/// "fetch bytes from URL".  Implementations live outside the library
/// (a real HTTP client, or a test double); nothing is assumed of the
/// outcome, so everything proved here holds for every implementation.
pub trait Transport {
    /// Issues an HTTP GET against `url`.
    fn fetch(&self, url: &str) -> Result<HttpResponse, Error>;
}

/// The status codes counted as success.
pub open spec fn status_success(s: u16) -> bool {
    200 <= s < 300
}

/// The declared content type expected of a CRL response.
pub open spec fn crl_content_type(s: Seq<char>) -> bool {
    s == "application/pkix-crl"@
}

/// Accepts a fetched response as a CRL: the status must be a success,
/// the declared content type must be the CRL media type, and the body
/// must decode.  A response passing all three checks is accepted;
/// exactly the failing check is reported.
pub fn accept_crl_response(resp: &HttpResponse) -> (r: Result<Crl, Error>)
    ensures
        r is Ok <==> status_success(resp.status) && crl_content_type(resp.content_type@)
            && crl_decodes(resp.body@),
        r is Ok ==> r->Ok_0@.bytes == resp.body@ && crl_wf(r->Ok_0@),
        !status_success(resp.status) ==> r == Err::<Crl, Error>(Error::Retrieval),
        status_success(resp.status) && !crl_content_type(resp.content_type@) ==> r == Err::<
            Crl,
            Error,
        >(Error::Retrieval),
        status_success(resp.status) && crl_content_type(resp.content_type@) && r is Err
            ==> r->Err_0 == Error::Decode,
{
    if !(resp.status >= 200 && resp.status < 300) {
        return Err(Error::Retrieval);
    }
    let expected: String = "application/pkix-crl".to_owned();
    if !(resp.content_type == expected) {
        return Err(Error::Retrieval);
    }
    parse_crl(resp.body.as_slice())
}

/// Fetches one CRL from `url` through the given transport.  A
/// transport failure, a non-success status or a wrong content type is
/// a retrieval error; whatever the transport returned, a CRL is only
/// handed back if its body decodes, and is then well formed.
pub fn fetch_crl<T: Transport>(transport: &T, url: &str) -> (r: Result<Crl, Error>)
    ensures
        r is Ok ==> crl_wf(r->Ok_0@),
        r is Err ==> r->Err_0 == Error::Retrieval || r->Err_0 == Error::Decode,
{
    match transport.fetch(url) {
        Ok(resp) => accept_crl_response(&resp),
        Err(_) => Err(Error::Retrieval),
    }
}

} // verus!
