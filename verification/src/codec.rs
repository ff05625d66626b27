//! Parsing of DER/PEM certificates and CRLs into plain in-memory models.
//!
//! The binary decoding itself is done by openssl behind a small set of
//! trusted wrappers; every field a wrapper hands back is pinned to an
//! uninterpreted name of the input bytes, so that all extraction is a
//! pure function of the bytes.

use vstd::prelude::*;
use crate::Error;

verus! {

// ---------------------------------------------------------------------
// Names for what openssl computes from certificate bytes.  Each is a
// pure function of the bytes alone; a trusted wrapper below states that
// its result equals the name applied to its input.
// ---------------------------------------------------------------------

/// Whether `bytes` decode as a certificate: openssl parses them (as
/// PEM, or else as DER) and extracts every field the model holds.
/// Decoding is deterministic, so this is a function of the bytes.
pub uninterp spec fn cert_decodes(bytes: Seq<u8>) -> bool;

/// Whether `bytes` decode as a CRL, in the same sense.
pub uninterp spec fn crl_decodes(bytes: Seq<u8>) -> bool;

/// DER encoding of the subject name of the certificate in `bytes`.
pub uninterp spec fn cert_subject_of(bytes: Seq<u8>) -> Seq<u8>;

/// DER encoding of the issuer name of the certificate in `bytes`.
pub uninterp spec fn cert_issuer_of(bytes: Seq<u8>) -> Seq<u8>;

/// Big-endian serial number of the certificate in `bytes`, as a
/// magnitude: a non-conforming negative serial loses its sign, on the
/// certificate side and on the CRL side alike.
pub uninterp spec fn cert_serial_of(bytes: Seq<u8>) -> Seq<u8>;

/// Start of the validity window of the certificate in `bytes`, in
/// seconds since the Unix epoch.
pub uninterp spec fn cert_not_before_of(bytes: Seq<u8>) -> int;

/// End of the validity window of the certificate in `bytes`, in
/// seconds since the Unix epoch.
pub uninterp spec fn cert_not_after_of(bytes: Seq<u8>) -> int;

/// The URI entries of the CRL-distribution-points extension of the
/// certificate in `bytes`, in the order they appear; empty if the
/// extension is absent.
pub uninterp spec fn cert_dist_points_of(bytes: Seq<u8>) -> Seq<Seq<char>>;

/// Whether the certificate in `cert` carries a signature that
/// validates against the public key of the certificate in `signer`.
pub uninterp spec fn sig_verifies(cert: Seq<u8>, signer: Seq<u8>) -> bool;

/// DER encoding of the issuer name of the CRL in `bytes`.
pub uninterp spec fn crl_issuer_of(bytes: Seq<u8>) -> Seq<u8>;

/// The big-endian serial numbers revoked by the CRL in `bytes`, as
/// magnitudes, in entry order.
pub uninterp spec fn crl_revoked_of(bytes: Seq<u8>) -> Seq<Seq<u8>>;

/// The next-update instant of the CRL in `bytes`, in seconds since
/// the Unix epoch, or `None` if the CRL does not carry one.
pub uninterp spec fn crl_next_update_of(bytes: Seq<u8>) -> Option<int>;

// ---------------------------------------------------------------------
// Plain field records handed back by the trusted wrappers.
// ---------------------------------------------------------------------

/// The fields openssl extracts from a certificate, with each validity
/// bound given as the (days, seconds) difference from the Unix epoch.
pub struct CertFields {
    pub subject: Vec<u8>,
    pub issuer: Vec<u8>,
    pub serial: Vec<u8>,
    pub nb_days: i32,
    pub nb_secs: i32,
    pub na_days: i32,
    pub na_secs: i32,
}

/// The fields openssl extracts from a CRL.
pub struct CrlFields {
    pub issuer: Vec<u8>,
    pub revoked: Vec<Vec<u8>>,
    pub next: Option<(i32, i32)>,
}

// ---------------------------------------------------------------------
// Trusted wrappers around openssl.
// ---------------------------------------------------------------------

/// Relies on openssl `X509::from_pem`/`from_der` (PEM is tried first),
/// `X509Ref::subject_name`, `issuer_name` and `X509NameRef::to_der`,
/// `X509Ref::serial_number`, `Asn1IntegerRef::to_bn`, `BigNum::to_vec`,
/// and `X509Ref::not_before`/`not_after` with `Asn1TimeRef::diff`
/// against `Asn1Time::from_unix(0)`: the decoded fields of the
/// certificate, all functions of the bytes alone.  The whole
/// extraction succeeds exactly when the bytes decode: every accessor
/// here is total on a parsed certificate.
#[verifier::external_body]
fn x509_fields(bytes: &[u8]) -> (r: Option<CertFields>)
    ensures
        r is Some <==> cert_decodes(bytes@),
        r is Some ==> r->0.subject@ == cert_subject_of(bytes@),
        r is Some ==> r->0.issuer@ == cert_issuer_of(bytes@),
        r is Some ==> r->0.serial@ == cert_serial_of(bytes@),
        r is Some ==> r->0.nb_days * 86400 + r->0.nb_secs == cert_not_before_of(bytes@),
        r is Some ==> r->0.na_days * 86400 + r->0.na_secs == cert_not_after_of(bytes@),
{
    let x = openssl::x509::X509::from_pem(bytes)
        .or(openssl::x509::X509::from_der(bytes))
        .ok()?;
    let epoch = openssl::asn1::Asn1Time::from_unix(0).ok()?;
    let nb = epoch.diff(x.not_before()).ok()?;
    let na = epoch.diff(x.not_after()).ok()?;
    Some(CertFields {
        subject: x.subject_name().to_der().ok()?,
        issuer: x.issuer_name().to_der().ok()?,
        serial: x.serial_number().to_bn().ok()?.to_vec(),
        nb_days: nb.days, nb_secs: nb.secs,
        na_days: na.days, na_secs: na.secs,
    })
}

/// Relies on openssl `X509::from_pem`/`from_der`,
/// `X509Ref::crl_distribution_points`, `DistPointRef::distpoint`,
/// `DistPointNameRef::fullname` and `GeneralNameRef::uri`: the URI
/// entries of the CRL-distribution-points extension, in order, empty
/// if the extension is absent; a function of the bytes alone.  On
/// bytes that decode it succeeds: after a successful parse the
/// extension walk cannot fail.  It can also succeed on parseable
/// bytes whose full field extraction fails elsewhere (a malformed
/// validity time), so nothing is claimed of those.
#[verifier::external_body]
fn x509_dist_uris(bytes: &[u8]) -> (r: Option<Vec<String>>)
    ensures
        cert_decodes(bytes@) ==> r is Some && r->0.deep_view() == cert_dist_points_of(bytes@),
{
    let x = openssl::x509::X509::from_pem(bytes).or(openssl::x509::X509::from_der(bytes)).ok()?;
    let mut out: Vec<String> = Vec::new();
    if let Some(dps) = x.crl_distribution_points() {
        for dp in &dps {
            let names = match dp.distpoint().and_then(|n| n.fullname()) {
                Some(n) => n,
                None => continue,
            };
            for gn in names {
                if let Some(uri) = gn.uri() { out.push(uri.to_string()); }
            }
        }
    }
    Some(out)
}

/// Relies on openssl `X509::from_pem`/`from_der`,
/// `X509Ref::public_key` and `X509Ref::verify`: whether the first
/// certificate's signature validates against the second one's public
/// key.  Any openssl failure (unparsable input, unusable key, error
/// during verification) is reported as non-validation.
#[verifier::external_body]
fn x509_signed_by(cert: &[u8], signer: &[u8]) -> (r: bool)
    ensures
        r == sig_verifies(cert@, signer@),
{
    let cr = openssl::x509::X509::from_pem(cert).or(openssl::x509::X509::from_der(cert));
    let sr = openssl::x509::X509::from_pem(signer).or(openssl::x509::X509::from_der(signer));
    let (c, s) = match (cr, sr) {
        (Ok(c), Ok(s)) => (c, s),
        _ => return false,
    };
    let key = match s.public_key() {
        Ok(k) => k,
        Err(_) => return false,
    };
    matches!(c.verify(&key), Ok(true))
}

/// Relies on openssl `X509Crl::from_pem`/`from_der`,
/// `X509CrlRef::issuer_name` with `X509NameRef::to_der`,
/// `X509CrlRef::get_revoked`, `X509RevokedRef::serial_number` with
/// `Asn1IntegerRef::to_bn` and `BigNum::to_vec`, and
/// `X509CrlRef::next_update` with `Asn1TimeRef::diff` against
/// `Asn1Time::from_unix(0)`: the decoded fields of the CRL, all
/// functions of the bytes alone.  The whole extraction succeeds
/// exactly when the bytes decode.
#[verifier::external_body]
fn x509_crl_fields(bytes: &[u8]) -> (r: Option<CrlFields>)
    ensures
        r is Some <==> crl_decodes(bytes@),
        r is Some ==> r->0.issuer@ == crl_issuer_of(bytes@),
        r is Some ==> r->0.revoked.deep_view() == crl_revoked_of(bytes@),
        r is Some ==> (r->0.next is Some <==> crl_next_update_of(bytes@) is Some),
        r is Some && r->0.next is Some ==> ({
            let d = r->0.next->0;
            d.0 * 86400 + d.1 == crl_next_update_of(bytes@)->0
        }),
{
    let c = openssl::x509::X509Crl::from_pem(bytes).or(openssl::x509::X509Crl::from_der(bytes)).ok()?;
    let epoch = openssl::asn1::Asn1Time::from_unix(0).ok()?;
    let next = match c.next_update() {
        Some(t) => { let d = epoch.diff(t).ok()?; Some((d.days, d.secs)) },
        None => None,
    };
    let mut revoked: Vec<Vec<u8>> = Vec::new();
    if let Some(stack) = c.get_revoked() {
        for r in stack { revoked.push(r.serial_number().to_bn().ok()?.to_vec()); }
    }
    Some(CrlFields { issuer: c.issuer_name().to_der().ok()?, revoked, next })
}

// ---------------------------------------------------------------------
// The certificate model.
// ---------------------------------------------------------------------

/// Mathematical model of a parsed certificate.
pub struct CertView {
    /// The encoded input the certificate was parsed from.
    pub bytes: Seq<u8>,
    /// DER encoding of the subject name.
    pub subject: Seq<u8>,
    /// DER encoding of the issuer name.
    pub issuer: Seq<u8>,
    /// Big-endian serial number.
    pub serial: Seq<u8>,
    /// Start of the validity window, seconds since the Unix epoch.
    pub not_before: int,
    /// End of the validity window, seconds since the Unix epoch.
    pub not_after: int,
    /// CRL distribution point URLs, in order of appearance.
    pub dist_points: Seq<Seq<char>>,
}

/// A certificate model is well formed when every field is what openssl
/// extracts from its bytes.  Extraction is thus a pure function: two
/// certificates parsed from the same bytes have equal fields.
pub open spec fn cert_wf(c: CertView) -> bool {
    &&& c.subject == cert_subject_of(c.bytes)
    &&& c.issuer == cert_issuer_of(c.bytes)
    &&& c.serial == cert_serial_of(c.bytes)
    &&& c.not_before == cert_not_before_of(c.bytes)
    &&& c.not_after == cert_not_after_of(c.bytes)
    &&& c.dist_points == cert_dist_points_of(c.bytes)
}

/// An immutable parsed X.509 certificate: the attributes the engine
/// reads, as plain values, plus the bytes it was parsed from.
pub struct Certificate {
    bytes: Vec<u8>,
    subject: Vec<u8>,
    issuer: Vec<u8>,
    serial: Vec<u8>,
    not_before: i64,
    not_after: i64,
    dist_points: Vec<String>,
}

impl View for Certificate {
    type V = CertView;

    closed spec fn view(&self) -> CertView {
        CertView {
            bytes: self.bytes@,
            subject: self.subject@,
            issuer: self.issuer@,
            serial: self.serial@,
            not_before: self.not_before as int,
            not_after: self.not_after as int,
            dist_points: self.dist_points.deep_view(),
        }
    }
}

impl DeepView for Certificate {
    type V = CertView;

    open spec fn deep_view(&self) -> CertView {
        self.view()
    }
}

impl Certificate {
    #[verifier::type_invariant]
    spec fn inv(self) -> bool {
        cert_wf(self@)
    }

    /// The bytes this certificate was parsed from.
    pub fn raw_bytes(&self) -> (r: &Vec<u8>)
        ensures
            r@ == self@.bytes,
    {
        &self.bytes
    }

    /// DER encoding of the subject name.
    pub fn subject_der(&self) -> (r: &Vec<u8>)
        ensures
            r@ == self@.subject,
    {
        &self.subject
    }

    /// DER encoding of the issuer name.
    pub fn issuer_der(&self) -> (r: &Vec<u8>)
        ensures
            r@ == self@.issuer,
    {
        &self.issuer
    }

    /// Big-endian serial number.
    pub fn serial_bytes(&self) -> (r: &Vec<u8>)
        ensures
            r@ == self@.serial,
    {
        &self.serial
    }

    /// Start of the validity window, seconds since the Unix epoch.
    pub fn not_before(&self) -> (r: i64)
        ensures
            r == self@.not_before,
    {
        self.not_before
    }

    /// End of the validity window, seconds since the Unix epoch.
    pub fn not_after(&self) -> (r: i64)
        ensures
            r == self@.not_after,
    {
        self.not_after
    }

}

/// Whether `cert`'s signature validates against `signer`'s key.
pub fn signed_by(cert: &Certificate, signer: &Certificate) -> (r: bool)
    ensures
        r == sig_verifies(cert@.bytes, signer@.bytes),
{
    x509_signed_by(cert.raw_bytes().as_slice(), signer.raw_bytes().as_slice())
}

/// Whether every entry of `v` decodes as a certificate.
pub open spec fn all_certs_decode(v: Seq<Vec<u8>>) -> bool {
    forall|i: int| 0 <= i < v.len() ==> cert_decodes((#[trigger] v[i])@)
}

/// Whether every entry of `v` decodes as a CRL.
pub open spec fn all_crls_decode(v: Seq<Vec<u8>>) -> bool {
    forall|i: int| 0 <= i < v.len() ==> crl_decodes((#[trigger] v[i])@)
}

/// Whether the optional root material, if present, decodes as a
/// certificate.
pub open spec fn root_decodes(root: Option<Vec<u8>>) -> bool {
    root is Some ==> cert_decodes(root->0@)
}

/// Whether none of the encoded certificates declares a CRL
/// distribution point, so that an online construction over them has
/// nothing to fetch.
pub open spec fn no_input_dist_points(certs: Seq<Vec<u8>>) -> bool {
    forall|i: int| 0 <= i < certs.len() ==> cert_dist_points_of((#[trigger] certs[i])@).len() == 0
}

/// Parses a PEM- or DER-encoded certificate.  It succeeds exactly
/// when the bytes decode, and then every field of the result is
/// determined by `bytes` alone.
pub fn parse_certificate(bytes: &[u8]) -> (r: Result<Certificate, Error>)
    ensures
        r is Ok <==> cert_decodes(bytes@),
        r is Ok ==> r->Ok_0@.bytes == bytes@ && cert_wf(r->Ok_0@),
        r is Err ==> r->Err_0 == Error::Decode,
{
    let f = match x509_fields(bytes) {
        Some(f) => f,
        None => return Err(Error::Decode),
    };
    let d = match x509_dist_uris(bytes) {
        Some(d) => d,
        None => return Err(Error::Decode),
    };
    let not_before: i64 = (f.nb_days as i64) * 86400 + (f.nb_secs as i64);
    let not_after: i64 = (f.na_days as i64) * 86400 + (f.na_secs as i64);
    Ok(Certificate {
        bytes: vstd::slice::slice_to_vec(bytes),
        subject: f.subject,
        issuer: f.issuer,
        serial: f.serial,
        not_before,
        not_after,
        dist_points: d,
    })
}

/// Returns the certificate's CRL distribution point URLs, in the order
/// they appear in the extension; empty if the extension is absent.
pub fn x509_dist_points(cert: &Certificate) -> (r: Vec<String>)
    ensures
        r.deep_view() == cert@.dist_points,
{
    let mut out: Vec<String> = Vec::new();
    let mut i: usize = 0;
    let n = cert.dist_points.len();
    while i < n
        invariant
            0 <= i <= n,
            n == cert.dist_points.len(),
            out@.len() == i,
            forall|j: int| 0 <= j < i ==> out@[j] == cert.dist_points@[j],
        decreases n - i,
    {
        out.push(cert.dist_points[i].clone());
        i = i + 1;
    }
    proof {
        assert(out.deep_view() =~= cert@.dist_points);
    }
    out
}

// ---------------------------------------------------------------------
// The CRL model.
// ---------------------------------------------------------------------

/// Mathematical model of a parsed certificate revocation list.
pub struct CrlView {
    /// The encoded input the CRL was parsed from.
    pub bytes: Seq<u8>,
    /// DER encoding of the issuer name.
    pub issuer: Seq<u8>,
    /// Big-endian serial numbers of the revoked certificates.
    pub revoked: Seq<Seq<u8>>,
    /// Next-update instant, seconds since the Unix epoch, if present.
    pub next_update: Option<int>,
}

/// A CRL model is well formed when every field is what openssl
/// extracts from its bytes.
pub open spec fn crl_wf(c: CrlView) -> bool {
    &&& c.issuer == crl_issuer_of(c.bytes)
    &&& c.revoked == crl_revoked_of(c.bytes)
    &&& c.next_update == crl_next_update_of(c.bytes)
}

/// An immutable parsed certificate revocation list.
pub struct Crl {
    bytes: Vec<u8>,
    issuer: Vec<u8>,
    revoked: Vec<Vec<u8>>,
    next_update: Option<i64>,
}

impl View for Crl {
    type V = CrlView;

    closed spec fn view(&self) -> CrlView {
        CrlView {
            bytes: self.bytes@,
            issuer: self.issuer@,
            revoked: self.revoked.deep_view(),
            next_update: match self.next_update {
                Some(t) => Some(t as int),
                None => None,
            },
        }
    }
}

impl DeepView for Crl {
    type V = CrlView;

    open spec fn deep_view(&self) -> CrlView {
        self.view()
    }
}

impl Crl {
    #[verifier::type_invariant]
    spec fn inv(self) -> bool {
        crl_wf(self@)
    }

    /// DER encoding of the issuer name.
    pub fn issuer_der(&self) -> (r: &Vec<u8>)
        ensures
            r@ == self@.issuer,
    {
        &self.issuer
    }

    /// Big-endian serial numbers of the revoked certificates.
    pub fn revoked_serials(&self) -> (r: &Vec<Vec<u8>>)
        ensures
            r.deep_view() == self@.revoked,
    {
        &self.revoked
    }

    /// Next-update instant, seconds since the Unix epoch, if present.
    pub fn next_update(&self) -> (r: Option<i64>)
        ensures
            r is Some <==> self@.next_update is Some,
            r is Some ==> r->0 as int == self@.next_update->0,
    {
        self.next_update
    }

}

/// Parses a PEM- or DER-encoded CRL.  It succeeds exactly when the
/// bytes decode, and then every field of the result is determined by
/// `bytes` alone.
pub fn parse_crl(bytes: &[u8]) -> (r: Result<Crl, Error>)
    ensures
        r is Ok <==> crl_decodes(bytes@),
        r is Ok ==> r->Ok_0@.bytes == bytes@ && crl_wf(r->Ok_0@),
        r is Err ==> r->Err_0 == Error::Decode,
{
    let f = match x509_crl_fields(bytes) {
        Some(f) => f,
        None => return Err(Error::Decode),
    };
    let next_update: Option<i64> = match f.next {
        Some(d) => Some((d.0 as i64) * 86400 + (d.1 as i64)),
        None => None,
    };
    Ok(Crl {
        bytes: vstd::slice::slice_to_vec(bytes),
        issuer: f.issuer,
        revoked: f.revoked,
        next_update,
    })
}

} // verus!
