use vstd::prelude::*;

pub mod chain;
pub mod clock;
pub mod codec;
pub mod helper;
pub mod laws;
pub mod retrieve;
pub mod verify;

pub use chain::{verify_chain, verify_chain_at};
pub use verify::CertVerifier;
pub use codec::{Certificate, Crl, parse_certificate, parse_crl, x509_dist_points};
pub use helper::{TrustStore, TrustStoreBuilder, download_crls_into_store, store_setup};
pub use retrieve::{HttpResponse, Transport};

verus! {

/// Error taxonomy for host-key-document verification.
///
/// `HkdVerify` wraps the per-verification failure causes; the other
/// variants arise while building a trust store or acquiring material.
#[derive(Debug, Clone, PartialEq, Eq, Structural)]
pub enum HkdVerifyErrorType {
    /// The leaf's serial number is listed in an applicable CRL.
    HdkRevoked,
    /// The declared issuer does not match, or does not verify, any
    /// candidate issuer along the attempted path.
    IssuerMismatch,
    /// The verification instant lies before the certificate's window.
    BeforeValidity,
    /// The verification instant lies after the certificate's window.
    AfterValidity,
    /// A signature does not validate.  The chain verdict folds a
    /// failed signature against the claimed issuer into
    /// `IssuerMismatch`; this kind stays in the taxonomy for callers
    /// that classify signature failures on their own.
    SignatureInvalid,
    /// No chain from the leaf to any trust anchor.
    PathNotFound,
    /// Every CRL for an issuer in the path is past its next update.
    StaleCrl,
}

/// Top-level error type of the library.
#[derive(Debug, Clone, PartialEq, Eq, Structural)]
pub enum Error {
    /// Malformed certificate or CRL bytes.
    Decode,
    /// A file could not be found or read.  The library itself does no
    /// file I/O: the callers that load material on its behalf use
    /// this kind.
    Io,
    /// A CRL fetch failed: transport error, bad status, or wrong
    /// content type.
    Retrieval,
    /// A trust store was finalized with no trust anchor in it.
    NoTrustAnchor,
    /// A chain verification failed with the given cause.
    HkdVerify(HkdVerifyErrorType),
}

} // verus!
