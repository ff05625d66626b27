//! End-to-end tests of the chain-verification engine against a small
//! generated PKI: root CA -> intermediate CA -> issuing CA -> hosts.

use std::cell::RefCell;
use hkd_verify::{CertVerifier, Certificate, Error, HkdVerifyErrorType, HttpResponse, Transport};

// Test PKI material: a root CA, an intermediate CA, an issuing CA
// and host certificates with CRLs, fixed so tests are deterministic.

pub const ROOT_CA_PEM: &str = "\
-----BEGIN CERTIFICATE-----\n\
MIIBJzCBzqADAgECAgEBMAoGCCqGSM49BAMCMBIxEDAOBgNVBAMMB1Jvb3QgQ0Ew\n\
IBcNMjAwMTAxMDAwMDAwWhgPMjA1NTAxMDEwMDAwMDBaMBIxEDAOBgNVBAMMB1Jv\n\
b3QgQ0EwWTATBgcqhkjOPQIBBggqhkjOPQMBBwNCAARkkjaiA7In7uFtMjyYT5tt\n\
I/uz4oi9pkH55srSi8kPRp/Ryz4FIj0C+cKQ1awlF1rHWWn08fn4yCNtoA/r/YMr\n\
oxMwETAPBgNVHRMBAf8EBTADAQH/MAoGCCqGSM49BAMCA0gAMEUCIB1Vk92mkwwb\n\
7zZz33x7bVvzvp7Od+mEQXEeqF5OhVh9AiEAq8+VA912gkwRCMMwtL9Qv5cQUnid\n\
AFLQVRxzZMm/FPU=\n\
-----END CERTIFICATE-----\n\
";

pub const INTER_CA_PEM: &str = "\
-----BEGIN CERTIFICATE-----\n\
MIIBYTCCAQigAwIBAgIBAjAKBggqhkjOPQQDAjASMRAwDgYDVQQDDAdSb290IENB\n\
MCAXDTIwMDEwMTAwMDAwMFoYDzIwNTUwMTAxMDAwMDAwWjATMREwDwYDVQQDDAhJ\n\
bnRlciBDQTBZMBMGByqGSM49AgEGCCqGSM49AwEHA0IABFY+CyFbV96f6cruYhei\n\
kS1fKro2pO0/lgDQkF9mYyo6JAxB+jDqUOrxDjBklloTVGPstkifiYLIuPT56JXE\n\
yeajTDBKMA8GA1UdEwEB/wQFMAMBAf8wNwYDVR0fBDAwLjAsoCqgKIYmaHR0cDov\n\
LzEyNy4wLjAuMToxMjM0L2NybC9pbnRlcl9jYS5jcmwwCgYIKoZIzj0EAwIDRwAw\n\
RAIgUCgyI1OGSO9tf9hiIGTJrE3kFfG96dP/m8LmpRTb3s0CIB90lLJtc+s5A1Xg\n\
6SweskKLmGsCZRHuXP+MP3HBZHZ+\n\
-----END CERTIFICATE-----\n\
";

pub const IBM_PEM: &str = "\
-----BEGIN CERTIFICATE-----\n\
MIIBZjCCAQugAwIBAgIBAzAKBggqhkjOPQQDAjATMREwDwYDVQQDDAhJbnRlciBD\n\
QTAgFw0yMDAxMDEwMDAwMDBaGA8yMDU1MDEwMTAwMDAwMFowFTETMBEGA1UEAwwK\n\
SUJNIEhLRCBDQTBZMBMGByqGSM49AgEGCCqGSM49AwEHA0IABJ/DXUtLaoDAMQoO\n\
bdxUQxih3fStfYleKHGegvEtV8iNNcyDYpBNWVcLMWki7V36XBO+D4Elmb987PhX\n\
PuWcqB2jTDBKMA8GA1UdEwEB/wQFMAMBAf8wNwYDVR0fBDAwLjAsoCqgKIYmaHR0\n\
cDovLzEyNy4wLjAuMToxMjM0L2NybC9pbnRlcl9jYS5jcmwwCgYIKoZIzj0EAwID\n\
SQAwRgIhAKwJtjXl03WmWj8roYSZWX88ksj5vawbCgNMUTV/BquVAiEAwzFBMftH\n\
RNhcJvj2DYyPC63QfxQDtWP2kgpSW9KPMXQ=\n\
-----END CERTIFICATE-----\n\
";

pub const HOST_PEM: &str = "\
-----BEGIN CERTIFICATE-----\n\
MIIBWzCCAQCgAwIBAgICA+kwCgYIKoZIzj0EAwIwFTETMBEGA1UEAwwKSUJNIEhL\n\
RCBDQTAgFw0yMDAxMDEwMDAwMDBaGA8yMDU1MDEwMTAwMDAwMFowDzENMAsGA1UE\n\
AwwEaG9zdDBZMBMGByqGSM49AgEGCCqGSM49AwEHA0IABHTq4uC9WIxhmT6WNFAC\n\
g/1iyP1C22vFWgssn5mXulPsZnMqNRCvvaHS0DbKqUkUk4p2zPnIcp+vlmrTCr9d\n\
gCijRDBCMAwGA1UdEwEB/wQCMAAwMgYDVR0fBCswKTAnoCWgI4YhaHR0cDovLzEy\n\
Ny4wLjAuMToxMjM0L2NybC9pYm0uY3JsMAoGCCqGSM49BAMCA0kAMEYCIQCiokqS\n\
rIsXXka7VEDduXbS1labwRoVhcqo9Y4vUV6plwIhAKYqQJdgqfRczrhrTUBqvqLb\n\
XICLylFUqQQ+j1NlMfd5\n\
-----END CERTIFICATE-----\n\
";

pub const HOST_REV_PEM: &str = "\
-----BEGIN CERTIFICATE-----\n\
MIIBXjCCAQSgAwIBAgICC7kwCgYIKoZIzj0EAwIwFTETMBEGA1UEAwwKSUJNIEhL\n\
RCBDQTAgFw0yMDAxMDEwMDAwMDBaGA8yMDU1MDEwMTAwMDAwMFowEzERMA8GA1UE\n\
AwwIaG9zdCByZXYwWTATBgcqhkjOPQIBBggqhkjOPQMBBwNCAAQav10IQL/qdcAL\n\
q7RYufAjcZx1RZ+pOwr2psOyloeqEkkCJ/Qy4LUSLpg4zbPHlkq9osyCTrpRAOH3\n\
KQNfwSV0o0QwQjAMBgNVHRMBAf8EAjAAMDIGA1UdHwQrMCkwJ6AloCOGIWh0dHA6\n\
Ly8xMjcuMC4wLjE6MTIzNC9jcmwvaWJtLmNybDAKBggqhkjOPQQDAgNIADBFAiEA\n\
x508zs6lHf5GQJViVBcjyzJR5SGK6m99TgXZ6EZ1Wn0CIBOj9NsfH2O5VAzFCtWY\n\
v+s8pAAelSANoV0xe6zMmNmS\n\
-----END CERTIFICATE-----\n\
";

pub const HOST_EXP_PEM: &str = "\
-----BEGIN CERTIFICATE-----\n\
MIIBXDCCAQKgAwIBAgICA+owCgYIKoZIzj0EAwIwFTETMBEGA1UEAwwKSUJNIEhL\n\
RCBDQTAeFw0yMDAxMDEwMDAwMDBaFw0yMTAxMDEwMDAwMDBaMBMxETAPBgNVBAMM\n\
CGhvc3QgZXhwMFkwEwYHKoZIzj0CAQYIKoZIzj0DAQcDQgAEyPKRUWgzy6iRxxm6\n\
fr9CVpocZVHWrBFxNKC3jaM2REM+LUmmlAJ0d8Ugmcg67gO/9DAx/PvK3et58B/Q\n\
scb53KNEMEIwDAYDVR0TAQH/BAIwADAyBgNVHR8EKzApMCegJaAjhiFodHRwOi8v\n\
MTI3LjAuMC4xOjEyMzQvY3JsL2libS5jcmwwCgYIKoZIzj0EAwIDSAAwRQIgCqD1\n\
t2SPdiJA7mSlhBicccI46123MTJDI2XM10NPk/cCIQCAi0XTKYxBOFQ5EKrrSrSj\n\
bSRVXlWl358ApGEmJv5msg==\n\
-----END CERTIFICATE-----\n\
";

pub const HOST_INV_PEM: &str = "\
-----BEGIN CERTIFICATE-----\n\
MIIBXjCCAQSgAwIBAgICA+swCgYIKoZIzj0EAwIwFTETMBEGA1UEAwwKSUJNIEhL\n\
RCBDQTAgFw0yMDAxMDEwMDAwMDBaGA8yMDU1MDEwMTAwMDAwMFowEzERMA8GA1UE\n\
AwwIaG9zdCBpbnYwWTATBgcqhkjOPQIBBggqhkjOPQMBBwNCAAT1TbW0sJWDaIqe\n\
H2m4pYRYeqgBr+ln8nH84CMnI3EYG0qMisKtlkN3RiHW6tKIuvGRgYSU7B20qkl8\n\
J42cira/o0QwQjAMBgNVHRMBAf8EAjAAMDIGA1UdHwQrMCkwJ6AloCOGIWh0dHA6\n\
Ly8xMjcuMC4wLjE6MTIzNC9jcmwvaWJtLmNybDAKBggqhkjOPQQDAgNIADBFAiEA\n\
7UjcZb8DaGosFQWdWac6BHbsxQXv5ws2ZJvDIOseuqYCIDeWEUusWZaJD/GP8ISZ\n\
AXx6MoNL3K7ZY0bU75APFbPk\n\
-----END CERTIFICATE-----\n\
";

pub const HOST_FUTURE_PEM: &str = "\
-----BEGIN CERTIFICATE-----\n\
MIIBYjCCAQmgAwIBAgICA+wwCgYIKoZIzj0EAwIwFTETMBEGA1UEAwwKSUJNIEhL\n\
RCBDQTAiGA8yMDUwMDEwMTAwMDAwMFoYDzIwNTUwMTAxMDAwMDAwWjAWMRQwEgYD\n\
VQQDDAtob3N0IGZ1dHVyZTBZMBMGByqGSM49AgEGCCqGSM49AwEHA0IABI663o8n\n\
FHtHTbL5jtn0w5Da3OoG8+AmU5oUDbzX1GVhHF8a0u+VoWufR0xlnlybjT/aKOaH\n\
KutQKQcC37xg0KmjRDBCMAwGA1UdEwEB/wQCMAAwMgYDVR0fBCswKTAnoCWgI4Yh\n\
aHR0cDovLzEyNy4wLjAuMToxMjM0L2NybC9pYm0uY3JsMAoGCCqGSM49BAMCA0cA\n\
MEQCIFsZaNGApGWuXQYTS1l39EbpuWAd1TrgsYFNVZzjoFl8AiB7/X/PliTYvtfH\n\
ynwXzyob+ZrpEUvNLFM7iACJhmW+jQ==\n\
-----END CERTIFICATE-----\n\
";

pub const INTER_CA_CRL_PEM: &str = "\
-----BEGIN X509 CRL-----\n\
MIGzMFsCAQEwCgYIKoZIzj0EAwIwEzERMA8GA1UEAwwISW50ZXIgQ0EXDTIwMDEw\n\
MTAwMDAwMFoYDzIwNTUwMTAxMDAwMDAwWjAVMBMCAicPFw0yMDAxMDEwMDAwMDBa\n\
MAoGCCqGSM49BAMCA0gAMEUCIQDVy8AIGedlRao4LFBmZErCEyDYdjhJv5bIsr1a\n\
FWWclQIgGgInaw5hTkfPehogPVwQe1yzbeKgw7zoJxTvrNFZ0Lw=\n\
-----END X509 CRL-----\n\
";

pub const IBM_CRL_PEM: &str = "\
-----BEGIN X509 CRL-----\n\
MIG0MF0CAQEwCgYIKoZIzj0EAwIwFTETMBEGA1UEAwwKSUJNIEhLRCBDQRcNMjAw\n\
MTAxMDAwMDAwWhgPMjA1NTAxMDEwMDAwMDBaMBUwEwICC7kXDTIwMDEwMTAwMDAw\n\
MFowCgYIKoZIzj0EAwIDRwAwRAIgYrplr9XxVlPg2Bf138suR7v1AhS36OWuyMVz\n\
I4V+j/sCIBOD0u5UA87mCYwmYQVsHUE17NtexoJNlupHNAoZlpxW\n\
-----END X509 CRL-----\n\
";

pub const IBM_CRL_STALE_PEM: &str = "\
-----BEGIN X509 CRL-----\n\
MIGzMFsCAQEwCgYIKoZIzj0EAwIwFTETMBEGA1UEAwwKSUJNIEhLRCBDQRcNMjAw\n\
MTAxMDAwMDAwWhcNMjIwMTAxMDAwMDAwWjAVMBMCAgu5Fw0yMDAxMDEwMDAwMDBa\n\
MAoGCCqGSM49BAMCA0gAMEUCIClud9ycT71RuYauhxbzItPE8OqdZCRyI9WrKiNS\n\
04OeAiEArg748lA99myBvm12xbCfAriOz1D157eEyayMLd5I+Lc=\n\
-----END X509 CRL-----\n\
";

fn pem(s: &str) -> Vec<u8> {
    s.as_bytes().to_vec()
}

fn load_cert(s: &str) -> Certificate {
    hkd_verify::parse_certificate(s.as_bytes()).unwrap()
}

/// A transport for offline scenarios: every fetch fails.
struct NoNet;

impl Transport for NoNet {
    fn fetch(&self, _url: &str) -> Result<HttpResponse, Error> {
        Err(Error::Retrieval)
    }
}

/// A transport serving fixed bodies by URL, counting the fetches.
struct FixedTransport {
    routes: Vec<(String, Vec<u8>)>,
    hits: RefCell<usize>,
}

impl FixedTransport {
    fn new(routes: Vec<(&str, &str)>) -> Self {
        FixedTransport {
            routes: routes
                .into_iter()
                .map(|(u, body)| (u.to_string(), body.as_bytes().to_vec()))
                .collect(),
            hits: RefCell::new(0),
        }
    }
}

impl Transport for FixedTransport {
    fn fetch(&self, url: &str) -> Result<HttpResponse, Error> {
        *self.hits.borrow_mut() += 1;
        for (u, body) in &self.routes {
            if u == url {
                return Ok(HttpResponse {
                    status: 200,
                    content_type: "application/pkix-crl".to_string(),
                    body: body.clone(),
                });
            }
        }
        Ok(HttpResponse { status: 404, content_type: String::new(), body: Vec::new() })
    }
}

const URL_INTER: &str = "http://127.0.0.1:1234/crl/inter_ca.crl";
const URL_IBM: &str = "http://127.0.0.1:1234/crl/ibm.crl";

#[test]
fn store_setup() {
    let ibm = pem(IBM_PEM);
    let inter = pem(INTER_CA_PEM);
    let store = hkd_verify::store_setup(&None, &vec![], &vec![ibm, inter]);
    assert!(store.is_ok());
}

#[test]
fn verify_chain_offline() {
    let ibm_crt = load_cert(IBM_PEM);
    let inter_crl = pem(INTER_CA_CRL_PEM);
    let inter_crt = load_cert(INTER_CA_PEM);
    let root_crt = pem(ROOT_CA_PEM);

    let store = hkd_verify::store_setup(&Some(root_crt), &vec![inter_crl], &vec![])
        .unwrap()
        .build()
        .unwrap();

    let sk = vec![inter_crt];
    assert!(hkd_verify::verify_chain(&store, &sk, &[ibm_crt]).is_ok());
}

#[test]
fn verify_chain_online() {
    let ibm_crt = load_cert(IBM_PEM);
    let inter_crt = load_cert(INTER_CA_PEM);
    let root_crt = pem(ROOT_CA_PEM);

    let transport = FixedTransport::new(vec![(URL_INTER, INTER_CA_CRL_PEM)]);

    let mut store = hkd_verify::store_setup(&Some(root_crt), &vec![], &vec![]).unwrap();
    let certs = vec![load_cert(IBM_PEM)];
    hkd_verify::download_crls_into_store(&mut store, &certs, &transport).unwrap();
    let store = store.build().unwrap();

    assert_eq!(*transport.hits.borrow(), 1);

    let sk = vec![inter_crt];
    hkd_verify::verify_chain(&store, &sk, &[ibm_crt]).unwrap();
    assert!(hkd_verify::verify_chain(&store, &sk, &[load_cert(IBM_PEM)]).is_ok());
}

#[test]
fn verify_online() {
    let root_crt = pem(ROOT_CA_PEM);
    let inter_crt = pem(INTER_CA_PEM);
    let ibm_crt = pem(IBM_PEM);
    let hkd_revoked = load_cert(HOST_REV_PEM);
    let hkd_inv = load_cert(HOST_INV_PEM);
    let hkd_exp = load_cert(HOST_EXP_PEM);
    let hkd = load_cert(HOST_PEM);

    let transport = FixedTransport::new(vec![
        (URL_INTER, INTER_CA_CRL_PEM),
        (URL_IBM, IBM_CRL_PEM),
    ]);

    let inter_crl = pem(INTER_CA_CRL_PEM);
    let ibm_crl = pem(IBM_CRL_PEM);
    let verifier = CertVerifier::new(
        &vec![ibm_crt, inter_crt],
        &vec![ibm_crl, inter_crl],
        &Some(root_crt),
        false,
        &transport,
    )
    .unwrap();

    // Both supplied certificates declare the same distribution point:
    // the shared CRL is fetched exactly once.
    assert_eq!(*transport.hits.borrow(), 1);

    verifier.verify(&hkd).unwrap();

    assert!(matches!(
        verifier.verify(&hkd_revoked),
        Err(Error::HkdVerify(HkdVerifyErrorType::HdkRevoked))
    ));

    assert!(matches!(
        verifier.verify(&hkd_inv),
        Err(Error::HkdVerify(HkdVerifyErrorType::IssuerMismatch))
    ));

    assert!(matches!(
        verifier.verify(&hkd_exp),
        Err(Error::HkdVerify(HkdVerifyErrorType::AfterValidity))
    ));
}

#[test]
fn verify_offline() {
    let root_crt = pem(ROOT_CA_PEM);
    let inter_crt = pem(INTER_CA_PEM);
    let inter_crl = pem(INTER_CA_CRL_PEM);
    let ibm_crt = pem(IBM_PEM);
    let ibm_crl = pem(IBM_CRL_PEM);
    let hkd_revoked = load_cert(HOST_REV_PEM);
    let hkd_inv = load_cert(HOST_INV_PEM);
    let hkd_exp = load_cert(HOST_EXP_PEM);
    let hkd = load_cert(HOST_PEM);

    let verifier = CertVerifier::new(
        &vec![ibm_crt, inter_crt],
        &vec![ibm_crl, inter_crl],
        &Some(root_crt),
        true,
        &NoNet,
    )
    .unwrap();

    verifier.verify(&hkd).unwrap();

    assert!(matches!(
        verifier.verify(&hkd_revoked),
        Err(Error::HkdVerify(HkdVerifyErrorType::HdkRevoked))
    ));

    assert!(matches!(
        verifier.verify(&hkd_inv),
        Err(Error::HkdVerify(HkdVerifyErrorType::IssuerMismatch))
    ));

    assert!(matches!(
        verifier.verify(&hkd_exp),
        Err(Error::HkdVerify(HkdVerifyErrorType::AfterValidity))
    ));
}

#[test]
fn dist_points() {
    let crt = load_cert(IBM_PEM);
    let res = hkd_verify::x509_dist_points(&crt);
    let exp = vec!["http://127.0.0.1:1234/crl/inter_ca.crl"];
    assert_eq!(res, exp);
}

#[test]
fn dist_points_absent_is_empty() {
    let crt = load_cert(ROOT_CA_PEM);
    let res = hkd_verify::x509_dist_points(&crt);
    assert!(res.is_empty());
}

#[test]
fn dist_points_same_bytes_same_urls() {
    let a = hkd_verify::x509_dist_points(&load_cert(HOST_PEM));
    let b = hkd_verify::x509_dist_points(&load_cert(HOST_PEM));
    assert_eq!(a, b);
    assert_eq!(a, vec!["http://127.0.0.1:1234/crl/ibm.crl"]);
}

#[test]
fn build_without_anchor_fails() {
    let builder = hkd_verify::store_setup(&None, &vec![], &vec![]).unwrap();
    assert!(matches!(builder.build(), Err(Error::NoTrustAnchor)));
}

#[test]
fn before_validity_is_reported() {
    let verifier = offline_verifier();
    assert!(verifier.is_offline());
    let hkd_future = load_cert(HOST_FUTURE_PEM);
    assert!(matches!(
        verifier.verify(&hkd_future),
        Err(Error::HkdVerify(HkdVerifyErrorType::BeforeValidity))
    ));
}

#[test]
fn stale_crl_is_reported() {
    let root_crt = pem(ROOT_CA_PEM);
    let verifier = CertVerifier::new(
        &vec![pem(IBM_PEM), pem(INTER_CA_PEM)],
        &vec![pem(IBM_CRL_STALE_PEM), pem(INTER_CA_CRL_PEM)],
        &Some(root_crt),
        true,
        &NoNet,
    )
    .unwrap();
    // The only CRL covering the issuing CA's certificates is past its
    // next update: revocation state cannot be trusted, even for a
    // serial the stale list names.
    assert!(matches!(
        verifier.verify(&load_cert(HOST_PEM)),
        Err(Error::HkdVerify(HkdVerifyErrorType::StaleCrl))
    ));
    assert!(matches!(
        verifier.verify(&load_cert(HOST_REV_PEM)),
        Err(Error::HkdVerify(HkdVerifyErrorType::StaleCrl))
    ));
}

#[test]
fn revoked_via_fetched_crl() {
    // The revoking CRL reaches the store only over the network: the
    // verdict matches what the same bytes give when read from a file.
    let transport = FixedTransport::new(vec![
        (URL_INTER, INTER_CA_CRL_PEM),
        (URL_IBM, IBM_CRL_PEM),
    ]);
    let verifier = CertVerifier::new(
        &vec![pem(IBM_PEM), pem(INTER_CA_PEM), pem(HOST_PEM)],
        &vec![],
        &Some(pem(ROOT_CA_PEM)),
        false,
        &transport,
    )
    .unwrap();
    assert_eq!(*transport.hits.borrow(), 2);
    assert!(verifier.verify(&load_cert(HOST_PEM)).is_ok());
    assert!(matches!(
        verifier.verify(&load_cert(HOST_REV_PEM)),
        Err(Error::HkdVerify(HkdVerifyErrorType::HdkRevoked))
    ));
}

#[test]
fn online_construction_fails_without_network() {
    let r = CertVerifier::new(
        &vec![pem(IBM_PEM)],
        &vec![],
        &Some(pem(ROOT_CA_PEM)),
        false,
        &NoNet,
    );
    assert!(matches!(r, Err(Error::Retrieval)));
}

#[test]
fn malformed_input_is_decode_error() {
    assert!(matches!(
        hkd_verify::parse_certificate(b"not a certificate"),
        Err(Error::Decode)
    ));
    assert!(matches!(hkd_verify::parse_crl(b"not a crl"), Err(Error::Decode)));
}

#[test]
fn response_validation() {
    let good = HttpResponse {
        status: 200,
        content_type: "application/pkix-crl".to_string(),
        body: pem(IBM_CRL_PEM),
    };
    assert!(hkd_verify::retrieve::accept_crl_response(&good).is_ok());

    let bad_status = HttpResponse {
        status: 404,
        content_type: "application/pkix-crl".to_string(),
        body: pem(IBM_CRL_PEM),
    };
    assert!(matches!(
        hkd_verify::retrieve::accept_crl_response(&bad_status),
        Err(Error::Retrieval)
    ));

    let bad_type = HttpResponse {
        status: 200,
        content_type: "text/html".to_string(),
        body: pem(IBM_CRL_PEM),
    };
    assert!(matches!(
        hkd_verify::retrieve::accept_crl_response(&bad_type),
        Err(Error::Retrieval)
    ));

    let bad_body = HttpResponse {
        status: 200,
        content_type: "application/pkix-crl".to_string(),
        body: b"garbage".to_vec(),
    };
    assert!(matches!(
        hkd_verify::retrieve::accept_crl_response(&bad_body),
        Err(Error::Decode)
    ));
}

fn offline_verifier() -> CertVerifier {
    CertVerifier::new(
        &vec![pem(IBM_PEM), pem(INTER_CA_PEM)],
        &vec![pem(IBM_CRL_PEM), pem(INTER_CA_CRL_PEM)],
        &Some(pem(ROOT_CA_PEM)),
        true,
        &NoNet,
    )
    .unwrap()
}

#[test]
fn new_offline_without_root_fails() {
    let r = CertVerifier::new(
        &vec![pem(IBM_PEM), pem(INTER_CA_PEM)],
        &vec![pem(IBM_CRL_PEM)],
        &None,
        true,
        &NoNet,
    );
    assert!(matches!(r, Err(Error::NoTrustAnchor)));
}

#[test]
fn store_setup_rejects_malformed_input() {
    let r = hkd_verify::store_setup(&None, &vec![], &vec![b"garbage".to_vec()]);
    assert!(matches!(r, Err(Error::Decode)));

    let r = hkd_verify::store_setup(&Some(pem(ROOT_CA_PEM)), &vec![b"garbage".to_vec()], &vec![]);
    assert!(matches!(r, Err(Error::Decode)));
}

#[test]
fn download_skips_certs_without_dist_points() {
    // The root certificate declares no distribution point: an online
    // fill has nothing to fetch and succeeds even without a network.
    let mut builder = hkd_verify::store_setup(&Some(pem(ROOT_CA_PEM)), &vec![], &vec![]).unwrap();
    let certs = vec![load_cert(ROOT_CA_PEM)];
    assert!(hkd_verify::download_crls_into_store(&mut builder, &certs, &NoNet).is_ok());
    assert!(builder.build().is_ok());
}

#[test]
fn online_without_dist_points_needs_no_network() {
    // The root declares no distribution point: online construction
    // over it has nothing to fetch and succeeds without a transport
    // that works.
    let verifier = CertVerifier::new(
        &vec![pem(ROOT_CA_PEM)],
        &vec![pem(IBM_CRL_PEM)],
        &Some(pem(ROOT_CA_PEM)),
        false,
        &NoNet,
    );
    assert!(verifier.is_ok());
    assert!(!verifier.unwrap().is_offline());
}
