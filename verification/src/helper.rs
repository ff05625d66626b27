//! Trust store assembly: root anchors, extra anchors and CRLs are
//! collected by a builder and finalized into an immutable store.

use vstd::prelude::*;
use crate::Error;
use crate::codec::{Certificate, CertView, Crl, CrlView, all_certs_decode, all_crls_decode, cert_decodes, cert_wf, crl_decodes, crl_wf, parse_certificate, parse_crl, root_decodes, x509_dist_points};
use crate::retrieve::{Transport, fetch_crl};

verus! {

/// Mathematical model of a trust store: the trust anchors and the
/// collected CRLs, in order.
pub struct StoreView {
    pub anchors: Seq<CertView>,
    pub crls: Seq<CrlView>,
}

/// The finalized, immutable verification context.  It always holds at
/// least one trust anchor: `TrustStoreBuilder::build` is its only
/// constructor and refuses an anchor-less store.
pub struct TrustStore {
    anchors: Vec<Certificate>,
    crls: Vec<Crl>,
}

impl View for TrustStore {
    type V = StoreView;

    closed spec fn view(&self) -> StoreView {
        StoreView { anchors: self.anchors.deep_view(), crls: self.crls.deep_view() }
    }
}

impl TrustStore {
    #[verifier::type_invariant]
    spec fn inv(self) -> bool {
        self@.anchors.len() > 0
    }

    /// The trust anchors.
    pub fn anchors(&self) -> (r: &Vec<Certificate>)
        ensures
            r.deep_view() == self@.anchors,
    {
        &self.anchors
    }

    /// The collected CRLs.
    pub fn crls(&self) -> (r: &Vec<Crl>)
        ensures
            r.deep_view() == self@.crls,
    {
        &self.crls
    }
}

/// Accumulates anchors and CRLs; `build` finalizes them into a
/// `TrustStore` exactly once, consuming the builder.
pub struct TrustStoreBuilder {
    anchors: Vec<Certificate>,
    crls: Vec<Crl>,
}

impl View for TrustStoreBuilder {
    type V = StoreView;

    closed spec fn view(&self) -> StoreView {
        StoreView { anchors: self.anchors.deep_view(), crls: self.crls.deep_view() }
    }
}

impl TrustStoreBuilder {
    /// Adds a fetched or loaded CRL to the pending set.
    pub fn add_crl(&mut self, crl: Crl)
        ensures
            final(self)@.anchors == old(self)@.anchors,
            final(self)@.crls == old(self)@.crls.push(crl@),
    {
        let ghost prev = self.crls.deep_view();
        self.crls.push(crl);
        proof {
            assert(self.crls.deep_view() =~= prev.push(crl@));
        }
    }

    /// Finalizes the accumulated material.  A builder holding no trust
    /// anchor is refused: verification against an anchor-less store
    /// must fail deterministically rather than accept every chain.
    pub fn build(self) -> (r: Result<TrustStore, Error>)
        ensures
            r is Err <==> self@.anchors.len() == 0,
            r is Err ==> r->Err_0 == Error::NoTrustAnchor,
            r is Ok ==> r->Ok_0@ == self@,
    {
        if self.anchors.len() == 0 {
            Err(Error::NoTrustAnchor)
        } else {
            Ok(TrustStore { anchors: self.anchors, crls: self.crls })
        }
    }
}

/// Builds a trust store builder from encoded material: an optional
/// root anchor, CRL files, and extra certificates trusted as
/// additional anchors.  It succeeds exactly when every supplied input
/// decodes, and each parsed entry keeps the bytes it came from, in
/// order: the root first, then the extras.
pub fn store_setup(root: &Option<Vec<u8>>, crl_files: &Vec<Vec<u8>>, extra_certs: &Vec<Vec<u8>>) -> (r: Result<
    TrustStoreBuilder,
    Error,
>)
    ensures
        r is Ok <==> root_decodes(*root) && all_certs_decode(extra_certs@) && all_crls_decode(
            crl_files@,
        ),
        r is Err ==> r->Err_0 == Error::Decode,
        r is Ok ==> ({
            let b = r->Ok_0@;
            let off: int = if root is Some { 1 } else { 0 };
            &&& b.anchors.len() == off + extra_certs@.len()
            &&& (root is Some ==> b.anchors[0].bytes == root->0@ && cert_wf(b.anchors[0]))
            &&& (forall|i: int| 0 <= i < extra_certs@.len()
                ==> (#[trigger] b.anchors[off + i]).bytes == extra_certs@[i]@
                    && cert_wf(b.anchors[off + i]))
            &&& b.crls.len() == crl_files@.len()
            &&& (forall|i: int| 0 <= i < crl_files@.len()
                ==> (#[trigger] b.crls[i]).bytes == crl_files@[i]@ && crl_wf(b.crls[i]))
        }),
{
    let mut anchors: Vec<Certificate> = Vec::new();
    let mut crls: Vec<Crl> = Vec::new();
    let ghost off: int = if root is Some { 1int } else { 0int };
    match root {
        Some(b) => {
            let c = match parse_certificate(b.as_slice()) {
                Ok(c) => c,
                Err(e) => return Err(e),
            };
            anchors.push(c);
        },
        None => {},
    }
    let mut i: usize = 0;
    while i < extra_certs.len()
        invariant
            0 <= i <= extra_certs@.len(),
            anchors.deep_view().len() == off + i,
            off == (if root is Some { 1int } else { 0int }),
            root_decodes(*root),
            root is Some ==> anchors.deep_view()[0].bytes == root->0@
                && cert_wf(anchors.deep_view()[0]),
            forall|k: int| 0 <= k < i ==> cert_decodes((#[trigger] extra_certs@[k])@),
            forall|k: int| 0 <= k < i
                ==> (#[trigger] anchors.deep_view()[off + k]).bytes == extra_certs@[k]@
                    && cert_wf(anchors.deep_view()[off + k]),
        decreases extra_certs@.len() - i,
    {
        let c = match parse_certificate(extra_certs[i].as_slice()) {
            Ok(c) => c,
            Err(e) => return Err(e),
        };
        let ghost prev = anchors.deep_view();
        anchors.push(c);
        proof {
            assert(anchors.deep_view() =~= prev.push(c@));
        }
        i = i + 1;
    }
    let mut j: usize = 0;
    while j < crl_files.len()
        invariant
            0 <= j <= crl_files@.len(),
            crls.deep_view().len() == j,
            root_decodes(*root),
            all_certs_decode(extra_certs@),
            forall|k: int| 0 <= k < j ==> crl_decodes((#[trigger] crl_files@[k])@),
            forall|k: int| 0 <= k < j
                ==> (#[trigger] crls.deep_view()[k]).bytes == crl_files@[k]@
                    && crl_wf(crls.deep_view()[k]),
        decreases crl_files@.len() - j,
    {
        let c = match parse_crl(crl_files[j].as_slice()) {
            Ok(c) => c,
            Err(e) => return Err(e),
        };
        let ghost prev = crls.deep_view();
        crls.push(c);
        proof {
            assert(crls.deep_view() =~= prev.push(c@));
        }
        j = j + 1;
    }
    Ok(TrustStoreBuilder { anchors, crls })
}

/// Whether `s@` occurs among the strings of `v`.
fn contains_str(v: &Vec<String>, s: &String) -> (r: bool)
    ensures
        r == v.deep_view().contains(s@),
{
    let mut k: usize = 0;
    while k < v.len()
        invariant
            0 <= k <= v@.len(),
            forall|i: int| 0 <= i < k ==> v.deep_view()[i] != s@,
        decreases v@.len() - k,
    {
        if v[k] == *s {
            proof {
                assert(v.deep_view()[k as int] == s@);
            }
            return true;
        }
        k = k + 1;
    }
    proof {
        assert(!v.deep_view().contains(s@));
    }
    false
}

/// Whether none of the certificates declares a CRL distribution
/// point, so that an online store fill has nothing to fetch.
pub open spec fn no_dist_points(certs: Seq<Certificate>) -> bool {
    forall|i: int| 0 <= i < certs.len() ==> (#[trigger] certs[i])@.dist_points.len() == 0
}

/// For each supplied certificate, extracts its CRL distribution
/// points and fetches each URL through the given transport, merging
/// the fetched CRLs into the builder's pending set.  A URL shared by
/// several certificates is fetched once.  Fails fast on the first
/// retrieval or decode error; the anchors, and the CRLs already
/// collected, are kept either way, and everything merged is well
/// formed.  When no supplied certificate declares a distribution
/// point there is nothing to fetch: the call succeeds and the CRLs
/// are unchanged.
pub fn download_crls_into_store<T: Transport>(
    store: &mut TrustStoreBuilder,
    certs: &Vec<Certificate>,
    transport: &T,
) -> (r: Result<(), Error>)
    ensures
        final(store)@.anchors == old(store)@.anchors,
        final(store)@.crls.len() >= old(store)@.crls.len(),
        forall|i: int| 0 <= i < old(store)@.crls.len()
            ==> final(store)@.crls[i] == old(store)@.crls[i],
        forall|i: int| old(store)@.crls.len() <= i < final(store)@.crls.len()
            ==> crl_wf(#[trigger] final(store)@.crls[i]),
        no_dist_points(certs@) ==> r is Ok && final(store)@.crls == old(store)@.crls,
        r is Ok && !no_dist_points(certs@) ==> final(store)@.crls.len() > old(
            store,
        )@.crls.len(),
        r is Err ==> r->Err_0 == Error::Retrieval || r->Err_0 == Error::Decode,
{
    let mut seen: Vec<String> = Vec::new();
    let mut ci: usize = 0;
    while ci < certs.len()
        invariant
            store@.anchors == old(store)@.anchors,
            store@.crls.len() >= old(store)@.crls.len(),
            forall|i: int| 0 <= i < old(store)@.crls.len()
                ==> store@.crls[i] == old(store)@.crls[i],
            forall|i: int| old(store)@.crls.len() <= i < store@.crls.len()
                ==> crl_wf(#[trigger] store@.crls[i]),
            no_dist_points(certs@) ==> store@.crls == old(store)@.crls,
            (exists|i: int| 0 <= i < ci && (#[trigger] certs@[i])@.dist_points.len() > 0)
                ==> seen@.len() > 0,
            seen@.len() > 0 ==> store@.crls.len() > old(store)@.crls.len(),
        decreases certs@.len() - ci,
    {
        let points = x509_dist_points(&certs[ci]);
        let mut pi: usize = 0;
        while pi < points.len()
            invariant
                ci < certs@.len(),
                pi <= points@.len(),
                points.deep_view() == certs@[ci as int]@.dist_points,
                store@.anchors == old(store)@.anchors,
                store@.crls.len() >= old(store)@.crls.len(),
                forall|i: int| 0 <= i < old(store)@.crls.len()
                    ==> store@.crls[i] == old(store)@.crls[i],
                forall|i: int| old(store)@.crls.len() <= i < store@.crls.len()
                    ==> crl_wf(#[trigger] store@.crls[i]),
                no_dist_points(certs@) ==> store@.crls == old(store)@.crls,
                ((exists|i: int| 0 <= i < ci && (#[trigger] certs@[i])@.dist_points.len() > 0)
                    || pi > 0) ==> seen@.len() > 0,
                seen@.len() > 0 ==> store@.crls.len() > old(store)@.crls.len(),
            decreases points@.len() - pi,
        {
            let url = &points[pi];
            if !contains_str(&seen, url) {
                seen.push(url.clone());
                let crl = match fetch_crl(transport, url.as_str()) {
                    Ok(crl) => crl,
                    Err(e) => return Err(e),
                };
                store.add_crl(crl);
            }
            pi = pi + 1;
        }
        ci = ci + 1;
    }
    Ok(())
}

} // verus!
