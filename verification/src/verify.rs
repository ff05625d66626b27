//! The verification facade: a built trust store, a cached
//! intermediate stack and the offline/online mode flag, exposing a
//! single `verify` operation.

use vstd::prelude::*;
use crate::Error;
use crate::chain::{to_error, verdict};
use crate::codec::{Certificate, CertView, all_certs_decode, all_crls_decode, cert_decodes, cert_dist_points_of, cert_wf, crl_wf, no_input_dist_points, parse_certificate, root_decodes};
use crate::helper::{StoreView, TrustStore, download_crls_into_store, no_dist_points, store_setup};
use crate::retrieve::Transport;

verus! {

/// Mathematical model of a verifier: the store it was built with, the
/// cached intermediate stack, and the mode flag.
pub struct VerifierView {
    pub store: StoreView,
    pub inters: Seq<CertView>,
    pub offline: bool,
}

/// Long-lived verifier.  Constructed once; `verify` never re-fetches
/// or rebuilds, and is read-only over the verifier's state.
pub struct CertVerifier {
    store: TrustStore,
    inters: Vec<Certificate>,
    offline: bool,
}

impl View for CertVerifier {
    type V = VerifierView;

    closed spec fn view(&self) -> VerifierView {
        VerifierView {
            store: self.store@,
            inters: self.inters.deep_view(),
            offline: self.offline,
        }
    }
}

impl CertVerifier {
    /// Builds a verifier from encoded material: the untrusted
    /// intermediate certificates, CRL files, and the root anchor.
    /// In online mode (`offline` false) the CRLs declared by the
    /// intermediates' distribution points are additionally fetched
    /// through the given transport, once per distinct URL, and any
    /// fetch failure aborts construction.  A missing root leaves the
    /// store without an anchor and construction fails.  An input that
    /// does not decode fails construction with a decode error before
    /// anything is fetched; in offline mode, decoding inputs and a
    /// present root are exactly what success takes, and online
    /// construction over certificates that declare no distribution
    /// point has nothing to fetch and succeeds on the same terms.
    pub fn new<T: Transport>(
        certs: &Vec<Vec<u8>>,
        crls: &Vec<Vec<u8>>,
        root: &Option<Vec<u8>>,
        offline: bool,
        transport: &T,
    ) -> (r: Result<CertVerifier, Error>)
        ensures
            root is None ==> r is Err,
            !(root_decodes(*root) && all_certs_decode(certs@) && all_crls_decode(crls@))
                ==> r == Err::<CertVerifier, Error>(Error::Decode),
            offline && root_decodes(*root) && all_certs_decode(certs@) && all_crls_decode(
                crls@,
            ) ==> (r is Ok <==> root is Some),
            offline && root is None && all_certs_decode(certs@) && all_crls_decode(crls@)
                ==> r == Err::<CertVerifier, Error>(Error::NoTrustAnchor),
            !offline && root is Some && root_decodes(*root) && all_certs_decode(certs@)
                && all_crls_decode(crls@) && no_input_dist_points(certs@) ==> r is Ok,
            r is Err ==> r->Err_0 == Error::Decode || r->Err_0 == Error::Retrieval
                || r->Err_0 == Error::NoTrustAnchor,
            r is Ok ==> ({
                let v = r->Ok_0@;
                &&& v.offline == offline
                &&& v.inters.len() == certs@.len()
                &&& (forall|i: int| 0 <= i < certs@.len()
                    ==> (#[trigger] v.inters[i]).bytes == certs@[i]@ && cert_wf(v.inters[i]))
                &&& root is Some
                &&& v.store.anchors.len() == 1
                &&& v.store.anchors[0].bytes == root->0@
                &&& cert_wf(v.store.anchors[0])
                &&& v.store.crls.len() >= crls@.len()
                &&& (forall|i: int| 0 <= i < crls@.len()
                    ==> (#[trigger] v.store.crls[i]).bytes == crls@[i]@ && crl_wf(
                        v.store.crls[i],
                    ))
                &&& (forall|i: int| crls@.len() <= i < v.store.crls.len()
                    ==> crl_wf(#[trigger] v.store.crls[i]))
                &&& (offline ==> v.store.crls.len() == crls@.len())
            }),
    {
        let mut inters: Vec<Certificate> = Vec::new();
        let mut i: usize = 0;
        while i < certs.len()
            invariant
                0 <= i <= certs@.len(),
                inters.deep_view().len() == i,
                forall|k: int| 0 <= k < i ==> cert_decodes((#[trigger] certs@[k])@),
                forall|k: int| 0 <= k < i
                    ==> (#[trigger] inters.deep_view()[k]).bytes == certs@[k]@ && cert_wf(
                        inters.deep_view()[k],
                    ),
            decreases certs@.len() - i,
        {
            let c = match parse_certificate(certs[i].as_slice()) {
                Ok(c) => c,
                Err(e) => return Err(e),
            };
            let ghost prev = inters.deep_view();
            inters.push(c);
            proof {
                assert(inters.deep_view() =~= prev.push(c@));
            }
            i = i + 1;
        }
        proof {
            if no_input_dist_points(certs@) {
                assert forall|k: int| 0 <= k < inters@.len() implies (
                #[trigger] inters@[k])@.dist_points.len() == 0 by {
                    assert(inters.deep_view()[k] == inters@[k]@);
                    assert(cert_dist_points_of(certs@[k]@).len() == 0);
                }
                assert(no_dist_points(inters@));
            }
        }
        let empty: Vec<Vec<u8>> = Vec::new();
        let mut builder = match store_setup(root, crls, &empty) {
            Ok(b) => b,
            Err(e) => return Err(e),
        };
        if !offline {
            match download_crls_into_store(&mut builder, &inters, transport) {
                Ok(()) => {},
                Err(e) => return Err(e),
            }
        }
        let store = match builder.build() {
            Ok(s) => s,
            Err(e) => return Err(e),
        };
        Ok(CertVerifier { store, inters, offline })
    }

    /// Whether the verifier was built in offline mode.
    pub fn is_offline(&self) -> (r: bool)
        ensures
            r == self@.offline,
    {
        self.offline
    }

    /// Verifies the host key document `leaf` at the given instant:
    /// the chain verdict against the stored anchors, intermediates
    /// and CRLs, lifted into the library's error type.
    pub fn verify_at(&self, leaf: &Certificate, now: i64) -> (r: Result<(), Error>)
        ensures
            r == to_error(
                verdict(
                    self@.store.anchors,
                    self@.inters,
                    self@.store.crls,
                    leaf@,
                    now as int,
                    self@.inters.len() as nat,
                ),
            ),
    {
        let rr = crate::chain::verdict_exec(
            self.store.anchors(),
            &self.inters,
            self.store.crls(),
            leaf,
            now,
            self.inters.len(),
        );
        match rr {
            Ok(()) => Ok(()),
            Err(k) => Err(Error::HkdVerify(k)),
        }
    }

    /// Verifies the host key document `leaf` at the current instant.
    pub fn verify(&self, leaf: &Certificate) -> (r: Result<(), Error>)
        ensures
            exists|t: int|
                0 <= t && r == to_error(
                    verdict(
                        self@.store.anchors,
                        self@.inters,
                        self@.store.crls,
                        leaf@,
                        t,
                        self@.inters.len() as nat,
                    ),
                ),
    {
        let now = crate::clock::now_unix();
        let r = self.verify_at(leaf, now);
        proof {
            let t = now as int;
            assert(0 <= t && r == to_error(
                verdict(
                    self@.store.anchors,
                    self@.inters,
                    self@.store.crls,
                    leaf@,
                    t,
                    self@.inters.len() as nat,
                ),
            ));
        }
        r
    }
}

} // verus!
