//! Chain verification: path discovery from a leaf through untrusted
//! intermediates to a trust anchor, with validity-window and
//! revocation checking, classified into the error taxonomy.
//!
//! Two deliberate limits of the model, to be read before relying on
//! it.  Names are matched by exact equality of their DER encodings: a
//! certificate whose issuer names the same authority under another
//! encoding is not linked, a conservative choice that can reject but
//! never wrongly accept.  And issuer eligibility is name match plus
//! signature validation alone: the basic-constraints CA bit is not
//! modeled, because the X.509 bindings relied on expose no reader for
//! it, so a chain signed through a non-CA certificate is not
//! rejected on that ground.  CRLs are applied by issuer-name match;
//! their own signatures are not verified.

use vstd::prelude::*;
use vstd::std_specs::cmp::PartialEqSpec;
use crate::{Error, HkdVerifyErrorType};
use crate::codec::{Certificate, CertView, Crl, CrlView, sig_verifies};
use crate::helper::TrustStore;

verus! {

// ---------------------------------------------------------------------
// The verification model.
// ---------------------------------------------------------------------

/// The verification instant lies inside the certificate's window.
pub open spec fn time_ok(c: CertView, now: int) -> bool {
    c.not_before <= now && now <= c.not_after
}

/// `parent` is the claimed issuer of `child` and `child`'s signature
/// validates against `parent`'s key.
pub open spec fn links(child: CertView, parent: CertView) -> bool {
    child.issuer == parent.subject && sig_verifies(child.bytes, parent.bytes)
}

/// The CRL applies to the certificate: it names the same issuer, by
/// exact DER equality.  The CRL's own signature is not checked.
pub open spec fn crl_matches(r: CrlView, c: CertView) -> bool {
    r.issuer == c.issuer
}

/// The CRL is past its declared next update.
pub open spec fn crl_stale(r: CrlView, now: int) -> bool {
    r.next_update is Some && r.next_update->0 < now
}

/// The CRL lists the certificate's serial number.
pub open spec fn crl_lists(r: CrlView, c: CertView) -> bool {
    r.revoked.contains(c.serial)
}

/// Some current (non-stale) CRL of the certificate's issuer lists its
/// serial number.
pub open spec fn revoked_in(crls: Seq<CrlView>, c: CertView, now: int) -> bool {
    exists|i: int|
        0 <= i < crls.len() && crl_matches(#[trigger] crls[i], c) && !crl_stale(crls[i], now)
            && crl_lists(crls[i], c)
}

/// Some CRL of the certificate's issuer is present.
pub open spec fn has_matching_crl(crls: Seq<CrlView>, c: CertView) -> bool {
    exists|i: int| 0 <= i < crls.len() && crl_matches(#[trigger] crls[i], c)
}

/// Some current (non-stale) CRL of the certificate's issuer is present.
pub open spec fn fresh_matching_crl(crls: Seq<CrlView>, c: CertView, now: int) -> bool {
    exists|i: int|
        0 <= i < crls.len() && crl_matches(#[trigger] crls[i], c) && !crl_stale(crls[i], now)
}

/// Revocation data for the certificate's issuer exists but every
/// piece of it is stale: the revocation state cannot be trusted.
pub open spec fn stale_coverage(crls: Seq<CrlView>, c: CertView, now: int) -> bool {
    has_matching_crl(crls, c) && !fresh_matching_crl(crls, c, now)
}

/// The per-certificate checks: inside the validity window, not
/// revoked by a current CRL, and not covered only by stale CRLs.
/// A certificate whose issuer has no CRL at all passes revocation:
/// gathering the CRLs is the store construction's responsibility.
pub open spec fn cert_status_ok(crls: Seq<CrlView>, c: CertView, now: int) -> bool {
    time_ok(c, now) && !revoked_in(crls, c, now) && !stale_coverage(crls, c, now)
}

/// The certificate links directly to some trust anchor.  Anchors are
/// unconditionally trusted and get no checks of their own.
pub open spec fn anchor_linked(anchors: Seq<CertView>, c: CertView) -> bool {
    exists|i: int| 0 <= i < anchors.len() && links(c, #[trigger] anchors[i])
}

/// A valid path exists from `c` to some trust anchor: `c` passes its
/// own checks and either links to an anchor, or links to some
/// intermediate from which a valid path exists.  `fuel` bounds the
/// path length by the size of the intermediate set.
pub open spec fn path_ok(
    anchors: Seq<CertView>,
    inters: Seq<CertView>,
    crls: Seq<CrlView>,
    c: CertView,
    now: int,
    fuel: nat,
) -> bool
    decreases fuel,
{
    cert_status_ok(crls, c, now) && (anchor_linked(anchors, c) || (fuel > 0 && exists|i: int|
        0 <= i < inters.len() && links(c, #[trigger] inters[i])
            && path_ok(anchors, inters, crls, inters[i], now, (fuel - 1) as nat)))
}

/// The verdict on one certificate, classified in the order the checks
/// are made: validity window first, then revocation, then path
/// discovery.  A certificate whose claimed issuer is matched by no
/// candidate, or matched only by name with a signature that does not
/// validate, fails with `IssuerMismatch`; `PathNotFound` arises when
/// the path length bound is exhausted.
pub open spec fn verdict(
    anchors: Seq<CertView>,
    inters: Seq<CertView>,
    crls: Seq<CrlView>,
    c: CertView,
    now: int,
    fuel: nat,
) -> Result<(), HkdVerifyErrorType>
    decreases fuel, 0int, 0int,
{
    if now < c.not_before {
        Err(HkdVerifyErrorType::BeforeValidity)
    } else if c.not_after < now {
        Err(HkdVerifyErrorType::AfterValidity)
    } else if revoked_in(crls, c, now) {
        Err(HkdVerifyErrorType::HdkRevoked)
    } else if stale_coverage(crls, c, now) {
        Err(HkdVerifyErrorType::StaleCrl)
    } else if anchor_linked(anchors, c) {
        Ok(())
    } else if fuel == 0 {
        Err(HkdVerifyErrorType::PathNotFound)
    } else {
        candidates_verdict(anchors, inters, crls, c, now, (fuel - 1) as nat, 0)
    }
}

/// Tries every intermediate from index `j` on as the issuer of `c`,
/// succeeding if any linked candidate verifies with `f` fuel left.
/// If none links, the issuer is mismatched; otherwise the verdict of
/// the first linked candidate is reported.
pub open spec fn candidates_verdict(
    anchors: Seq<CertView>,
    inters: Seq<CertView>,
    crls: Seq<CrlView>,
    c: CertView,
    now: int,
    f: nat,
    j: int,
) -> Result<(), HkdVerifyErrorType>
    decreases f, 1int, inters.len() - j,
{
    if j < 0 || j >= inters.len() {
        Err(HkdVerifyErrorType::IssuerMismatch)
    } else if links(c, inters[j]) {
        let r = verdict(anchors, inters, crls, inters[j], now, f);
        if r is Ok {
            Ok(())
        } else {
            let rest = candidates_verdict(anchors, inters, crls, c, now, f, j + 1);
            if rest is Ok {
                Ok(())
            } else {
                r
            }
        }
    } else {
        candidates_verdict(anchors, inters, crls, c, now, f, j + 1)
    }
}

/// The verdict on a whole leaf chain: the verdict of the first
/// failing element, success when every element verifies.
pub open spec fn chain_verdict(
    anchors: Seq<CertView>,
    inters: Seq<CertView>,
    crls: Seq<CrlView>,
    chain: Seq<CertView>,
    now: int,
    fuel: nat,
) -> Result<(), HkdVerifyErrorType>
    decreases chain.len(),
{
    if chain.len() == 0 {
        Ok(())
    } else {
        let r = verdict(anchors, inters, crls, chain[0], now, fuel);
        if r is Err {
            r
        } else {
            chain_verdict(anchors, inters, crls, chain.drop_first(), now, fuel)
        }
    }
}

/// Lifts a chain verdict into the library's error type.
pub open spec fn to_error(r: Result<(), HkdVerifyErrorType>) -> Result<(), Error> {
    match r {
        Ok(()) => Ok(()),
        Err(k) => Err(Error::HkdVerify(k)),
    }
}

// ---------------------------------------------------------------------
// The verified engine.
// ---------------------------------------------------------------------

/// Byte-vector equality, reflected into the model.
fn bytes_eq(a: &Vec<u8>, b: &Vec<u8>) -> (r: bool)
    ensures
        r == (a@ == b@),
{
    let r = a == b;
    proof {
        if r {
            assert(a@ =~= b@);
        } else {
            if a@ == b@ {
                assert(a.eq_spec(b));
            }
        }
    }
    r
}

/// Whether `serial@` occurs among the revoked serial numbers.
fn contains_serial(revoked: &Vec<Vec<u8>>, serial: &Vec<u8>) -> (r: bool)
    ensures
        r == revoked.deep_view().contains(serial@),
{
    let mut k: usize = 0;
    while k < revoked.len()
        invariant
            0 <= k <= revoked@.len(),
            forall|i: int| 0 <= i < k ==> revoked.deep_view()[i] != serial@,
        decreases revoked@.len() - k,
    {
        let hit = bytes_eq(&revoked[k], serial);
        proof {
            assert(revoked.deep_view()[k as int] =~= revoked@[k as int]@);
        }
        if hit {
            return true;
        }
        k = k + 1;
    }
    proof {
        assert(!revoked.deep_view().contains(serial@));
    }
    false
}

/// One pass over the CRLs, computing the three revocation facts about
/// `c`: whether a matching CRL exists, whether a current matching CRL
/// exists, and whether a current matching CRL lists `c`'s serial.
fn crl_status(crls: &Vec<Crl>, c: &Certificate, now: i64) -> (r: (bool, bool, bool))
    ensures
        r.0 == has_matching_crl(crls.deep_view(), c@),
        r.1 == fresh_matching_crl(crls.deep_view(), c@, now as int),
        r.2 == revoked_in(crls.deep_view(), c@, now as int),
{
    let mut has_m = false;
    let mut has_fresh = false;
    let mut rev = false;
    let mut k: usize = 0;
    while k < crls.len()
        invariant
            0 <= k <= crls@.len(),
            has_m == (exists|i: int|
                0 <= i < k && crl_matches(#[trigger] crls.deep_view()[i], c@)),
            has_fresh == (exists|i: int|
                0 <= i < k && crl_matches(#[trigger] crls.deep_view()[i], c@)
                    && !crl_stale(crls.deep_view()[i], now as int)),
            rev == (exists|i: int|
                0 <= i < k && crl_matches(#[trigger] crls.deep_view()[i], c@)
                    && !crl_stale(crls.deep_view()[i], now as int)
                    && crl_lists(crls.deep_view()[i], c@)),
        decreases crls@.len() - k,
    {
        let entry = &crls[k];
        if bytes_eq(entry.issuer_der(), c.issuer_der()) {
            has_m = true;
            let stale = match entry.next_update() {
                Some(nu) => nu < now,
                None => false,
            };
            if !stale {
                has_fresh = true;
                if contains_serial(entry.revoked_serials(), c.serial_bytes()) {
                    rev = true;
                }
            }
            proof {
                assert(crl_matches(crls.deep_view()[k as int], c@));
            }
        }
        k = k + 1;
    }
    (has_m, has_fresh, rev)
}

/// Whether `c` links directly to some trust anchor.
fn anchor_linked_exec(anchors: &Vec<Certificate>, c: &Certificate) -> (r: bool)
    ensures
        r == anchor_linked(anchors.deep_view(), c@),
{
    let mut k: usize = 0;
    while k < anchors.len()
        invariant
            0 <= k <= anchors@.len(),
            forall|i: int| 0 <= i < k ==> !links(c@, #[trigger] anchors.deep_view()[i]),
        decreases anchors@.len() - k,
    {
        let a = &anchors[k];
        if bytes_eq(c.issuer_der(), a.subject_der()) {
            if crate::codec::signed_by(c, a) {
                proof {
                    assert(links(c@, anchors.deep_view()[k as int]));
                }
                return true;
            }
        }
        k = k + 1;
    }
    false
}

/// The verdict on one certificate, mirroring `verdict` exactly.
pub(crate) fn verdict_exec(
    anchors: &Vec<Certificate>,
    inters: &Vec<Certificate>,
    crls: &Vec<Crl>,
    c: &Certificate,
    now: i64,
    fuel: usize,
) -> (r: Result<(), HkdVerifyErrorType>)
    ensures
        r == verdict(
            anchors.deep_view(),
            inters.deep_view(),
            crls.deep_view(),
            c@,
            now as int,
            fuel as nat,
        ),
    decreases fuel, 0int, 0int,
{
    if now < c.not_before() {
        return Err(HkdVerifyErrorType::BeforeValidity);
    }
    if c.not_after() < now {
        return Err(HkdVerifyErrorType::AfterValidity);
    }
    let (has_m, has_fresh, rev) = crl_status(crls, c, now);
    if rev {
        return Err(HkdVerifyErrorType::HdkRevoked);
    }
    if has_m && !has_fresh {
        return Err(HkdVerifyErrorType::StaleCrl);
    }
    if anchor_linked_exec(anchors, c) {
        return Ok(());
    }
    if fuel == 0 {
        return Err(HkdVerifyErrorType::PathNotFound);
    }
    candidates_exec(anchors, inters, crls, c, now, fuel - 1, 0)
}

/// Tries every intermediate from index `j` on, mirroring
/// `candidates_verdict` exactly.
fn candidates_exec(
    anchors: &Vec<Certificate>,
    inters: &Vec<Certificate>,
    crls: &Vec<Crl>,
    c: &Certificate,
    now: i64,
    f: usize,
    j: usize,
) -> (r: Result<(), HkdVerifyErrorType>)
    ensures
        r == candidates_verdict(
            anchors.deep_view(),
            inters.deep_view(),
            crls.deep_view(),
            c@,
            now as int,
            f as nat,
            j as int,
        ),
    decreases f, 1int, inters@.len() - j,
{
    if j >= inters.len() {
        return Err(HkdVerifyErrorType::IssuerMismatch);
    }
    let cand = &inters[j];
    let linked = bytes_eq(c.issuer_der(), cand.subject_der()) && crate::codec::signed_by(
        c,
        cand,
    );
    proof {
        assert(linked == links(c@, inters.deep_view()[j as int]));
    }
    if linked {
        let r = verdict_exec(anchors, inters, crls, cand, now, f);
        if r.is_ok() {
            return Ok(());
        }
        let rest = candidates_exec(anchors, inters, crls, c, now, f, j + 1);
        if rest.is_ok() {
            return Ok(());
        }
        r
    } else {
        candidates_exec(anchors, inters, crls, c, now, f, j + 1)
    }
}

/// Verifies each certificate of `leaf_chain` against the store at the
/// given instant: path discovery through `intermediates` up to a
/// trust anchor, with validity and revocation checks along the way.
pub fn verify_chain_at(
    store: &TrustStore,
    intermediates: &Vec<Certificate>,
    leaf_chain: &[Certificate],
    now: i64,
) -> (r: Result<(), Error>)
    ensures
        r == to_error(
            chain_verdict(
                store@.anchors,
                intermediates.deep_view(),
                store@.crls,
                leaf_chain.deep_view(),
                now as int,
                intermediates@.len() as nat,
            ),
        ),
{
    let anchors = store.anchors();
    let crls = store.crls();
    let fuel = intermediates.len();
    let ghost whole = leaf_chain.deep_view();
    proof {
        assert(whole.skip(0) =~= whole);
    }
    let mut i: usize = 0;
    while i < leaf_chain.len()
        invariant
            0 <= i <= leaf_chain@.len(),
            whole == leaf_chain.deep_view(),
            fuel == intermediates@.len(),
            anchors.deep_view() == store@.anchors,
            crls.deep_view() == store@.crls,
            chain_verdict(
                store@.anchors,
                intermediates.deep_view(),
                store@.crls,
                whole.skip(i as int),
                now as int,
                fuel as nat,
            ) == chain_verdict(
                store@.anchors,
                intermediates.deep_view(),
                store@.crls,
                whole,
                now as int,
                fuel as nat,
            ),
        decreases leaf_chain@.len() - i,
    {
        let r = verdict_exec(anchors, intermediates, crls, &leaf_chain[i], now, fuel);
        proof {
            assert(whole.skip(i as int)[0] == whole[i as int]);
        }
        if let Err(k) = r {
            return Err(Error::HkdVerify(k));
        }
        proof {
            assert(whole.skip(i as int).drop_first() =~= whole.skip(i as int + 1));
        }
        i = i + 1;
    }
    proof {
        assert(whole.skip(leaf_chain@.len() as int).len() == 0);
    }
    Ok(())
}

/// Verifies each certificate of `leaf_chain` against the store at the
/// current instant.
pub fn verify_chain(
    store: &TrustStore,
    intermediates: &Vec<Certificate>,
    leaf_chain: &[Certificate],
) -> (r: Result<(), Error>)
    ensures
        exists|t: int|
            0 <= t && r == to_error(
                chain_verdict(
                    store@.anchors,
                    intermediates.deep_view(),
                    store@.crls,
                    leaf_chain.deep_view(),
                    t,
                    intermediates@.len() as nat,
                ),
            ),
{
    let now = crate::clock::now_unix();
    let r = verify_chain_at(store, intermediates, leaf_chain, now);
    proof {
        let t = now as int;
        assert(0 <= t && r == to_error(
            chain_verdict(
                store@.anchors,
                intermediates.deep_view(),
                store@.crls,
                leaf_chain.deep_view(),
                t,
                intermediates@.len() as nat,
            ),
        ));
    }
    r
}

} // verus!
