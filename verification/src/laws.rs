//! The library's stated laws: what the chain verdict guarantees, for
//! every store, intermediate stack, leaf and instant.

use vstd::prelude::*;
use crate::HkdVerifyErrorType;
use crate::codec::{CertView, CrlView, cert_wf, crl_wf};
use crate::chain::{
    anchor_linked, candidates_verdict, cert_status_ok, chain_verdict, links, path_ok,
    revoked_in, time_ok, verdict,
};

verus! {

/// A linked candidate from index `j` on verifies exactly when the
/// candidate search from `j` succeeds.
proof fn lemma_candidates_ok_iff(
    anchors: Seq<CertView>,
    inters: Seq<CertView>,
    crls: Seq<CrlView>,
    c: CertView,
    now: int,
    f: nat,
    j: int,
)
    requires
        0 <= j,
    ensures
        candidates_verdict(anchors, inters, crls, c, now, f, j) is Ok <==> exists|i: int|
            j <= i < inters.len() && links(c, #[trigger] inters[i]) && path_ok(
                anchors,
                inters,
                crls,
                inters[i],
                now,
                f,
            ),
    decreases f, 1int, inters.len() - j,
{
    if j >= inters.len() {
    } else {
        lemma_candidates_ok_iff(anchors, inters, crls, c, now, f, j + 1);
        if links(c, inters[j]) {
            lemma_verdict_ok_iff_path(anchors, inters, crls, inters[j], now, f);
        }
    }
}

/// The verdict succeeds exactly when a valid path exists: the leaf
/// passes its own checks and a signature-linked path through the
/// intermediates reaches a trust anchor, every certificate on it
/// inside its validity window and none revoked.
pub proof fn lemma_verdict_ok_iff_path(
    anchors: Seq<CertView>,
    inters: Seq<CertView>,
    crls: Seq<CrlView>,
    c: CertView,
    now: int,
    fuel: nat,
)
    ensures
        verdict(anchors, inters, crls, c, now, fuel) is Ok <==> path_ok(
            anchors,
            inters,
            crls,
            c,
            now,
            fuel,
        ),
    decreases fuel, 0int, 0int,
{
    if now < c.not_before || c.not_after < now || revoked_in(crls, c, now) {
    } else if fuel > 0 && !anchor_linked(anchors, c) {
        lemma_candidates_ok_iff(anchors, inters, crls, c, now, (fuel - 1) as nat, 0);
    }
}

/// A leaf chain verifies exactly when every certificate in it does.
pub proof fn lemma_chain_ok_iff_each(
    anchors: Seq<CertView>,
    inters: Seq<CertView>,
    crls: Seq<CrlView>,
    chain: Seq<CertView>,
    now: int,
    fuel: nat,
)
    ensures
        chain_verdict(anchors, inters, crls, chain, now, fuel) is Ok <==> forall|i: int|
            0 <= i < chain.len() ==> verdict(
                anchors,
                inters,
                crls,
                #[trigger] chain[i],
                now,
                fuel,
            ) is Ok,
    decreases chain.len(),
{
    if chain.len() > 0 {
        lemma_chain_ok_iff_each(anchors, inters, crls, chain.drop_first(), now, fuel);
        assert forall|i: int| 0 < i < chain.len() implies chain.drop_first()[i - 1] == chain[i] by {}
    }
}

/// A leaf inside its validity window whose serial number is listed in
/// an applicable, current CRL is reported revoked, whatever the rest
/// of the chain looks like.
pub proof fn lemma_revoked_is_reported(
    anchors: Seq<CertView>,
    inters: Seq<CertView>,
    crls: Seq<CrlView>,
    c: CertView,
    now: int,
    fuel: nat,
)
    requires
        time_ok(c, now),
        revoked_in(crls, c, now),
    ensures
        verdict(anchors, inters, crls, c, now, fuel) == Err::<(), _>(
            HkdVerifyErrorType::HdkRevoked,
        ),
{
}

/// A leaf whose claimed issuer is matched by no candidate — by name,
/// or matched by name only with a signature that does not validate —
/// fails with an issuer mismatch.  Revocation is classified first, so
/// a wrong-signed leaf that is also revoked by a current CRL reports
/// the revocation; hence the status hypothesis.
pub proof fn lemma_wrong_signer_is_mismatch(
    anchors: Seq<CertView>,
    inters: Seq<CertView>,
    crls: Seq<CrlView>,
    c: CertView,
    now: int,
    fuel: nat,
)
    requires
        cert_status_ok(crls, c, now),
        forall|i: int| 0 <= i < anchors.len() ==> !links(c, #[trigger] anchors[i]),
        forall|i: int| 0 <= i < inters.len() ==> !links(c, #[trigger] inters[i]),
        fuel > 0,
    ensures
        verdict(anchors, inters, crls, c, now, fuel) == Err::<(), _>(
            HkdVerifyErrorType::IssuerMismatch,
        ),
{
    lemma_candidates_no_link(anchors, inters, crls, c, now, (fuel - 1) as nat, 0);
}

/// The candidate search over candidates none of which links reports
/// an issuer mismatch.
proof fn lemma_candidates_no_link(
    anchors: Seq<CertView>,
    inters: Seq<CertView>,
    crls: Seq<CrlView>,
    c: CertView,
    now: int,
    f: nat,
    j: int,
)
    requires
        0 <= j,
        forall|i: int| 0 <= i < inters.len() ==> !links(c, #[trigger] inters[i]),
    ensures
        candidates_verdict(anchors, inters, crls, c, now, f, j) == Err::<(), _>(
            HkdVerifyErrorType::IssuerMismatch,
        ),
    decreases inters.len() - j,
{
    if j < inters.len() {
        lemma_candidates_no_link(anchors, inters, crls, c, now, f, j + 1);
    }
}

/// A leaf whose validity window does not contain the verification
/// instant fails with the matching validity error.
pub proof fn lemma_outside_window(
    anchors: Seq<CertView>,
    inters: Seq<CertView>,
    crls: Seq<CrlView>,
    c: CertView,
    now: int,
    fuel: nat,
)
    requires
        !time_ok(c, now),
    ensures
        now < c.not_before ==> verdict(anchors, inters, crls, c, now, fuel) == Err::<(), _>(
            HkdVerifyErrorType::BeforeValidity,
        ),
        now >= c.not_before ==> verdict(anchors, inters, crls, c, now, fuel) == Err::<(), _>(
            HkdVerifyErrorType::AfterValidity,
        ),
{
}

/// Without a trust anchor no path exists, whatever the leaf, the
/// intermediates and the CRLs.
pub proof fn lemma_no_anchor_no_path(
    anchors: Seq<CertView>,
    inters: Seq<CertView>,
    crls: Seq<CrlView>,
    c: CertView,
    now: int,
    fuel: nat,
)
    requires
        anchors.len() == 0,
    ensures
        !path_ok(anchors, inters, crls, c, now, fuel),
    decreases fuel,
{
    if fuel > 0 {
        assert forall|i: int| 0 <= i < inters.len() implies !path_ok(
            anchors,
            inters,
            crls,
            #[trigger] inters[i],
            now,
            (fuel - 1) as nat,
        ) by {
            lemma_no_anchor_no_path(anchors, inters, crls, inters[i], now, (fuel - 1) as nat);
        }
    }
}

/// Verification against an anchor-less store never succeeds: it fails
/// deterministically rather than accepting a chain.
pub proof fn lemma_no_anchor_never_ok(
    anchors: Seq<CertView>,
    inters: Seq<CertView>,
    crls: Seq<CrlView>,
    c: CertView,
    now: int,
    fuel: nat,
)
    requires
        anchors.len() == 0,
    ensures
        verdict(anchors, inters, crls, c, now, fuel) is Err,
{
    lemma_verdict_ok_iff_path(anchors, inters, crls, c, now, fuel);
    lemma_no_anchor_no_path(anchors, inters, crls, c, now, fuel);
}

/// Distribution-point extraction is pure: two well-formed
/// certificates parsed from the same bytes carry the same ordered URL
/// sequence.
pub proof fn lemma_dist_points_pure(a: CertView, b: CertView)
    requires
        cert_wf(a),
        cert_wf(b),
        a.bytes == b.bytes,
    ensures
        a.dist_points == b.dist_points,
{
}

/// CRL decoding is pure: two well-formed CRLs parsed from the same
/// bytes are equal in the model, however their bytes were obtained —
/// read from a file or fetched from a distribution point.
pub proof fn lemma_crl_source_independent(a: CrlView, b: CrlView)
    requires
        crl_wf(a),
        crl_wf(b),
        a.bytes == b.bytes,
    ensures
        a == b,
{
}

/// Offline and online modes agree: stores whose CRLs come from equal
/// bytes, in the same order and with the same anchors, give every
/// leaf the same verdict — the verdict depends on the CRL content,
/// not on how it was obtained.
pub proof fn lemma_modes_agree(
    anchors: Seq<CertView>,
    inters: Seq<CertView>,
    crls_file: Seq<CrlView>,
    crls_fetched: Seq<CrlView>,
    c: CertView,
    now: int,
    fuel: nat,
)
    requires
        crls_file.len() == crls_fetched.len(),
        forall|i: int| 0 <= i < crls_file.len() ==> crl_wf(#[trigger] crls_file[i]),
        forall|i: int| 0 <= i < crls_fetched.len() ==> crl_wf(#[trigger] crls_fetched[i]),
        forall|i: int| 0 <= i < crls_file.len()
            ==> (#[trigger] crls_file[i]).bytes == crls_fetched[i].bytes,
    ensures
        verdict(anchors, inters, crls_file, c, now, fuel) == verdict(
            anchors,
            inters,
            crls_fetched,
            c,
            now,
            fuel,
        ),
{
    assert forall|i: int| 0 <= i < crls_file.len() implies #[trigger] crls_file[i]
        == crls_fetched[i] by {
        lemma_crl_source_independent(crls_file[i], crls_fetched[i]);
    }
    assert(crls_file =~= crls_fetched);
}

} // verus!
