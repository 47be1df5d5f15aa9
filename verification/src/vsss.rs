//! The threshold-sharing primitive: Feldman's verifiable secret sharing over
//! the scalars of NIST P-256, as the `vsss-rs` and `p256` crates provide it.
//!
//! Shares and commitments cross this boundary as plain bytes. A share is its
//! identifier followed by the big-endian value; a commitment is a compressed
//! curve point, and the first commitment of a set is the generator.

use vstd::prelude::*;
use p256::elliptic_curve::group::GroupEncoding;
use p256::elliptic_curve::PrimeField;
use p256::{CompressedPoint, FieldBytes, ProjectivePoint, Scalar};
use rand_core::OsRng;
use vsss_rs::FeldmanVerifierSet;
use crate::policy::{KEY_LEN, SHARE_LEN};

verus! {

/// Length in bytes of one commitment.
pub const POINT_LEN: usize = 33;

/// Whether Feldman verification accepts a share under a set of commitments.
pub uninterp spec fn feldman_accepts(commitments: Seq<Seq<u8>>, share: Seq<u8>) -> bool;

/// The secret that Lagrange interpolation gives for a list of shares, or
/// `None` where the primitive refuses the list.
pub uninterp spec fn shamir_secret(shares: Seq<Seq<u8>>) -> Option<Seq<u8>>;

/// The commitment to a secret: the generator of the curve multiplied by the
/// secret, as a compressed point; `None` where the secret is no scalar.
pub uninterp spec fn commitment_to(secret: Seq<u8>) -> Option<Seq<u8>>;

/// Whether a secret opens a commitment: whether the commitment is the
/// commitment to the secret.
pub open spec fn opens(commitment: Seq<u8>, secret: Seq<u8>) -> bool {
    commitment_to(secret) == Some(commitment)
}

/// Two shares of a list carry the same identifier.
pub open spec fn has_repeated_identifier(shares: Seq<Seq<u8>>) -> bool {
    exists|i: int, j: int|
        0 <= i < j < shares.len() && shares[i].len() > 0 && shares[j].len() > 0
            && #[trigger] shares[i][0] == #[trigger] shares[j][0]
}

/// Every byte string of a list has the given length.
pub open spec fn all_of_length(items: Seq<Seq<u8>>, len: nat) -> bool {
    forall|i: int| 0 <= i < items.len() ==> (#[trigger] items[i]).len() == len
}

/// Calls `vsss_rs::feldman::split_secret` with the default generator and the
/// operating system's random source, after `Scalar::from_repr` has read the
/// secret. Identifiers are single bytes, so no more than 255 shares are
/// asked for. The coefficients are drawn at random, so nothing is promised
/// of the outcome: the caller examines it.
#[verifier::external_body]
pub(crate) fn feldman_split(threshold: usize, limit: usize, secret: &[u8]) -> (r: Option<
    (Vec<Vec<u8>>, Vec<Vec<u8>>),
>)
    requires
        secret@.len() == KEY_LEN,
        threshold <= 255,
        limit <= 255,
{
    let scalar = Option::<Scalar>::from(Scalar::from_repr(FieldBytes::clone_from_slice(secret)))?;
    let (shares, points) = vsss_rs::feldman::split_secret::<ProjectivePoint, u8, Vec<u8>>(
        threshold,
        limit,
        scalar,
        None,
        OsRng,
    ).ok()?;
    Some((shares, points.iter().map(|p| p.to_bytes().to_vec()).collect()))
}

/// Calls `FeldmanVerifierSet::verify_share` on the points that
/// `ProjectivePoint::from_bytes` reads from the commitments; a commitment
/// that is no point makes the answer `false`. The answer depends on the
/// bytes alone.
#[verifier::external_body]
pub(crate) fn feldman_verify(commitments: &Vec<Vec<u8>>, share: &Vec<u8>) -> (r: bool)
    requires
        commitments@.len() >= 2,
        all_of_length(commitments.deep_view(), POINT_LEN as nat),
        share@.len() == SHARE_LEN,
    ensures
        r == feldman_accepts(commitments.deep_view(), share@),
{
    let points: Option<Vec<ProjectivePoint>> = commitments.iter().map(
        |c| Option::from(ProjectivePoint::from_bytes(CompressedPoint::from_slice(c))),
    ).collect();
    match points {
        Some(set) => set.verify_share(share).is_ok(),
        None => false,
    }
}

/// Multiplies `ProjectivePoint::GENERATOR` by the scalar that
/// `Scalar::from_repr` reads from the secret, and writes the product as a
/// compressed point; bytes that are no scalar give `None`. What is
/// returned depends on the bytes alone. The group has prime order and a
/// scalar is read only in its one canonical form, so that multiplication
/// by the generator is one-to-one: no second secret has the commitment of
/// a first.
#[verifier::external_body]
pub(crate) fn commit(secret: &[u8]) -> (r: Option<Vec<u8>>)
    requires
        secret@.len() == KEY_LEN,
    ensures
        match r {
            Some(commitment) => {
                &&& commitment_to(secret@) == Some(commitment@)
                &&& commitment@.len() == POINT_LEN
                &&& forall|other: Seq<u8>|
                    #[trigger] commitment_to(other) == Some(commitment@) ==> other == secret@
            },
            None => commitment_to(secret@) is None,
        },
{
    Option::<Scalar>::from(Scalar::from_repr(FieldBytes::clone_from_slice(secret))).map(
        |s| (ProjectivePoint::GENERATOR * s).to_bytes().to_vec(),
    )
}

/// Calls `vsss_rs::combine_shares` and writes the scalar it returns as
/// big-endian bytes. The crate refuses a list of fewer than two shares and a
/// list in which an identifier occurs twice; what it returns depends on the
/// bytes alone.
#[verifier::external_body]
pub(crate) fn shamir_combine(shares: &Vec<Vec<u8>>) -> (r: Option<Vec<u8>>)
    requires
        all_of_length(shares.deep_view(), SHARE_LEN as nat),
    ensures
        match r {
            Some(secret) => shamir_secret(shares.deep_view()) == Some(secret@) && secret@.len()
                == KEY_LEN,
            None => shamir_secret(shares.deep_view()) is None,
        },
        shares@.len() < 2 ==> r is None,
        has_repeated_identifier(shares.deep_view()) ==> r is None,
{
    vsss_rs::combine_shares::<Scalar, u8, Vec<u8>>(shares).ok().map(|s| s.to_repr().to_vec())
}

} // verus!
