use oks::error::HsmError;
use oks::share::Share;
use oks::sharing::{check_split, combine, recombine, split, SplitError, Verifier};

fn secret() -> Vec<u8> {
    (0u8..32).map(|i| i.wrapping_mul(11).wrapping_add(3)).collect()
}

fn pick(shares: &Vec<Share>, indices: &[usize]) -> Vec<Share> {
    indices.iter().map(|i| shares[*i].duplicate()).collect()
}

#[test]
fn split_gives_the_shares_asked_for() {
    let set = split(&secret(), 5, 3).unwrap();
    assert_eq!(set.limit(), 5);
    assert_eq!(set.threshold(), 3);
    assert_eq!(set.get_verifier().threshold(), 3);
    let ids: Vec<u8> = set.shares().iter().map(|s| s.identifier()).collect();
    assert_eq!(ids, vec![1, 2, 3, 4, 5]);
    assert_eq!(set.get_verifier().to_commitments().len(), 4);
}

#[test]
fn any_three_of_five_shares_rebuild_the_secret() {
    let s = secret();
    let set = split(&s, 5, 3).unwrap();
    let (shares, verifier) = set.into_parts();
    for a in 0..5 {
        for b in (a + 1)..5 {
            for c in (b + 1)..5 {
                let subset = pick(&shares, &[a, b, c]);
                assert_eq!(recombine(&subset, &verifier), Ok(s.clone()));
                let reordered = pick(&shares, &[c, a, b]);
                assert_eq!(recombine(&reordered, &verifier), Ok(s.clone()));
            }
        }
    }
    assert_eq!(recombine(&shares, &verifier), Ok(s.clone()));
    assert_eq!(combine(&shares, 3), Ok(s));
}

#[test]
fn other_thresholds_round_trip() {
    let s = secret();
    let set = split(&s, 2, 2).unwrap();
    assert_eq!(recombine(set.shares(), set.get_verifier()), Ok(s.clone()));
    let set = split(&s, 7, 4).unwrap();
    let subset = pick(set.shares(), &[6, 1, 3, 4]);
    assert_eq!(recombine(&subset, set.get_verifier()), Ok(s.clone()));
    let zero = vec![0u8; 32];
    let set = split(&zero, 3, 2).unwrap();
    let subset = pick(set.shares(), &[0, 2]);
    assert_eq!(recombine(&subset, set.get_verifier()), Ok(zero));
}

#[test]
fn every_share_of_a_split_verifies() {
    let set = split(&secret(), 5, 3).unwrap();
    for share in set.shares() {
        assert!(set.get_verifier().verify(share));
    }
}

#[test]
fn a_flipped_bit_fails_verification() {
    let set = split(&secret(), 5, 3).unwrap();
    let verifier = set.get_verifier();
    for share in set.shares() {
        for byte in [1usize, 16, 32] {
            for bit in [0u8, 7] {
                let mut bytes = share.as_bytes().clone();
                bytes[byte] ^= 1 << bit;
                let forged = Share::try_from_bytes(&bytes).unwrap();
                assert!(!verifier.verify(&forged));
            }
        }
    }
}

#[test]
fn a_share_of_another_split_fails_verification() {
    let first = split(&secret(), 5, 3).unwrap();
    let second = split(&secret(), 5, 3).unwrap();
    for share in second.shares() {
        assert!(!first.get_verifier().verify(share));
    }
}

#[test]
fn too_few_shares_are_insufficient() {
    let set = split(&secret(), 5, 3).unwrap();
    let (shares, verifier) = set.into_parts();
    assert_eq!(
        recombine(&pick(&shares, &[0, 1]), &verifier),
        Err(HsmError::InsufficientShares)
    );
    assert_eq!(
        recombine(&pick(&shares, &[4]), &verifier),
        Err(HsmError::InsufficientShares)
    );
    assert_eq!(recombine(&Vec::new(), &verifier), Err(HsmError::InsufficientShares));
    assert_eq!(combine(&pick(&shares, &[0, 1]), 3), Err(HsmError::InsufficientShares));
}

#[test]
fn a_tampered_share_is_reported() {
    let set = split(&secret(), 5, 3).unwrap();
    let (shares, verifier) = set.into_parts();
    let mut bytes = shares[1].as_bytes().clone();
    bytes[20] ^= 0x40;
    let forged = Share::try_from_bytes(&bytes).unwrap();
    let supplied = vec![shares[0].duplicate(), forged, shares[2].duplicate()];
    assert_eq!(recombine(&supplied, &verifier), Err(HsmError::VerificationFailed));
    let unchecked = combine(&supplied, 3);
    assert!(unchecked.is_err() || unchecked != Ok(secret()));
}

#[test]
fn a_repeated_share_cannot_be_combined() {
    let set = split(&secret(), 5, 3).unwrap();
    let (shares, verifier) = set.into_parts();
    let supplied = pick(&shares, &[0, 1, 0]);
    assert_eq!(recombine(&supplied, &verifier), Err(HsmError::ReconstructionFailed));
    assert_eq!(combine(&supplied, 3), Err(HsmError::ReconstructionFailed));
    assert_eq!(combine(&pick(&shares, &[2]), 1), Err(HsmError::ReconstructionFailed));
}

#[test]
fn split_rejects_bad_arguments() {
    let s = secret();
    assert_eq!(split(&s[..31], 5, 3).err(), Some(SplitError::InvalidSecretLength));
    assert_eq!(split(&[], 5, 3).err(), Some(SplitError::InvalidSecretLength));
    assert_eq!(split(&s, 3, 5).err(), Some(SplitError::InvalidThreshold));
    assert_eq!(split(&s, 5, 1).err(), Some(SplitError::InvalidThreshold));
    assert_eq!(split(&s, 5, 0).err(), Some(SplitError::InvalidThreshold));
    assert_eq!(split(&s, 0, 0).err(), Some(SplitError::InvalidThreshold));
    assert_eq!(split(&[0xff; 32], 5, 3).err(), Some(SplitError::SecretOutOfRange));
    let order: [u8; 32] = [
        0xff, 0xff, 0xff, 0xff, 0x00, 0x00, 0x00, 0x00, 0xff, 0xff, 0xff, 0xff, 0xff, 0xff, 0xff,
        0xff, 0xbc, 0xe6, 0xfa, 0xad, 0xa7, 0x17, 0x9e, 0x84, 0xf3, 0xb9, 0xca, 0xc2, 0xfc, 0x63,
        0x25, 0x51,
    ];
    assert_eq!(split(&order, 5, 3).err(), Some(SplitError::SecretOutOfRange));
    let mut below = order;
    below[31] = 0x50;
    let set = split(&below, 5, 3).unwrap();
    assert_eq!(recombine(set.shares(), set.get_verifier()), Ok(below.to_vec()));
}

#[test]
fn check_split_examines_the_outcome() {
    let s = secret();
    let set = split(&s, 5, 3).unwrap();
    let raw: Vec<Vec<u8>> = set.shares().iter().map(|x| x.as_bytes().clone()).collect();
    let commitments = set.get_verifier().to_commitments();

    let again = check_split(Some((raw.clone(), commitments.clone())), &s, 5, 3).unwrap();
    assert_eq!(again, set);

    assert_eq!(check_split(None, &s, 5, 3).err(), Some(SplitError::Rejected));
    assert_eq!(
        check_split(Some((raw.clone(), commitments.clone())), &s, 5, 4).err(),
        Some(SplitError::Rejected)
    );
    assert_eq!(
        check_split(Some((raw.clone(), commitments.clone())), &s, 4, 3).err(),
        Some(SplitError::Rejected)
    );
    let mut other = s.clone();
    other[0] ^= 1;
    assert_eq!(
        check_split(Some((raw.clone(), commitments.clone())), &other, 5, 3).err(),
        Some(SplitError::Rejected)
    );
    let mut forged = raw.clone();
    forged[4][7] ^= 0x10;
    assert_eq!(
        check_split(Some((forged, commitments.clone())), &s, 5, 3).err(),
        Some(SplitError::Rejected)
    );
    let mut short = raw.clone();
    short[2].pop();
    assert_eq!(
        check_split(Some((short, commitments.clone())), &s, 5, 3).err(),
        Some(SplitError::Rejected)
    );
    let mut no_point = commitments.clone();
    no_point[1] = vec![0x05; 33];
    assert_eq!(
        check_split(Some((raw.clone(), no_point)), &s, 5, 3).err(),
        Some(SplitError::Rejected)
    );
    assert_eq!(
        check_split(Some((raw, commitments)), &s[..30], 5, 3).err(),
        Some(SplitError::InvalidSecretLength)
    );
}

#[test]
fn verifier_is_taken_only_in_shape() {
    let set = split(&secret(), 5, 3).unwrap();
    let commitments = set.get_verifier().to_commitments();
    let again = Verifier::from_commitments(commitments.clone()).unwrap();
    assert_eq!(&again, set.get_verifier());
    assert!(again.verify(&set.shares()[0]));
    assert!(Verifier::from_commitments(Vec::new()).is_none());
    assert!(Verifier::from_commitments(commitments[..2].to_vec()).is_none());
    let mut short = commitments.clone();
    short[3].pop();
    assert!(Verifier::from_commitments(short).is_none());
    let long = vec![vec![0u8; 33]; 257];
    assert!(Verifier::from_commitments(long).is_none());
}

#[test]
fn the_commitments_confirm_the_secret_and_no_other() {
    let s = secret();
    let set = split(&s, 5, 3).unwrap();
    let verifier = set.get_verifier();
    assert!(verifier.confirms(&s));
    let mut other = s.clone();
    other[31] ^= 1;
    assert!(!verifier.confirms(&other));
    let mut high = s.clone();
    high[0] ^= 0x80;
    assert!(!verifier.confirms(&high));
    assert!(!verifier.confirms(&s[..31]));
    assert!(!verifier.confirms(&[]));
    assert!(!verifier.confirms(&[0xff; 32]));
    let again = split(&s, 5, 3).unwrap();
    assert!(again.get_verifier().confirms(&s));
    let zero = vec![0u8; 32];
    let of_zero = split(&zero, 3, 2).unwrap();
    assert!(of_zero.get_verifier().confirms(&zero));
    assert!(!of_zero.get_verifier().confirms(&s));
    assert!(!verifier.confirms(&zero));
}

#[test]
fn what_is_rebuilt_is_confirmed_by_the_commitments() {
    let s = secret();
    let set = split(&s, 6, 4).unwrap();
    let (shares, verifier) = set.into_parts();
    let rebuilt = recombine(&pick(&shares, &[5, 0, 3, 2, 1]), &verifier).unwrap();
    assert!(verifier.confirms(&rebuilt));
    assert_eq!(rebuilt, s);
}

#[test]
fn check_split_rejects_commitments_of_another_secret() {
    let s = secret();
    let set = split(&s, 5, 3).unwrap();
    let raw: Vec<Vec<u8>> = set.shares().iter().map(|x| x.as_bytes().clone()).collect();
    let mut other = s.clone();
    other[5] ^= 0x22;
    let foreign = split(&other, 5, 3).unwrap().get_verifier().to_commitments();
    assert_eq!(
        check_split(Some((raw, foreign)), &s, 5, 3).err(),
        Some(SplitError::Rejected)
    );
}
