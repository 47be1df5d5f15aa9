//! Splitting the wrap key into shares, checking a share against the public
//! commitments, and rebuilding the key from enough shares.

use vstd::prelude::*;
use crate::error::HsmError;
use crate::policy::{KEY_LEN, SHARE_LEN};
use crate::scalar::{in_scalar_range, is_scalar};
use crate::secret::zeroize_bytes;
use crate::share::Share;
use crate::vsss::{
    all_of_length, commit, feldman_accepts, feldman_split, feldman_verify,
    has_repeated_identifier, opens, shamir_combine, shamir_secret, POINT_LEN,
};

verus! {

/// Why a secret was not split.
#[derive(Clone, Copy, Debug, PartialEq, Eq, Structural)]
pub enum SplitError {
    /// The secret does not have the length of a key.
    InvalidSecretLength,
    /// The threshold is below two or above the number of shares.
    InvalidThreshold,
    /// The secret, read as a number, is not below the group order.
    SecretOutOfRange,
    /// The primitive refused, or what it returned did not stand the checks.
    Rejected,
}

/// The public commitments made when a secret was split. They let anyone
/// check a single share without seeing another.
#[derive(Debug, PartialEq, Eq)]
pub struct Verifier {
    commitments: Vec<Vec<u8>>,
}

/// The shape of a set of commitments: a generator and one commitment for
/// each of at least two and at most 255 coefficients, each of them
/// `POINT_LEN` bytes.
pub open spec fn commitments_shaped(commitments: Seq<Seq<u8>>) -> bool {
    &&& 3 <= commitments.len() <= 256
    &&& all_of_length(commitments, POINT_LEN as nat)
}

/// The byte strings of a list of shares.
pub open spec fn views_of(shares: Seq<Share>) -> Seq<Seq<u8>> {
    shares.map_values(|s: Share| s@)
}

impl Verifier {
    #[verifier::type_invariant]
    spec fn well_formed(self) -> bool {
        commitments_shaped(self.commitments.deep_view())
    }

    /// The commitments, the generator first.
    pub closed spec fn commitments(&self) -> Seq<Seq<u8>> {
        self.commitments.deep_view()
    }

    /// The number of shares needed to rebuild the secret.
    pub open spec fn spec_threshold(&self) -> nat {
        (self.commitments().len() - 1) as nat
    }

    /// Whether the commitments accept a byte string as a share.
    pub open spec fn accepts(&self, share: Seq<u8>) -> bool {
        feldman_accepts(self.commitments(), share)
    }

    /// Whether a byte string is the secret that the commitments were made
    /// for: whether it opens the commitment to the secret, which is the
    /// first after the generator.
    pub open spec fn commits_to(&self, secret: Seq<u8>) -> bool {
        opens(self.commitments()[1], secret)
    }

    /// Whether a byte string is the only secret that the commitments can
    /// have been made for.
    pub open spec fn commits_only_to(&self, secret: Seq<u8>) -> bool {
        &&& self.commits_to(secret)
        &&& forall|other: Seq<u8>| #[trigger] self.commits_to(other) ==> other == secret
    }

    /// Takes stored commitments as a verifier if they have the shape of one.
    pub fn from_commitments(commitments: Vec<Vec<u8>>) -> (r: Option<Verifier>)
        ensures
            r is Some == commitments_shaped(commitments.deep_view()),
            r matches Some(v) ==> v.commitments() == commitments.deep_view(),
    {
        if commitments.len() < 3 || commitments.len() > 256 {
            return None;
        }
        let mut i: usize = 0;
        while i < commitments.len()
            invariant
                i <= commitments.len(),
                forall|j: int| 0 <= j < i ==> (#[trigger] commitments.deep_view()[j]).len() == POINT_LEN,
            decreases commitments.len() - i,
        {
            if commitments[i].len() != POINT_LEN {
                assert(commitments.deep_view()[i as int].len() != POINT_LEN);
                return None;
            }
            assert(commitments.deep_view()[i as int].len() == POINT_LEN);
            i = i + 1;
        }
        Some(Verifier { commitments })
    }

    /// The commitments as bytes, for keeping beside the ceremony's records.
    pub fn to_commitments(&self) -> (r: Vec<Vec<u8>>)
        ensures
            r.deep_view() == self.commitments(),
            commitments_shaped(r.deep_view()),
    {
        proof {
            use_type_invariant(self);
        }
        let r = self.commitments.clone();
        assert(r.deep_view() =~= self.commitments.deep_view()) by {
            assert forall|i: int| 0 <= i < r.len() implies r.deep_view()[i]
                == self.commitments.deep_view()[i] by {
                assert(cloned::<Vec<u8>>(self.commitments[i], r[i]));
                assert(r[i]@ =~= self.commitments[i]@);
            }
        }
        r
    }

    /// The number of shares needed to rebuild the secret.
    pub fn threshold(&self) -> (m: usize)
        ensures
            m == self.spec_threshold(),
            2 <= m <= 255,
    {
        proof {
            use_type_invariant(self);
        }
        self.commitments.len() - 1
    }

    /// Checks a secret against the commitment to it. If the answer is
    /// `true`, no other secret stands the check.
    pub fn confirms(&self, secret: &[u8]) -> (r: bool)
        ensures
            r == (secret@.len() == KEY_LEN && self.commits_to(secret@)),
            r ==> self.commits_only_to(secret@),
    {
        proof {
            use_type_invariant(self);
        }
        if secret.len() != KEY_LEN {
            return false;
        }
        assert(self.commitments.deep_view()[1] =~= self.commitments@[1]@);
        match commit(secret) {
            Some(commitment) => same_bytes(
                commitment.as_slice(),
                self.commitments[1].as_slice(),
            ),
            None => false,
        }
    }

    /// Checks a candidate share against the commitments, with nothing but
    /// public data and the candidate itself.
    pub fn verify(&self, candidate: &Share) -> (r: bool)
        ensures
            r == self.accepts(candidate@),
    {
        proof {
            use_type_invariant(self);
        }
        feldman_verify(&self.commitments, candidate.as_bytes())
    }
}

/// A secret split into shares, together with the commitments that vouch for
/// them. Every share of the set is accepted by the set's verifier, and the
/// set holds at least as many shares as the threshold asks for.
#[derive(Debug, PartialEq, Eq)]
pub struct ShareSet {
    shares: Vec<Share>,
    verifier: Verifier,
}

impl ShareSet {
    #[verifier::type_invariant]
    spec fn well_formed(self) -> bool {
        &&& self.verifier.spec_threshold() <= self.shares@.len() <= 255
        &&& forall|i: int|
            0 <= i < self.shares@.len() ==> self.verifier.accepts((#[trigger] self.shares@[i])@)
    }

    /// The byte strings of the shares, in the order of their identifiers.
    pub closed spec fn share_views(&self) -> Seq<Seq<u8>> {
        views_of(self.shares@)
    }

    /// The verifier of the set.
    pub closed spec fn spec_verifier(&self) -> Verifier {
        self.verifier
    }

    /// The shares of the set; the verifier accepts each of them.
    pub fn shares(&self) -> (r: &Vec<Share>)
        ensures
            views_of(r@) == self.share_views(),
            self.spec_verifier().spec_threshold() <= r@.len() <= 255,
            forall|i: int|
                0 <= i < r@.len() ==> self.spec_verifier().accepts((#[trigger] r@[i])@),
    {
        proof {
            use_type_invariant(self);
        }
        &self.shares
    }

    /// The verifier of the set.
    pub fn get_verifier(&self) -> (r: &Verifier)
        ensures
            *r == self.spec_verifier(),
    {
        &self.verifier
    }

    /// The number of shares in the set.
    pub fn limit(&self) -> (n: usize)
        ensures
            n == self.share_views().len(),
            self.spec_verifier().spec_threshold() <= n <= 255,
    {
        proof {
            use_type_invariant(self);
        }
        self.shares.len()
    }

    /// The number of shares needed to rebuild the secret.
    pub fn threshold(&self) -> (m: usize)
        ensures
            m == self.spec_verifier().spec_threshold(),
            2 <= m <= self.share_views().len(),
    {
        proof {
            use_type_invariant(self);
        }
        self.verifier.threshold()
    }

    /// Gives up the set for its shares and its verifier, so that each share
    /// can go to its custodian.
    pub fn into_parts(self) -> (r: (Vec<Share>, Verifier))
        ensures
            views_of(r.0@) == self.share_views(),
            r.1 == self.spec_verifier(),
            forall|i: int| 0 <= i < r.0@.len() ==> r.1.accepts((#[trigger] r.0@[i])@),
    {
        proof {
            use_type_invariant(&self);
        }
        (self.shares, self.verifier)
    }
}

/// What the sharing primitive must have returned for a split to stand: as
/// many shares as asked for, a commitment for each coefficient beside the
/// generator, every share accepted by the commitments, the secret opening
/// the commitment to it, and the first `m` shares giving back the secret.
pub open spec fn sound_split(
    shares: Seq<Seq<u8>>,
    commitments: Seq<Seq<u8>>,
    secret: Seq<u8>,
    n: nat,
    m: nat,
) -> bool {
    &&& shares.len() == n
    &&& commitments.len() == m + 1
    &&& all_of_length(shares, SHARE_LEN as nat)
    &&& all_of_length(commitments, POINT_LEN as nat)
    &&& forall|i: int| 0 <= i < shares.len() ==> feldman_accepts(commitments, #[trigger] shares[i])
    &&& opens(commitments[1], secret)
    &&& shamir_secret(shares.take(m as int)) == Some(secret)
}

/// The error that the arguments of a split call for, if any.
pub open spec fn split_precheck(secret: Seq<u8>, n: u8, m: u8) -> Option<SplitError> {
    if secret.len() != KEY_LEN {
        Some(SplitError::InvalidSecretLength)
    } else if m < 2 || m > n {
        Some(SplitError::InvalidThreshold)
    } else if !is_scalar(secret) {
        Some(SplitError::SecretOutOfRange)
    } else {
        None
    }
}

/// The outcome of the primitive stands for these arguments.
pub open spec fn outcome_stands(
    outcome: Option<(Vec<Vec<u8>>, Vec<Vec<u8>>)>,
    secret: Seq<u8>,
    n: u8,
    m: u8,
) -> bool {
    outcome matches Some((shares, commitments)) && sound_split(
        shares.deep_view(),
        commitments.deep_view(),
        secret,
        n as nat,
        m as nat,
    )
}

/// The byte strings of a list of shares, as the primitive takes them.
fn raw_shares(shares: &Vec<Share>) -> (r: Vec<Vec<u8>>)
    ensures
        r.deep_view() == views_of(shares@),
        all_of_length(r.deep_view(), SHARE_LEN as nat),
{
    let mut out: Vec<Vec<u8>> = Vec::new();
    let mut i: usize = 0;
    while i < shares.len()
        invariant
            i <= shares.len(),
            out@.len() == i,
            forall|j: int| 0 <= j < i ==> (#[trigger] out@[j])@ == shares@[j]@,
            forall|j: int| 0 <= j < i ==> (#[trigger] out@[j])@.len() == SHARE_LEN,
        decreases shares.len() - i,
    {
        let bytes: &Vec<u8> = shares[i].as_bytes();
        out.push(bytes.clone());
        i = i + 1;
    }
    assert(out.deep_view() =~= views_of(shares@)) by {
        assert forall|j: int| 0 <= j < out@.len() implies out.deep_view()[j] == views_of(
            shares@,
        )[j] by {
            assert(out.deep_view()[j] =~= out@[j]@);
        }
    }
    assert forall|j: int| 0 <= j < out.deep_view().len() implies (#[trigger] out.deep_view()[j]).len()
        == SHARE_LEN by {
        assert(out.deep_view()[j] =~= out@[j]@);
    }
    out
}

/// Erases copies of shares that have served.
fn erase_all(copies: Vec<Vec<u8>>) {
    let mut copies = copies;
    while copies.len() > 0
        decreases copies@.len(),
    {
        match copies.pop() {
            Some(copy) => {
                let mut copy = copy;
                zeroize_bytes(&mut copy);
            },
            None => {},
        }
    }
}

/// Erases shares that have served.
fn erase_shares(shares: Vec<Share>) {
    let mut shares = shares;
    while shares.len() > 0
        decreases shares@.len(),
    {
        match shares.pop() {
            Some(share) => share.erase(),
            None => {},
        }
    }
}

/// Whether two byte strings are the same.
fn same_bytes(a: &[u8], b: &[u8]) -> (r: bool)
    ensures
        r == (a@ == b@),
{
    if a.len() != b.len() {
        return false;
    }
    let mut i: usize = 0;
    while i < a.len()
        invariant
            i <= a.len(),
            a@.len() == b@.len(),
            forall|j: int| 0 <= j < i ==> a@[j] == b@[j],
        decreases a.len() - i,
    {
        if a[i] != b[i] {
            return false;
        }
        i = i + 1;
    }
    assert(a@ =~= b@);
    true
}

/// Examines what the sharing primitive returned for a secret and accepts it
/// as a share set only if it stands every check: the counts, the lengths,
/// each share against the commitments, the secret against the commitment to
/// it, and the recovery of the secret from the first `m` shares.
#[verifier::loop_isolation(false)]
pub fn check_split(
    outcome: Option<(Vec<Vec<u8>>, Vec<Vec<u8>>)>,
    secret: &[u8],
    n: u8,
    m: u8,
) -> (r: Result<ShareSet, SplitError>)
    ensures
        match r {
            Ok(set) => {
                &&& split_precheck(secret@, n, m) is None
                &&& outcome_stands(outcome, secret@, n, m)
                &&& set.share_views() == outcome.unwrap().0.deep_view()
                &&& set.spec_verifier().commitments() == outcome.unwrap().1.deep_view()
            },
            Err(e) => match split_precheck(secret@, n, m) {
                Some(cause) => e == cause,
                None => e == SplitError::Rejected && !outcome_stands(outcome, secret@, n, m),
            },
        },
{
    if secret.len() != KEY_LEN {
        return Err(SplitError::InvalidSecretLength);
    }
    if m < 2 || m > n {
        return Err(SplitError::InvalidThreshold);
    }
    if !in_scalar_range(secret) {
        return Err(SplitError::SecretOutOfRange);
    }
    let (raw, commitments) = match outcome {
        Some(pair) => pair,
        None => {
            return Err(SplitError::Rejected);
        },
    };
    let ghost raw_view = raw.deep_view();
    let ghost com_view = commitments.deep_view();
    if raw.len() != n as usize || commitments.len() != m as usize + 1 {
        erase_all(raw);
        return Err(SplitError::Rejected);
    }
    let verifier = match Verifier::from_commitments(commitments) {
        Some(v) => v,
        None => {
            erase_all(raw);
            return Err(SplitError::Rejected);
        },
    };
    let mut shares: Vec<Share> = Vec::new();
    let mut i: usize = 0;
    while i < raw.len()
        invariant
            i <= raw.len(),
            raw.deep_view() == raw_view,
            raw@.len() == n,
            shares@.len() == i,
            verifier.commitments() == com_view,
            forall|j: int| 0 <= j < i ==> (#[trigger] shares@[j])@ == raw_view[j],
            forall|j: int| 0 <= j < i ==> (#[trigger] raw_view[j]).len() == SHARE_LEN,
            forall|j: int| 0 <= j < i ==> feldman_accepts(com_view, #[trigger] raw_view[j]),
        decreases raw.len() - i,
    {
        assert(raw_view[i as int] =~= raw@[i as int]@);
        let share = match Share::try_from_bytes(raw[i].as_slice()) {
            Ok(s) => s,
            Err(_) => {
                assert(raw_view[i as int].len() != SHARE_LEN);
                erase_all(raw);
                erase_shares(shares);
                return Err(SplitError::Rejected);
            },
        };
        if !verifier.verify(&share) {
            assert(!feldman_accepts(com_view, raw_view[i as int]));
            share.erase();
            erase_all(raw);
            erase_shares(shares);
            return Err(SplitError::Rejected);
        }
        shares.push(share);
        i = i + 1;
    }
    assert(views_of(shares@) =~= raw_view);
    if !verifier.confirms(secret) {
        erase_all(raw);
        erase_shares(shares);
        return Err(SplitError::Rejected);
    }
    let mut first: Vec<Vec<u8>> = Vec::new();
    let mut k: usize = 0;
    while k < m as usize
        invariant
            k <= m as usize,
            m as usize <= raw@.len(),
            raw.deep_view() == raw_view,
            first@.len() == k,
            forall|j: int| 0 <= j < raw@.len() ==> (#[trigger] raw_view[j]).len() == SHARE_LEN,
            forall|j: int| 0 <= j < k ==> (#[trigger] first@[j])@ == raw_view[j],
        decreases m as usize - k,
    {
        assert(raw_view[k as int] =~= raw@[k as int]@);
        first.push(raw[k].clone());
        k = k + 1;
    }
    assert(first.deep_view() =~= raw_view.take(m as int)) by {
        assert forall|j: int| 0 <= j < first@.len() implies first.deep_view()[j] == raw_view.take(
            m as int,
        )[j] by {
            assert(first.deep_view()[j] =~= first@[j]@);
        }
    }
    let back: Option<Vec<u8>> = shamir_combine(&first);
    erase_all(first);
    erase_all(raw);
    match back {
        Some(found) => {
            let mut found = found;
            let same: bool = same_bytes(found.as_slice(), secret);
            zeroize_bytes(&mut found);
            if !same {
                erase_shares(shares);
                return Err(SplitError::Rejected);
            }
        },
        None => {
            erase_shares(shares);
            return Err(SplitError::Rejected);
        },
    }
    Ok(ShareSet { shares, verifier })
}

/// Splits a secret into `n` shares of which any `m` rebuild it, and returns
/// them with the commitments that vouch for them.
///
/// The arguments alone decide the first three errors. Beyond them the
/// random choice of the primitive decides; what is returned is whatever
/// `check_split` makes of the outcome.
pub fn split(secret: &[u8], n: u8, m: u8) -> (r: Result<ShareSet, SplitError>)
    ensures
        match r {
            Ok(set) => {
                &&& split_precheck(secret@, n, m) is None
                &&& set.share_views().len() == n
                &&& set.spec_verifier().spec_threshold() == m
                &&& all_of_length(set.share_views(), SHARE_LEN as nat)
                &&& forall|i: int|
                    0 <= i < n ==> set.spec_verifier().accepts(#[trigger] set.share_views()[i])
                &&& set.spec_verifier().commits_to(secret@)
                &&& shamir_secret(set.share_views().take(m as int)) == Some(secret@)
                &&& recombine_result(set.share_views().take(m as int), set.spec_verifier())
                    == Ok::<Seq<u8>, HsmError>(secret@)
            },
            Err(e) => match split_precheck(secret@, n, m) {
                Some(cause) => e == cause,
                None => e == SplitError::Rejected,
            },
        },
{
    if secret.len() != KEY_LEN {
        return Err(SplitError::InvalidSecretLength);
    }
    if m < 2 || m > n {
        return Err(SplitError::InvalidThreshold);
    }
    if !in_scalar_range(secret) {
        return Err(SplitError::SecretOutOfRange);
    }
    let outcome = feldman_split(m as usize, n as usize, secret);
    let r = check_split(outcome, secret, n, m);
    proof {
        if r is Ok {
            let set = r->Ok_0;
            first_shares_recombine(set.share_views(), set.spec_verifier(), secret@);
        }
    }
    r
}

/// Shares that the commitments accept and of which the first, as many as
/// the threshold asks for, interpolate to the secret that the commitments
/// were made for, rebuild that secret from those first shares.
pub proof fn first_shares_recombine(shares: Seq<Seq<u8>>, verifier: Verifier, secret: Seq<u8>)
    requires
        verifier.spec_threshold() <= shares.len(),
        all_accepted(shares, verifier),
        verifier.commits_to(secret),
        shamir_secret(shares.take(verifier.spec_threshold() as int)) == Some(secret),
    ensures
        recombine_result(shares.take(verifier.spec_threshold() as int), verifier) == Ok::<
            Seq<u8>,
            HsmError,
        >(secret),
{
    let first = shares.take(verifier.spec_threshold() as int);
    assert forall|i: int| 0 <= i < first.len() implies verifier.accepts(#[trigger] first[i]) by {
        assert(first[i] == shares[i]);
    }
}

/// What combining a list of shares gives when nothing is verified: an
/// error if the list is shorter than the threshold, otherwise whatever
/// interpolation makes of the list.
pub open spec fn combine_result(shares: Seq<Seq<u8>>, threshold: nat) -> Result<
    Seq<u8>,
    HsmError,
> {
    if shares.len() < threshold {
        Err(HsmError::InsufficientShares)
    } else {
        match shamir_secret(shares) {
            Some(secret) => Ok(secret),
            None => Err(HsmError::ReconstructionFailed),
        }
    }
}

/// The commitments accept every share of a list.
pub open spec fn all_accepted(shares: Seq<Seq<u8>>, verifier: Verifier) -> bool {
    forall|i: int| 0 <= i < shares.len() ==> verifier.accepts(#[trigger] shares[i])
}

/// What rebuilding the secret from a list of shares gives: an error if the
/// list is shorter than the threshold; an error if the commitments refuse
/// any share of the list; an error if interpolation refuses the list or
/// gives anything but the secret that the commitments were made for;
/// otherwise that secret.
pub open spec fn recombine_result(shares: Seq<Seq<u8>>, verifier: Verifier) -> Result<
    Seq<u8>,
    HsmError,
> {
    if shares.len() < verifier.spec_threshold() {
        Err(HsmError::InsufficientShares)
    } else if !all_accepted(shares, verifier) {
        Err(HsmError::VerificationFailed)
    } else {
        match shamir_secret(shares) {
            Some(secret) => if verifier.commits_to(secret) {
                Ok(secret)
            } else {
                Err(HsmError::ReconstructionFailed)
            },
            None => Err(HsmError::ReconstructionFailed),
        }
    }
}

/// The view of a result that holds a secret.
pub open spec fn secret_result_view(r: Result<Vec<u8>, HsmError>) -> Result<Seq<u8>, HsmError> {
    match r {
        Ok(secret) => Ok(secret@),
        Err(e) => Err(e),
    }
}

/// Combines shares into the secret without checking them against any
/// commitments. A list in which an identifier occurs twice is refused.
pub fn combine(shares: &Vec<Share>, threshold: usize) -> (r: Result<Vec<u8>, HsmError>)
    ensures
        secret_result_view(r) == combine_result(views_of(shares@), threshold as nat),
        r matches Ok(secret) ==> secret@.len() == KEY_LEN,
        shares@.len() >= threshold && (shares@.len() < 2 || has_repeated_identifier(
            views_of(shares@),
        )) ==> r == Err::<Vec<u8>, HsmError>(HsmError::ReconstructionFailed),
{
    if shares.len() < threshold {
        return Err(HsmError::InsufficientShares);
    }
    let raw = raw_shares(shares);
    let found: Option<Vec<u8>> = shamir_combine(&raw);
    erase_all(raw);
    match found {
        Some(secret) => Ok(secret),
        None => Err(HsmError::ReconstructionFailed),
    }
}

/// Rebuilds the secret from shares. Every share supplied is checked
/// against the commitments first, so that a mistyped or forged share is
/// reported; and what the shares give is checked against the commitment to
/// the secret, so that a wrong secret is never returned: whatever is
/// returned is the one secret that the commitments were made for.
pub fn recombine(shares: &Vec<Share>, verifier: &Verifier) -> (r: Result<Vec<u8>, HsmError>)
    ensures
        secret_result_view(r) == recombine_result(views_of(shares@), *verifier),
        r matches Ok(secret) ==> secret@.len() == KEY_LEN && verifier.commits_only_to(secret@),
        shares@.len() >= verifier.spec_threshold() && all_accepted(views_of(shares@), *verifier)
            && has_repeated_identifier(views_of(shares@)) ==> r == Err::<Vec<u8>, HsmError>(
            HsmError::ReconstructionFailed,
        ),
{
    let threshold: usize = verifier.threshold();
    if shares.len() < threshold {
        return Err(HsmError::InsufficientShares);
    }
    let mut i: usize = 0;
    while i < shares.len()
        invariant
            i <= shares.len(),
            shares@.len() >= verifier.spec_threshold(),
            forall|j: int| 0 <= j < i ==> verifier.accepts(#[trigger] views_of(shares@)[j]),
        decreases shares.len() - i,
    {
        if !verifier.verify(&shares[i]) {
            assert(!verifier.accepts(views_of(shares@)[i as int]));
            return Err(HsmError::VerificationFailed);
        }
        i = i + 1;
    }
    match combine(shares, threshold) {
        Ok(secret) => {
            if verifier.confirms(secret.as_slice()) {
                Ok(secret)
            } else {
                let mut secret = secret;
                zeroize_bytes(&mut secret);
                Err(HsmError::ReconstructionFailed)
            }
        },
        Err(e) => Err(e),
    }
}

/// Whatever is rebuilt with the commitments of a split is the secret that
/// was split: if the commitments were made for a secret, and a rebuilt
/// secret is the only one they can have been made for, the two are the
/// same. The first holds of every share set that `split` returns, the
/// second of every secret that `recombine` returns, whatever shares it
/// was given and in whatever order.
pub proof fn rebuilt_secret_is_split_secret(
    verifier: Verifier,
    secret: Seq<u8>,
    rebuilt: Seq<u8>,
)
    requires
        verifier.commits_to(secret),
        verifier.commits_only_to(rebuilt),
    ensures
        rebuilt == secret,
{
}

} // verus!
