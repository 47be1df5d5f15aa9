//! Work on many files at once: the authorities of a state directory, the
//! specifications of a directory of input, and the requests that each
//! authority is to sign.

use vstd::prelude::*;
use crate::config::{
    files_with_ext, kind_of, names_with_ext, spec_kind, texts_of, KeySpec, SpecKind, CSRSPEC_EXT,
};
use crate::engine::{EngineSession, SessionPhase};
use crate::error::HsmError;
use crate::text::{file_stem, same_text, stem_of};

verus! {

/// Why a batch stopped.
#[derive(Clone, Copy, Debug, PartialEq, Eq, Structural)]
pub enum BatchError {
    /// No file of the kind looked for was found.
    NoSpecFiles,
    /// Two keys carry the same label.
    DuplicateLabel,
    /// A request names an authority that does not exist.
    NoAuthority,
    /// A specification was refused.
    Spec(HsmError),
}

/// The place of the first text of a list that equals a given text, or the
/// length of the list if none does.
pub open spec fn position(items: Seq<Seq<char>>, wanted: Seq<char>) -> int
    decreases items.len(),
{
    if items.len() == 0 {
        0
    } else if items[0] == wanted {
        0
    } else {
        1 + position(items.drop_first(), wanted)
    }
}

/// `position` is the first place of the text: no earlier place holds it,
/// and the place itself holds it unless it is the end.
pub proof fn position_is_first(items: Seq<Seq<char>>, wanted: Seq<char>)
    ensures
        0 <= position(items, wanted) <= items.len(),
        forall|j: int| 0 <= j < position(items, wanted) ==> items[j] != wanted,
        position(items, wanted) < items.len() ==> items[position(items, wanted)] == wanted,
        position(items, wanted) == items.len() <==> !items.contains(wanted),
    decreases items.len(),
{
    if items.len() > 0 && items[0] != wanted {
        let rest = items.drop_first();
        position_is_first(rest, wanted);
        let p = position(items, wanted);
        assert forall|j: int| 0 <= j < p implies items[j] != wanted by {
            if j > 0 {
                assert(items[j] == rest[j - 1]);
            }
        }
        if p < items.len() {
            assert(items[p] == rest[p - 1]);
        }
        if rest.contains(wanted) {
            let k = choose|k: int| 0 <= k < rest.len() && rest[k] == wanted;
            assert(items[k + 1] == wanted);
        }
        if items.contains(wanted) {
            let k = choose|k: int| 0 <= k < items.len() && items[k] == wanted;
            assert(rest[k - 1] == wanted);
        }
    } else if items.len() > 0 {
        assert(items[0] == wanted);
    }
}

/// The only place that nothing earlier holds the text and that holds it,
/// or is the end, is `position`.
pub proof fn position_unique(items: Seq<Seq<char>>, wanted: Seq<char>, k: int)
    requires
        0 <= k <= items.len(),
        forall|j: int| 0 <= j < k ==> items[j] != wanted,
        k < items.len() ==> items[k] == wanted,
    ensures
        position(items, wanted) == k,
{
    position_is_first(items, wanted);
    let p = position(items, wanted);
    if p < k {
        assert(items[p] != wanted);
    } else if k < p {
        assert(items[k] != wanted);
    }
}

/// The labels of a list of key specifications.
pub open spec fn labels_of(specs: Seq<KeySpec>) -> Seq<Seq<char>> {
    specs.map_values(|k: KeySpec| k.spec_label())
}

/// No text occurs twice in a list.
pub open spec fn distinct(items: Seq<Seq<char>>) -> bool {
    forall|i: int, j: int| 0 <= i < j < items.len() ==> items[i] != items[j]
}

/// The certificate authorities of a keystore, each known by the label of
/// its key. No two authorities carry the same label.
#[derive(Debug, PartialEq, Eq)]
pub struct CaRegistry {
    cas: Vec<KeySpec>,
}

impl CaRegistry {
    #[verifier::type_invariant]
    spec fn well_formed(self) -> bool {
        distinct(labels_of(self.cas@))
    }

    /// The key specifications of the authorities, in the order in which
    /// they were added.
    pub closed spec fn specs(&self) -> Seq<KeySpec> {
        self.cas@
    }

    /// The labels of the authorities.
    pub open spec fn labels(&self) -> Seq<Seq<char>> {
        labels_of(self.specs())
    }

    /// A registry without authorities.
    pub fn new() -> (r: CaRegistry)
        ensures
            r.specs().len() == 0,
    {
        CaRegistry { cas: Vec::new() }
    }

    /// The number of authorities.
    pub fn len(&self) -> (n: usize)
        ensures
            n == self.specs().len(),
            distinct(self.labels()),
    {
        proof {
            use_type_invariant(self);
        }
        self.cas.len()
    }

    /// The place of the authority with a given label.
    pub fn find(&self, label: &str) -> (r: Option<usize>)
        ensures
            distinct(self.labels()),
            match r {
                Some(i) => i < self.specs().len() && position(self.labels(), label@) == i
                    && self.labels()[i as int] == label@,
                None => position(self.labels(), label@) == self.specs().len()
                    && !self.labels().contains(label@),
            },
    {
        proof {
            use_type_invariant(self);
        }
        let mut i: usize = 0;
        while i < self.cas.len()
            invariant
                i <= self.cas@.len(),
                distinct(labels_of(self.cas@)),
                forall|j: int| 0 <= j < i ==> labels_of(self.cas@)[j] != label@,
            decreases self.cas@.len() - i,
        {
            if same_text(self.cas[i].label(), label) {
                proof {
                    position_unique(labels_of(self.cas@), label@, i as int);
                }
                return Some(i);
            }
            i = i + 1;
        }
        proof {
            position_unique(labels_of(self.cas@), label@, i as int);
            position_is_first(labels_of(self.cas@), label@);
        }
        None
    }

    /// The key specification of the authority at a place, if the place
    /// is one of the registry.
    pub fn get(&self, i: usize) -> (r: Option<&KeySpec>)
        ensures
            match r {
                Some(spec) => i < self.specs().len() && *spec == self.specs()[i as int],
                None => i >= self.specs().len(),
            },
    {
        if i < self.cas.len() {
            Some(&self.cas[i])
        } else {
            None
        }
    }

    /// Adds an authority, unless one with the same label is there.
    pub fn insert(&mut self, spec: KeySpec) -> (r: Result<(), BatchError>)
        ensures
            match r {
                Ok(_) => !old(self).labels().contains(spec.spec_label()) && final(self).specs()
                    == old(self).specs().push(spec),
                Err(e) => e == BatchError::DuplicateLabel && old(self).labels().contains(
                    spec.spec_label(),
                ) && final(self).specs() == old(self).specs(),
            },
    {
        proof {
            use_type_invariant(&*self);
        }
        if self.find(spec.label()).is_some() {
            return Err(BatchError::DuplicateLabel);
        }
        let ghost before = self.cas@;
        let mut cas: Vec<KeySpec> = Vec::new();
        std::mem::swap(&mut self.cas, &mut cas);
        cas.push(spec);
        proof {
            let after = labels_of(cas@);
            assert(after =~= labels_of(before).push(spec.spec_label()));
            assert forall|i: int, j: int| 0 <= i < j < after.len() implies after[i]
                != after[j] by {
                if j == before.len() {
                    assert(labels_of(before)[i] == after[i]);
                    assert(labels_of(before).contains(after[i]));
                } else {
                    assert(labels_of(before)[i] == after[i]);
                    assert(labels_of(before)[j] == after[j]);
                }
            }
        }
        self.cas = cas;
        Ok(())
    }
}

/// The first fault in a list of key specifications that are to found
/// authorities, in the order of the list: a key whose purpose founds no
/// authority (if purposes are checked), or a label that an earlier key
/// carries.
pub open spec fn registry_fault(specs: Seq<KeySpec>, check_purpose: bool) -> Option<BatchError>
    decreases specs.len(),
{
    if specs.len() == 0 {
        None
    } else {
        match registry_fault(specs.drop_last(), check_purpose) {
            Some(e) => Some(e),
            None => if check_purpose && !specs.last().spec_purpose().is_ca_eligible() {
                Some(BatchError::Spec(HsmError::BadPurpose))
            } else if labels_of(specs.drop_last()).contains(specs.last().spec_label()) {
                Some(BatchError::DuplicateLabel)
            } else {
                None
            },
        }
    }
}

/// Builds a registry from key specifications in their order.
fn register_all(specs: &Vec<KeySpec>, check_purpose: bool) -> (r: Result<CaRegistry, BatchError>)
    ensures
        match r {
            Ok(registry) => registry_fault(specs@, check_purpose) is None && registry.specs()
                == specs@,
            Err(e) => registry_fault(specs@, check_purpose) == Some(e),
        },
{
    let mut registry = CaRegistry::new();
    let mut i: usize = 0;
    proof {
        assert(specs@.take(0) =~= Seq::<KeySpec>::empty());
    }
    while i < specs.len()
        invariant
            i <= specs@.len(),
            registry.specs() == specs@.take(i as int),
            registry_fault(specs@.take(i as int), check_purpose) is None,
        decreases specs@.len() - i,
    {
        let spec: KeySpec = specs[i].duplicate();
        proof {
            assert(specs@.take(i + 1).drop_last() =~= specs@.take(i as int));
            assert(specs@.take(i + 1).last() == spec);
        }
        if check_purpose && !spec.purpose().ca_eligible() {
            proof {
                fault_stays(specs@, i + 1, check_purpose);
            }
            return Err(BatchError::Spec(HsmError::BadPurpose));
        }
        match registry.insert(spec) {
            Ok(_) => {
                assert(registry.specs() =~= specs@.take(i + 1));
            },
            Err(e) => {
                proof {
                    fault_stays(specs@, i + 1, check_purpose);
                }
                return Err(e);
            },
        }
        i = i + 1;
    }
    proof {
        assert(specs@.take(i as int) =~= specs@);
    }
    Ok(registry)
}

/// A fault among the first keys of a list is the fault of the list.
proof fn fault_stays(specs: Seq<KeySpec>, k: int, check_purpose: bool)
    requires
        0 <= k <= specs.len(),
        registry_fault(specs.take(k), check_purpose) is Some,
    ensures
        registry_fault(specs, check_purpose) == registry_fault(specs.take(k), check_purpose),
    decreases specs.len() - k,
{
    if k < specs.len() {
        assert(specs.take(k + 1).drop_last() =~= specs.take(k));
        fault_stays(specs, k + 1, check_purpose);
    } else {
        assert(specs.take(k) =~= specs);
    }
}

/// Registers the certificate authorities to found, one for each key
/// specification. There must be at least one; every key must have a
/// purpose that founds an authority, and no two keys may share a label.
/// The first fault in the order of the list is reported.
pub fn initialize_all_ca(specs: &Vec<KeySpec>) -> (r: Result<CaRegistry, BatchError>)
    ensures
        match r {
            Ok(registry) => specs@.len() > 0 && registry_fault(specs@, true) is None
                && registry.specs() == specs@,
            Err(e) => if specs@.len() == 0 {
                e == BatchError::NoSpecFiles
            } else {
                registry_fault(specs@, true) == Some(e)
            },
        },
{
    if specs.len() == 0 {
        return Err(BatchError::NoSpecFiles);
    }
    register_all(specs, true)
}

/// Registers the certificate authorities found in a state directory, by
/// the key specification that each keeps. No two may share a label.
pub fn load_all_ca(specs: &Vec<KeySpec>) -> (r: Result<CaRegistry, BatchError>)
    ensures
        match r {
            Ok(registry) => registry_fault(specs@, false) is None && registry.specs() == specs@,
            Err(e) => registry_fault(specs@, false) == Some(e) && e == BatchError::DuplicateLabel,
        },
{
    let r = register_all(specs, false);
    proof {
        only_duplicates(specs@);
    }
    r
}

/// Where purposes are not checked, the only fault is a repeated label.
proof fn only_duplicates(specs: Seq<KeySpec>)
    ensures
        registry_fault(specs, false) matches Some(e) ==> e == BatchError::DuplicateLabel,
    decreases specs.len(),
{
    if specs.len() > 0 {
        only_duplicates(specs.drop_last());
    }
}

/// The requests to sign: the one file named, or the files of the
/// directory named that end as a signing request does.
pub open spec fn requests_to_sign(
    is_file: bool,
    path: Seq<char>,
    listing: Option<Seq<Seq<char>>>,
) -> Result<Seq<Seq<char>>, HsmError> {
    if is_file {
        Ok(seq![path])
    } else {
        match listing {
            Some(names) => Ok(names_with_ext(names, CSRSPEC_EXT@)),
            None => Err(HsmError::BadSpecDirectory),
        }
    }
}

/// The view of a borrowed list of names that may be absent.
pub open spec fn opt_listing(listing: Option<&Vec<String>>) -> Option<Seq<Seq<char>>> {
    match listing {
        Some(names) => Some(texts_of(names@)),
        None => None,
    }
}

/// Selects the requests to sign and opens the session in which they are
/// signed, one run of the signing engine for each. The path names one
/// request, or a directory whose files were listed; a path that is
/// neither is refused.
pub fn ca_sign(is_file: bool, path: &str, listing: Option<&Vec<String>>) -> (r: Result<
    (Vec<String>, EngineSession),
    HsmError,
>)
    ensures
        match r {
            Ok((requests, session)) => {
                &&& requests_to_sign(is_file, path@, opt_listing(listing)) == Ok::<
                    Seq<Seq<char>>,
                    HsmError,
                >(texts_of(requests@))
                &&& session.spec_jobs() == requests@.len()
                &&& session.spec_failure() == HsmError::CertGenFail
                &&& session.spec_phase() == SessionPhase::Idle
            },
            Err(e) => requests_to_sign(is_file, path@, opt_listing(listing)) == Err::<
                Seq<Seq<char>>,
                HsmError,
            >(e),
        },
{
    let requests: Vec<String> = if is_file {
        let mut one: Vec<String> = Vec::new();
        one.push(String::from_str(path));
        assert(texts_of(one@) =~= seq![path@]);
        one
    } else {
        match listing {
            Some(names) => files_with_ext(names, CSRSPEC_EXT),
            None => {
                return Err(HsmError::BadSpecDirectory);
            },
        }
    };
    let session = EngineSession::for_signing(requests.len());
    Ok((requests, session))
}

/// A request to sign: the name of its file and the label it names.
#[derive(Debug, PartialEq, Eq)]
pub struct SignRequest {
    /// The name of the file of the request.
    pub file_name: String,
    /// The label of the authority that is to sign.
    pub label: String,
}

impl View for SignRequest {
    type V = (Seq<char>, Seq<char>);

    open spec fn view(&self) -> (Seq<char>, Seq<char>) {
        (self.file_name@, self.label@)
    }
}

/// One signature to make.
#[derive(Debug, PartialEq, Eq)]
pub struct SignTask {
    /// The place of the request in the list of requests.
    pub request: usize,
    /// The kind of the request.
    pub kind: SpecKind,
    /// The place of the authority in the registry.
    pub authority: usize,
    /// The stem of the names of the files that the signature writes.
    pub stem: String,
}

/// One signature to make, as plain values.
pub struct SignTaskView {
    /// The place of the request in the list of requests.
    pub request: int,
    /// The kind of the request.
    pub kind: SpecKind,
    /// The place of the authority in the registry.
    pub authority: int,
    /// The stem of the names of the files that the signature writes.
    pub stem: Seq<char>,
}

impl View for SignTask {
    type V = SignTaskView;

    open spec fn view(&self) -> SignTaskView {
        SignTaskView {
            request: self.request as int,
            kind: self.kind,
            authority: self.authority as int,
            stem: self.stem@,
        }
    }
}

/// The views of a list of requests.
pub open spec fn requests_of(items: Seq<SignRequest>) -> Seq<(Seq<char>, Seq<char>)> {
    items.map_values(|r: SignRequest| r@)
}

/// The views of a list of tasks.
pub open spec fn tasks_of(items: Seq<SignTask>) -> Seq<SignTaskView> {
    items.map_values(|t: SignTask| t@)
}

/// The signatures to make for a list of requests, and what stops the
/// list, if anything does. Requests are taken in their order. A file that
/// is no signing request is passed over. A request that names no
/// authority of the registry stops the list: the signatures before it
/// stand, and nothing after it is looked at.
pub open spec fn sign_plan(labels: Seq<Seq<char>>, requests: Seq<(Seq<char>, Seq<char>)>) -> (
    Seq<SignTaskView>,
    Option<BatchError>,
)
    decreases requests.len(),
{
    if requests.len() == 0 {
        (Seq::empty(), None)
    } else {
        let (tasks, stopped) = sign_plan(labels, requests.drop_last());
        let (name, label) = requests.last();
        if stopped is Some {
            (tasks, stopped)
        } else {
            match kind_of(name) {
                Some(SpecKind::Csr) | Some(SpecKind::Dcsr) => {
                    let place = position(labels, label);
                    if place < labels.len() {
                        (
                            tasks.push(
                                SignTaskView {
                                    request: requests.len() - 1,
                                    kind: kind_of(name).unwrap(),
                                    authority: place,
                                    stem: stem_of(name),
                                },
                            ),
                            None,
                        )
                    } else {
                        (tasks, Some(BatchError::NoAuthority))
                    }
                },
                _ => (tasks, None),
            }
        }
    }
}

/// The signatures to make for a batch of requests.
#[derive(Debug, PartialEq, Eq)]
pub struct SignPlan {
    /// The signatures, in the order of the requests.
    pub tasks: Vec<SignTask>,
    /// What stopped the batch, if anything did.
    pub stopped: Option<BatchError>,
}

/// Plans the signing of a batch of requests: finds for each request the
/// authority that its label names. A batch without requests is refused.
pub fn sign_all(cas: &CaRegistry, requests: &Vec<SignRequest>) -> (r: SignPlan)
    ensures
        requests@.len() == 0 ==> r.tasks@.len() == 0 && r.stopped == Some(
            BatchError::NoSpecFiles,
        ),
        requests@.len() > 0 ==> (tasks_of(r.tasks@), r.stopped) == sign_plan(
            cas.labels(),
            requests_of(requests@),
        ),
        forall|i: int|
            0 <= i < r.tasks@.len() ==> (#[trigger] r.tasks@[i]).authority < cas.specs().len()
                && r.tasks@[i].request < requests@.len(),
{
    let mut tasks: Vec<SignTask> = Vec::new();
    if requests.len() == 0 {
        return SignPlan { tasks, stopped: Some(BatchError::NoSpecFiles) };
    }
    let ghost all = requests_of(requests@);
    let ghost labels = cas.labels();
    let mut stopped: Option<BatchError> = None;
    let mut i: usize = 0;
    proof {
        assert(all.take(0) =~= Seq::<(Seq<char>, Seq<char>)>::empty());
        assert(tasks_of(tasks@) =~= Seq::<SignTaskView>::empty());
    }
    while i < requests.len() && stopped.is_none()
        invariant
            i <= requests@.len(),
            all == requests_of(requests@),
            labels == cas.labels(),
            (tasks_of(tasks@), stopped) == sign_plan(labels, all.take(i as int)),
            stopped is Some ==> sign_plan(labels, all) == sign_plan(labels, all.take(i as int)),
            forall|k: int|
                0 <= k < tasks@.len() ==> (#[trigger] tasks@[k]).authority < cas.specs().len()
                    && tasks@[k].request < requests@.len(),
        decreases requests@.len() - i + (if stopped is None { 1int } else { 0int }),
    {
        let request: &SignRequest = &requests[i];
        proof {
            assert(all.take(i + 1).drop_last() =~= all.take(i as int));
            assert(all.take(i + 1).last() == request@);
        }
        let kind: Option<SpecKind> = spec_kind(request.file_name.as_str());
        match kind {
            Some(SpecKind::Csr) | Some(SpecKind::Dcsr) => {
                match cas.find(request.label.as_str()) {
                    Some(place) => {
                        let ghost before = tasks_of(tasks@);
                        let task = SignTask {
                            request: i,
                            kind: match kind {
                                Some(k) => k,
                                None => SpecKind::Csr,
                            },
                            authority: place,
                            stem: file_stem(request.file_name.as_str()),
                        };
                        tasks.push(task);
                        assert(tasks_of(tasks@) =~= before.push(task@));
                        i = i + 1;
                    },
                    None => {
                        stopped = Some(BatchError::NoAuthority);
                        proof {
                            stop_stays(labels, all, i + 1);
                        }
                        i = i + 1;
                    },
                }
            },
            _ => {
                i = i + 1;
            },
        }
    }
    proof {
        if stopped is None {
            assert(all.take(i as int) =~= all);
        }
    }
    SignPlan { tasks, stopped }
}

/// Once a request has stopped the list, the plan does not change.
proof fn stop_stays(labels: Seq<Seq<char>>, requests: Seq<(Seq<char>, Seq<char>)>, k: int)
    requires
        0 <= k <= requests.len(),
        sign_plan(labels, requests.take(k)).1 is Some,
    ensures
        sign_plan(labels, requests) == sign_plan(labels, requests.take(k)),
    decreases requests.len() - k,
{
    if k < requests.len() {
        assert(requests.take(k + 1).drop_last() =~= requests.take(k));
        stop_stays(labels, requests, k + 1);
    } else {
        assert(requests.take(k) =~= requests);
    }
}

} // verus!
