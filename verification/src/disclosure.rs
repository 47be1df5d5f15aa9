//! Handing the shares of the wrap key to their custodians: one at a time,
//! each only after the operator has confirmed that its custodian is
//! present, and none kept after it was written out.

use vstd::prelude::*;
use crate::hexcodec::{hex_encode, hex_round_trip, hex_text, hex_value};
use crate::shares::{entry_outcome, Hint};
use crate::text::{is_whitespace, without_whitespace};
use crate::policy::SHARE_LEN;
use crate::secret::zeroize_bytes;
use crate::sharing::{ShareSet, Verifier};

verus! {

/// Where the handing out of shares stands.
#[derive(Clone, Copy, Debug, PartialEq, Eq, Structural)]
pub enum DisclosureState {
    /// Nothing was asked yet.
    Idle,
    /// The custodian of the share with this number is awaited.
    Ready(usize),
    /// The share with this number is being written out.
    Printing(usize),
    /// The custodian is collecting the share with this number.
    Collecting(usize),
    /// Every share was handed out.
    Finished,
    /// A share could not be written out; the rest was erased.
    Broken,
}

/// What the driver reports.
#[derive(Clone, Copy, Debug, PartialEq, Eq, Structural)]
pub enum DisclosureEvent {
    /// The handing out is to begin.
    Begin,
    /// The operator pressed enter.
    Acknowledged,
    /// The share was written out.
    Printed,
    /// The share could not be written out.
    Failed,
}

/// What to do next.
#[derive(Clone, Copy, Debug, PartialEq, Eq, Structural)]
pub enum DisclosureAction {
    /// Ask the operator to press enter when the custodian with this
    /// number, counted from one, is ready.
    AwaitCustodian(usize),
    /// Write out the share of the custodian with this number, counted
    /// from one.
    PrintShare(usize),
    /// Ask the operator to press enter when the custodian with this
    /// number, counted from one, has collected the share.
    AwaitCollection(usize),
    /// Every share was handed out.
    Done,
    /// The handing out is given up.
    Abort,
    /// The event does not fit; nothing changed.
    Rejected,
}

/// The state and the action that follow an event when `count` shares are
/// handed out.
pub open spec fn disclosure_next(count: usize, state: DisclosureState, event: DisclosureEvent) -> (
    DisclosureState,
    DisclosureAction,
) {
    match (state, event) {
        (DisclosureState::Finished, _) | (DisclosureState::Broken, _) => (
            state,
            DisclosureAction::Rejected,
        ),
        (_, DisclosureEvent::Failed) => (DisclosureState::Broken, DisclosureAction::Abort),
        (DisclosureState::Idle, DisclosureEvent::Begin) => if count == 0 {
            (DisclosureState::Finished, DisclosureAction::Done)
        } else {
            (DisclosureState::Ready(0), DisclosureAction::AwaitCustodian(1))
        },
        (DisclosureState::Ready(i), DisclosureEvent::Acknowledged) => (
            DisclosureState::Printing(i),
            DisclosureAction::PrintShare((i + 1) as usize),
        ),
        (DisclosureState::Printing(i), DisclosureEvent::Printed) => (
            DisclosureState::Collecting(i),
            DisclosureAction::AwaitCollection((i + 1) as usize),
        ),
        (DisclosureState::Collecting(i), DisclosureEvent::Acknowledged) => if i + 1 < count {
            (
                DisclosureState::Ready((i + 1) as usize),
                DisclosureAction::AwaitCustodian((i + 2) as usize),
            )
        } else {
            (DisclosureState::Finished, DisclosureAction::Done)
        },
        _ => (state, DisclosureAction::Rejected),
    }
}

/// A state that the handing out of `count` shares can be in: the share
/// in hand is one of them.
pub open spec fn disclosure_valid(count: usize, state: DisclosureState) -> bool {
    match state {
        DisclosureState::Ready(i) => i < count,
        DisclosureState::Printing(i) => i < count,
        DisclosureState::Collecting(i) => i < count,
        _ => true,
    }
}

/// How many shares are not yet taken in hand in a state, of `count`.
pub open spec fn waiting(count: usize, state: DisclosureState) -> int {
    match state {
        DisclosureState::Idle => count as int,
        DisclosureState::Ready(i) => count - i,
        DisclosureState::Printing(i) => count - i - 1,
        DisclosureState::Collecting(i) => count - i - 1,
        DisclosureState::Finished => 0,
        DisclosureState::Broken => 0,
    }
}

/// The line that is written out for a share: its hexadecimal text and the
/// end of the line.
pub open spec fn share_line(share: Seq<u8>) -> Seq<char> {
    hex_text(share).push('\n')
}

/// The handing out of the shares of one split.
#[derive(Debug, PartialEq, Eq)]
pub struct Disclosure {
    count: usize,
    pending: Vec<Vec<u8>>,
    in_hand: Vec<u8>,
    state: DisclosureState,
}

impl Disclosure {
    #[verifier::type_invariant]
    spec fn well_formed(self) -> bool {
        &&& self.pending@.len() == waiting(self.count, self.state)
        &&& disclosure_valid(self.count, self.state)
        &&& forall|j: int|
            0 <= j < self.pending@.len() ==> (#[trigger] self.pending@[j])@.len() == SHARE_LEN
        &&& self.in_hand@.len() == (if self.state is Printing {
            SHARE_LEN as int
        } else {
            0
        })
    }

    /// Where the handing out stands.
    pub closed spec fn spec_state(&self) -> DisclosureState {
        self.state
    }

    /// The number of shares of the split.
    pub closed spec fn spec_count(&self) -> usize {
        self.count
    }

    /// The shares that wait for their custodians, the next one first.
    pub closed spec fn spec_waiting(&self) -> Seq<Seq<u8>> {
        Seq::new(self.pending@.len(), |k: int| self.pending@[self.pending@.len() - 1 - k]@)
    }

    /// The share that is being written out; empty at any other time.
    pub closed spec fn spec_in_hand(&self) -> Seq<u8> {
        self.in_hand@
    }

    /// Takes the shares of a split for handing out, and gives back the
    /// commitments, which are public and are kept.
    pub fn new(set: ShareSet) -> (r: (Disclosure, Verifier))
        ensures
            r.0.spec_state() == DisclosureState::Idle,
            r.0.spec_count() == set.share_views().len(),
            r.0.spec_waiting() == set.share_views(),
            r.0.spec_in_hand().len() == 0,
            r.1 == set.spec_verifier(),
    {
        let ghost views = set.share_views();
        let (shares, verifier) = set.into_parts();
        let n: usize = shares.len();
        let mut pending: Vec<Vec<u8>> = Vec::new();
        let mut i: usize = n;
        while i > 0
            invariant
                i <= n,
                n == shares@.len(),
                crate::sharing::views_of(shares@) == views,
                pending@.len() == n - i,
                forall|j: int| 0 <= j < n - i ==> (#[trigger] pending@[j])@ == views[n - 1 - j],
                forall|j: int| 0 <= j < n - i ==> (#[trigger] pending@[j])@.len() == SHARE_LEN,
            decreases i,
        {
            i = i - 1;
            let bytes: &Vec<u8> = shares[i].as_bytes();
            assert(bytes@ == views[i as int]);
            pending.push(bytes.clone());
        }
        let r = Disclosure { count: n, pending, in_hand: Vec::new(), state: DisclosureState::Idle };
        assert(r.spec_waiting() =~= views);
        let mut shares = shares;
        while shares.len() > 0
            decreases shares@.len(),
        {
            match shares.pop() {
                Some(share) => share.erase(),
                None => {},
            }
        }
        (r, verifier)
    }

    /// Where the handing out stands.
    pub fn state(&self) -> (r: DisclosureState)
        ensures
            r == self.spec_state(),
            disclosure_valid(self.spec_count(), r),
    {
        proof {
            use_type_invariant(self);
        }
        self.state
    }

    /// The number of shares of the split.
    pub fn count(&self) -> (r: usize)
        ensures
            r == self.spec_count(),
    {
        self.count
    }

    /// The line to write out now: that of the share whose custodian was
    /// confirmed present. At any other time there is none.
    pub fn line(&self) -> (r: Option<String>)
        ensures
            match r {
                Some(text) => self.spec_state() is Printing && text@ == share_line(
                    self.spec_in_hand(),
                ) && self.spec_in_hand().len() == SHARE_LEN,
                None => !(self.spec_state() is Printing),
            },
    {
        proof {
            use_type_invariant(self);
        }
        match self.state {
            DisclosureState::Printing(_) => {
                let mut text: String = hex_encode(self.in_hand.as_slice());
                proof {
                    reveal_strlit("\n");
                }
                text.append("\n");
                assert(text@ =~= share_line(self.in_hand@));
                Some(text)
            },
            _ => None,
        }
    }

    /// Takes an event and says what to do next. A share is taken in hand
    /// only when the operator has confirmed its custodian, and is erased
    /// as soon as it was written out; a failure erases every share that
    /// is left.
    pub fn step(&mut self, event: DisclosureEvent) -> (action: DisclosureAction)
        ensures
            (final(self).spec_state(), action) == disclosure_next(
                old(self).spec_count(),
                old(self).spec_state(),
                event,
            ),
            final(self).spec_count() == old(self).spec_count(),
            final(self).spec_in_hand() == (if action is PrintShare {
                old(self).spec_waiting()[0]
            } else if action is Rejected {
                old(self).spec_in_hand()
            } else {
                Seq::<u8>::empty()
            }),
            final(self).spec_waiting() == (if action is PrintShare {
                old(self).spec_waiting().skip(1)
            } else if action is Abort {
                Seq::<Seq<u8>>::empty()
            } else {
                old(self).spec_waiting()
            }),
            action is PrintShare ==> old(self).spec_waiting().len() > 0,
    {
        proof {
            use_type_invariant(&*self);
        }
        let ghost before = self.spec_waiting();
        let mut taken = Disclosure {
            count: 0,
            pending: Vec::new(),
            in_hand: Vec::new(),
            state: DisclosureState::Idle,
        };
        std::mem::swap(self, &mut taken);
        let Disclosure { count, pending, in_hand, state } = taken;
        let mut pending = pending;
        let mut in_hand = in_hand;
        let (next, action): (DisclosureState, DisclosureAction) = match (state, event) {
            (DisclosureState::Finished, _) => (state, DisclosureAction::Rejected),
            (DisclosureState::Broken, _) => (state, DisclosureAction::Rejected),
            (_, DisclosureEvent::Failed) => {
                zeroize_bytes(&mut in_hand);
                while pending.len() > 0
                    decreases pending@.len(),
                {
                    match pending.pop() {
                        Some(share) => {
                            let mut share = share;
                            zeroize_bytes(&mut share);
                        },
                        None => {},
                    }
                }
                (DisclosureState::Broken, DisclosureAction::Abort)
            },
            (DisclosureState::Idle, DisclosureEvent::Begin) => if count == 0 {
                (DisclosureState::Finished, DisclosureAction::Done)
            } else {
                (DisclosureState::Ready(0), DisclosureAction::AwaitCustodian(1))
            },
            (DisclosureState::Ready(i), DisclosureEvent::Acknowledged) => {
                match pending.pop() {
                    Some(share) => {
                        in_hand = share;
                    },
                    None => {},
                }
                (DisclosureState::Printing(i), DisclosureAction::PrintShare(i + 1))
            },
            (DisclosureState::Printing(i), DisclosureEvent::Printed) => {
                zeroize_bytes(&mut in_hand);
                (DisclosureState::Collecting(i), DisclosureAction::AwaitCollection(i + 1))
            },
            (DisclosureState::Collecting(i), DisclosureEvent::Acknowledged) => if i + 1 < count {
                (DisclosureState::Ready(i + 1), DisclosureAction::AwaitCustodian(i + 2))
            } else {
                (DisclosureState::Finished, DisclosureAction::Done)
            },
            (_, _) => (state, DisclosureAction::Rejected),
        };
        let mut result = Disclosure { count, pending, in_hand, state: next };
        proof {
            if action is PrintShare {
                assert(result.spec_waiting() =~= before.skip(1));
            } else if action is Abort {
                assert(result.spec_waiting() =~= Seq::<Seq<u8>>::empty());
            } else {
                assert(result.spec_waiting() =~= before);
            }
        }
        std::mem::swap(self, &mut result);
        action
    }
}

/// Filtering keeps a text whose characters all pass.
proof fn filter_keeps_all(text: Seq<char>, keep: spec_fn(char) -> bool)
    requires
        forall|i: int| 0 <= i < text.len() ==> keep(#[trigger] text[i]),
    ensures
        text.filter(keep) == text,
    decreases text.len(),
{
    reveal(Seq::filter);
    if text.len() > 0 {
        filter_keeps_all(text.drop_last(), keep);
        assert(text.drop_last().push(text.last()) =~= text);
    }
}

/// The line written out for a share is the line that reads back as that
/// share: a custodian who types it as it stands gives the very share that
/// was handed out, if the commitments accept the share.
pub proof fn printed_share_reads_back(share: Seq<u8>, verifier: Verifier)
    requires
        share.len() == SHARE_LEN,
        verifier.accepts(share),
    ensures
        entry_outcome(share_line(share), verifier) == Ok::<Seq<u8>, Hint>(share),
{
    let text = hex_text(share);
    let line = share_line(share);
    hex_round_trip(share);
    assert forall|i: int| 0 <= i < line.len() implies '\0' <= #[trigger] line[i] <= '\u{7f}' by {
        if i < text.len() {
            assert(line[i] == text[i]);
            assert(hex_value(text[i]) is Some);
        }
    }
    vstd::utf8::is_ascii_chars_encode_utf8(line);
    let keep = |c: char| !is_whitespace(c);
    assert forall|i: int| 0 <= i < text.len() implies keep(#[trigger] text[i]) by {
        assert(hex_value(text[i]) is Some);
    }
    filter_keeps_all(text, keep);
    assert(without_whitespace(line) == text) by {
        reveal(Seq::filter);
        assert(line.drop_last() =~= text);
        assert(line.last() == '\n');
        assert(is_whitespace('\n'));
    }
}

/// No share leaves without its custodian: a share is written out only in
/// answer to the operator's confirmation that the custodian of that very
/// share is ready, and the next custodian is called only after the share
/// before was collected.
pub proof fn shares_follow_acknowledgement(
    count: usize,
    state: DisclosureState,
    event: DisclosureEvent,
)
    requires
        disclosure_valid(count, state),
    ensures
        disclosure_valid(count, disclosure_next(count, state, event).0),
        ({
            let (after, action) = disclosure_next(count, state, event);
            &&& action matches DisclosureAction::PrintShare(k) ==> k >= 1 && state
                == DisclosureState::Ready((k - 1) as usize) && event
                is Acknowledged && after == DisclosureState::Printing((k - 1) as usize)
            &&& action matches DisclosureAction::AwaitCustodian(k) ==> k >= 1 && (if k == 1 {
                state is Idle && event is Begin
            } else {
                state == DisclosureState::Collecting((k - 2) as usize) && event is Acknowledged
            })
            &&& action is Done ==> after is Finished
            &&& action is Abort ==> after is Broken
        }),
{
}

} // verus!
