//! Which credential opens a session, and where its password comes from.

use vstd::prelude::*;
use crate::policy::{AUTH_ID, DEFAULT_AUTH_ID, GEN_PASSWD_LENGTH};
use crate::secret::zeroize_text;
use crate::text::same_text;

verus! {

/// The password of the factory credential.
pub const DEFAULT_PASSWORD: &'static str = "password";

/// Name of the environment variable that may hold the password.
pub const ENV_PASSWORD: &'static str = "OKS_PASSWORD";

/// Name of the environment variable that may hold the new password.
pub const ENV_NEW_PASSWORD: &'static str = "OKS_NEW_PASSWORD";

/// What the operator wants done with the device.
#[derive(Clone, Copy, Debug, PartialEq, Eq, Structural)]
pub enum HsmCommand {
    /// Generate keys from their specifications.
    Generate,
    /// Personalize a new device.
    Initialize,
    /// Restore the wrap key from shares.
    Restore,
    /// Show the serial number of the device.
    SerialNumber,
}

impl HsmCommand {
    /// Whether the command is given to a device in its factory state.
    pub open spec fn assumes_factory_state(self) -> bool {
        self is Initialize || self is Restore || self is SerialNumber
    }

    /// Whether the command is given to a device in its factory state.
    pub fn for_factory_state(&self) -> (r: bool)
        ensures
            r == self.assumes_factory_state(),
    {
        match self {
            HsmCommand::Initialize | HsmCommand::Restore | HsmCommand::SerialNumber => true,
            HsmCommand::Generate => false,
        }
    }
}

/// The credential to open a session with: the one named, or the factory
/// credential for a device in its factory state, or the administrative
/// credential.
pub open spec fn auth_id_for(auth_id: Option<u16>, command: HsmCommand) -> u16 {
    match auth_id {
        Some(id) => id,
        None => if command.assumes_factory_state() {
            DEFAULT_AUTH_ID
        } else {
            AUTH_ID
        },
    }
}

/// Chooses the credential to open a session with.
pub fn get_auth_id(auth_id: Option<u16>, command: HsmCommand) -> (r: u16)
    ensures
        r == auth_id_for(auth_id, command),
{
    match auth_id {
        Some(id) => id,
        None => if command.for_factory_state() {
            DEFAULT_AUTH_ID
        } else {
            AUTH_ID
        },
    }
}

/// Where a password comes from.
#[derive(Debug, PartialEq, Eq)]
pub enum PasswordSource {
    /// It was given.
    Given(String),
    /// The operator is asked for it.
    Prompt,
    /// It is the password of the factory credential.
    Default,
}

/// Where a password comes from, as plain sequences.
pub enum PasswordSourceView {
    /// It was given.
    Given(Seq<char>),
    /// The operator is asked for it.
    Prompt,
    /// It is the password of the factory credential.
    Default,
}

impl View for PasswordSource {
    type V = PasswordSourceView;

    open spec fn view(&self) -> PasswordSourceView {
        match self {
            PasswordSource::Given(p) => PasswordSourceView::Given(p@),
            PasswordSource::Prompt => PasswordSourceView::Prompt,
            PasswordSource::Default => PasswordSourceView::Default,
        }
    }
}

/// A password from the environment comes first. Without one the operator
/// is asked, unless no credential was named and the command is given to a
/// device in its factory state, whose password is known.
pub open spec fn password_source(
    from_env: Option<Seq<char>>,
    auth_id: Option<u16>,
    command: HsmCommand,
) -> PasswordSourceView {
    match from_env {
        Some(p) => PasswordSourceView::Given(p),
        None => if auth_id is Some {
            PasswordSourceView::Prompt
        } else if command.assumes_factory_state() {
            PasswordSourceView::Default
        } else {
            PasswordSourceView::Prompt
        },
    }
}

/// The view of a text that may be absent.
pub open spec fn given(t: Option<String>) -> Option<Seq<char>> {
    match t {
        Some(s) => Some(s@),
        None => None,
    }
}

/// Decides where the password of a session comes from.
pub fn get_passwd(from_env: Option<String>, auth_id: Option<u16>, command: HsmCommand) -> (r:
    PasswordSource)
    ensures
        r@ == password_source(given(from_env), auth_id, command),
{
    match from_env {
        Some(p) => PasswordSource::Given(p),
        None => if auth_id.is_some() {
            PasswordSource::Prompt
        } else if command.for_factory_state() {
            PasswordSource::Default
        } else {
            PasswordSource::Prompt
        },
    }
}

/// Where a new password comes from.
#[derive(Debug, PartialEq, Eq)]
pub enum NewPasswordSource {
    /// It was given.
    Given(String),
    /// The device draws it at random, with this many characters.
    Generate(usize),
    /// The operator enters it twice.
    Challenge,
}

/// Where a new password comes from, as plain sequences.
pub enum NewPasswordSourceView {
    /// It was given.
    Given(Seq<char>),
    /// The device draws it at random, with this many characters.
    Generate(usize),
    /// The operator enters it twice.
    Challenge,
}

impl View for NewPasswordSource {
    type V = NewPasswordSourceView;

    open spec fn view(&self) -> NewPasswordSourceView {
        match self {
            NewPasswordSource::Given(p) => NewPasswordSourceView::Given(p@),
            NewPasswordSource::Generate(n) => NewPasswordSourceView::Generate(*n),
            NewPasswordSource::Challenge => NewPasswordSourceView::Challenge,
        }
    }
}

/// A new password from the environment comes first; without one the
/// device draws it if a device is at hand, else the operator enters it.
pub open spec fn new_password_source(
    from_env: Option<Seq<char>>,
    device_at_hand: bool,
) -> NewPasswordSourceView {
    match from_env {
        Some(p) => NewPasswordSourceView::Given(p),
        None => if device_at_hand {
            NewPasswordSourceView::Generate(GEN_PASSWD_LENGTH)
        } else {
            NewPasswordSourceView::Challenge
        },
    }
}

/// Decides where a new password comes from.
pub fn get_new_passwd(from_env: Option<String>, device_at_hand: bool) -> (r: NewPasswordSource)
    ensures
        r@ == new_password_source(given(from_env), device_at_hand),
{
    match from_env {
        Some(p) => NewPasswordSource::Given(p),
        None => if device_at_hand {
            NewPasswordSource::Generate(GEN_PASSWD_LENGTH)
        } else {
            NewPasswordSource::Challenge
        },
    }
}

/// What the challenge asks or gives after an entry.
#[derive(Debug, PartialEq, Eq)]
pub enum ChallengeStep {
    /// Ask for the password again, to confirm it.
    Confirm,
    /// The two entries differ: say so and ask for the password anew.
    Mismatch,
    /// The two entries are the same: this is the password.
    Confirmed(String),
}

/// What the challenge asks or gives, as plain sequences.
pub enum ChallengeStepView {
    /// Ask for the password again.
    Confirm,
    /// The two entries differ.
    Mismatch,
    /// The two entries are the same.
    Confirmed(Seq<char>),
}

impl View for ChallengeStep {
    type V = ChallengeStepView;

    open spec fn view(&self) -> ChallengeStepView {
        match self {
            ChallengeStep::Confirm => ChallengeStepView::Confirm,
            ChallengeStep::Mismatch => ChallengeStepView::Mismatch,
            ChallengeStep::Confirmed(p) => ChallengeStepView::Confirmed(p@),
        }
    }
}

/// What is kept and what is answered when an entry arrives: a first entry
/// is kept for comparison; a second is compared with it, and nothing is
/// kept afterwards.
pub open spec fn challenge_next(kept: Option<Seq<char>>, entry: Seq<char>) -> (
    Option<Seq<char>>,
    ChallengeStepView,
) {
    match kept {
        None => (Some(entry), ChallengeStepView::Confirm),
        Some(first) => if first == entry {
            (None, ChallengeStepView::Confirmed(entry))
        } else {
            (None, ChallengeStepView::Mismatch)
        },
    }
}

/// The password that a sequence of entries confirms: the first that was
/// entered twice in a row as a pair, if any pair is alike.
pub open spec fn confirmed_by(entries: Seq<Seq<char>>) -> Option<Seq<char>>
    decreases entries.len(),
{
    if entries.len() < 2 {
        None
    } else if entries[0] == entries[1] {
        Some(entries[0])
    } else {
        confirmed_by(entries.skip(2))
    }
}

/// What a challenge that has seen no entry keeps after a sequence of
/// entries, and the password it has given, if it has given one: the
/// challenge is over with the first password it gives.
pub open spec fn challenge_run(entries: Seq<Seq<char>>) -> (Option<Seq<char>>, Option<Seq<char>>)
    decreases entries.len(),
{
    if entries.len() == 0 {
        (None, None)
    } else {
        let (kept, found) = challenge_run(entries.drop_last());
        if found is Some {
            (kept, found)
        } else {
            match challenge_next(kept, entries.last()) {
                (after, ChallengeStepView::Confirmed(password)) => (after, Some(password)),
                (after, _) => (after, None),
            }
        }
    }
}

/// The challenge gives the password that the entries confirm, and gives
/// nothing before: entries are compared in pairs, the first pair that is
/// alike is the password, and an entry that was not repeated is never
/// given.
pub proof fn challenge_gives_the_confirmed_password(entries: Seq<Seq<char>>)
    ensures
        challenge_run(entries).1 == confirmed_by(entries),
        challenge_run(entries).1 is None ==> challenge_run(entries).0 == (if entries.len() % 2
            == 0 {
            None
        } else {
            Some(entries.last())
        }),
    decreases entries.len(),
{
    if entries.len() > 0 {
        let before = entries.drop_last();
        challenge_gives_the_confirmed_password(before);
        confirmed_by_grows(before, entries.last());
        assert(before.push(entries.last()) =~= entries);
    }
}

/// What one more entry does to the password that a sequence of entries
/// confirms: nothing if a password is confirmed already or if the new
/// entry is the first of a pair; otherwise the new entry is the password
/// if it repeats the entry before it.
proof fn confirmed_by_grows(entries: Seq<Seq<char>>, entry: Seq<char>)
    ensures
        confirmed_by(entries.push(entry)) == (if confirmed_by(entries) is Some {
            confirmed_by(entries)
        } else if entries.len() % 2 == 1 && entries.last() == entry {
            Some(entry)
        } else {
            None
        }),
    decreases entries.len(),
{
    let more = entries.push(entry);
    if entries.len() >= 2 {
        assert(more[0] == entries[0] && more[1] == entries[1]);
        if entries[0] != entries[1] {
            let rest = entries.skip(2);
            confirmed_by_grows(rest, entry);
            assert(more.skip(2) =~= rest.push(entry));
            assert(confirmed_by(more) == confirmed_by(more.skip(2)));
            assert(confirmed_by(entries) == confirmed_by(rest));
            if rest.len() > 0 {
                assert(rest.last() == entries.last());
            }
        }
    } else if entries.len() == 1 {
        assert(more[0] == entries[0] && more[1] == entry);
        assert(more.skip(2).len() == 0);
        assert(confirmed_by(more.skip(2)) is None);
        assert(entries.last() == entries[0]);
    } else {
        assert(more.len() == 1);
    }
}

/// The challenge for a new password: the operator enters it twice, and
/// again until both entries are the same.
#[derive(Debug, PartialEq, Eq)]
pub struct PasswordChallenge {
    first: Option<String>,
}

impl PasswordChallenge {
    /// The entry that waits to be confirmed, if one does.
    pub closed spec fn kept(&self) -> Option<Seq<char>> {
        given(self.first)
    }

    /// A challenge that has seen no entry.
    pub fn new() -> (r: PasswordChallenge)
        ensures
            r.kept() is None,
    {
        PasswordChallenge { first: None }
    }

    /// Takes an entry. A password is given only when it was entered twice
    /// alike; entries that differ are erased and never given.
    pub fn enter(&mut self, entry: String) -> (r: ChallengeStep)
        ensures
            (final(self).kept(), r@) == challenge_next(old(self).kept(), entry@),
    {
        let mut held: Option<String> = None;
        std::mem::swap(&mut self.first, &mut held);
        match held {
            None => {
                self.first = Some(entry);
                ChallengeStep::Confirm
            },
            Some(first) => {
                let mut first = first;
                let same: bool = same_text(first.as_str(), entry.as_str());
                zeroize_text(&mut first);
                if same {
                    ChallengeStep::Confirmed(entry)
                } else {
                    let mut entry = entry;
                    zeroize_text(&mut entry);
                    ChallengeStep::Mismatch
                }
            },
        }
    }
}

/// Runs the challenge over a list of entries and gives the password that
/// they confirm. Whatever was entered is erased, but for the password
/// itself.
pub fn first_confirmed(entries: Vec<String>) -> (r: Option<String>)
    ensures
        given(r) == confirmed_by(crate::config::texts_of(entries@)),
{
    let ghost all = crate::config::texts_of(entries@);
    let mut entries = entries;
    let mut found: Option<String> = None;
    let mut i: usize = 0;
    let n: usize = entries.len();
    proof {
        assert(all.skip(0) =~= all);
    }
    while n - i >= 2 && found.is_none()
        invariant
            i <= n,
            n == entries@.len(),
            n == all.len(),
            forall|j: int| i <= j < n ==> (#[trigger] entries@[j])@ == all[j],
            match found {
                Some(p) => confirmed_by(all) == Some(p@),
                None => confirmed_by(all) == confirmed_by(all.skip(i as int)),
            },
        decreases n - i + (if found is None { 1int } else { 0int }),
    {
        let same: bool = same_text(entries[i].as_str(), entries[i + 1].as_str());
        proof {
            let rest = all.skip(i as int);
            assert(rest[0] == all[i as int]);
            assert(rest[1] == all[i + 1]);
            assert(rest.skip(2) =~= all.skip(i + 2));
        }
        if same {
            found = Some(entries[i].clone());
        } else {
            i = i + 2;
        }
    }
    while entries.len() > 0
        decreases entries@.len(),
    {
        match entries.pop() {
            Some(entry) => {
                let mut entry = entry;
                zeroize_text(&mut entry);
            },
            None => {},
        }
    }
    found
}

/// Compares the password with its confirmation and erases both buffers.
/// The password is given back only if both were the same.
pub fn confirm_password(first: &mut String, second: &mut String) -> (r: Option<String>)
    ensures
        final(first)@.len() == 0,
        final(second)@.len() == 0,
        given(r) == (if old(first)@ == old(second)@ {
            Some(old(first)@)
        } else {
            None
        }),
{
    let r: Option<String> = if same_text(first.as_str(), second.as_str()) {
        Some(first.clone())
    } else {
        None
    };
    zeroize_text(first);
    zeroize_text(second);
    r
}

} // verus!
