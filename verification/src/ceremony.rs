//! The personalization of a device: a wrap key made of the device's own
//! randomness, an administrative credential derived from a password that the
//! operator confirms, the removal of the factory credential, and the
//! records that prove it.
//!
//! The ceremony is a state machine. The driver performs each action on the
//! device and reports what came of it; the machine allows no step before its
//! time and no way back.

use vstd::prelude::*;
use crate::device::{derive_auth_key, derived_auth_key, AUTH_KEY_LEN};
use crate::policy::{AUTH_ID, KEY_LEN, SHARES, THRESHOLD, WRAP_ID};
use crate::secret::{zeroize_bytes, zeroize_text};
use crate::error::HsmError;
use crate::sharing::{recombine_result, split, split_precheck, ShareSet, SplitError};
use crate::text::same_text;

verus! {

/// Label of the wrap key in the device.
pub const WRAP_LABEL: &'static str = "backup";

/// Label of the administrative credential in the device.
pub const AUTH_LABEL: &'static str = "admin";

/// Name of the file that keeps the administrative credential, wrapped.
pub const AUTH_BACKUP_FILE: &'static str = "admin.wrap.json";

/// Name of the file that keeps the attestation certificate of the device.
pub const ATTESTATION_FILE: &'static str = "hsm.attest.cert.pem";

/// How far the personalization of a device has come.
#[derive(Clone, Copy, Debug, PartialEq, Eq, Structural)]
pub enum Phase {
    /// The device has its factory credential and no wrap key.
    Fresh,
    /// The wrap key is in the device under its well-known id.
    WrapKeyInstalled,
    /// The administrative credential is in the device.
    AdminCredentialInstalled,
    /// The factory credential is gone.
    DefaultCredentialRemoved,
    /// The records are written; the device is personalized.
    Personalized,
    /// The device did not behave as assumed; the ceremony cannot go on.
    Aborted,
}

/// The reply that the ceremony waits for.
#[derive(Clone, Copy, Debug, PartialEq, Eq, Structural)]
pub enum Expect {
    /// The word to begin.
    Begin,
    /// Random bytes from the device.
    Random,
    /// The id under which the device stored the wrap key.
    WrapKeyId,
    /// A password, entered twice.
    Passwords,
    /// The id under which the device stored the credential.
    AuthKeyId,
    /// The deletion of the factory credential.
    Deleted,
    /// The export of the credential under the wrap key.
    Exported,
    /// The writing of the exported credential.
    BackupWritten,
    /// The attestation certificate of the device.
    Attestation,
    /// The writing of the attestation certificate.
    AttestationWritten,
    /// Nothing: the ceremony is over.
    Nothing,
}

/// Where a ceremony stands: the phase reached and the reply awaited.
#[derive(Clone, Copy, Debug, PartialEq, Eq, Structural)]
pub struct Control {
    /// The phase reached.
    pub phase: Phase,
    /// The reply awaited.
    pub expect: Expect,
}

/// What a reply amounts to, without the secrets it may carry.
#[derive(Clone, Copy, Debug, PartialEq, Eq, Structural)]
pub enum Signal {
    /// The ceremony is to begin.
    Begin,
    /// The device gave this many random bytes.
    Random(usize),
    /// The device stored an object under this id.
    Stored(u16),
    /// A password was entered twice; `true` if both entries are the same.
    Passwords(bool),
    /// The device deleted the object.
    Deleted,
    /// The device exported the object.
    Exported,
    /// The device gave the opaque object.
    Opaque,
    /// The file was written.
    Written,
    /// The device refused or could not be reached, or a file could not be
    /// written.
    Failed,
}

/// Why a ceremony was aborted.
#[derive(Clone, Copy, Debug, PartialEq, Eq, Structural)]
pub enum AbortReason {
    /// The device refused or could not be reached, or a file could not be
    /// written.
    Failed,
    /// The device gave another number of random bytes than a key has.
    WrongKeyLength,
    /// The device stored the wrap key under another id than the
    /// well-known one: it is not in the state assumed.
    WrapIdMismatch,
    /// The device stored the credential under another id than the
    /// well-known one.
    AuthIdMismatch,
}

/// What the ceremony asks of the driver next.
#[derive(Clone, Copy, Debug, PartialEq, Eq, Structural)]
pub enum CeremonyAction {
    /// Get `KEY_LEN` random bytes from the device.
    GetRandom,
    /// Store the wrap key that the ceremony holds.
    PutWrapKey,
    /// Ask the operator for the new password, twice; `true` if the last
    /// two entries differed.
    AskPasswords(bool),
    /// Store the administrative credential that the ceremony holds.
    PutAuthKey,
    /// Delete the factory credential: announce it first, it cannot be
    /// undone.
    DeleteDefaultCredential,
    /// Export the administrative credential under the wrap key.
    ExportAdminCredential,
    /// Write the exported credential to its file.
    WriteAdminBackup,
    /// Get the attestation certificate of the device.
    GetAttestation,
    /// Write the attestation certificate to its file.
    WriteAttestation,
    /// The device is personalized.
    Done,
    /// The ceremony is aborted.
    Abort(AbortReason),
    /// The reply does not answer what was asked; nothing changed.
    Rejected,
}

/// A control state that waits for a reply in a phase.
pub open spec fn at(phase: Phase, expect: Expect) -> Control {
    Control { phase, expect }
}

/// The control state of an aborted ceremony.
pub open spec fn aborted() -> Control {
    at(Phase::Aborted, Expect::Nothing)
}

/// The control state and the action that follow a reply.
pub open spec fn ceremony_next(control: Control, signal: Signal) -> (Control, CeremonyAction) {
    if control.expect is Nothing {
        (control, CeremonyAction::Rejected)
    } else if signal is Failed {
        (aborted(), CeremonyAction::Abort(AbortReason::Failed))
    } else {
        match (control.expect, signal) {
            (Expect::Begin, Signal::Begin) => (
                at(control.phase, Expect::Random),
                CeremonyAction::GetRandom,
            ),
            (Expect::Random, Signal::Random(len)) => if len == KEY_LEN {
                (at(control.phase, Expect::WrapKeyId), CeremonyAction::PutWrapKey)
            } else {
                (aborted(), CeremonyAction::Abort(AbortReason::WrongKeyLength))
            },
            (Expect::WrapKeyId, Signal::Stored(id)) => if id == WRAP_ID {
                (
                    at(Phase::WrapKeyInstalled, Expect::Passwords),
                    CeremonyAction::AskPasswords(false),
                )
            } else {
                (aborted(), CeremonyAction::Abort(AbortReason::WrapIdMismatch))
            },
            (Expect::Passwords, Signal::Passwords(same)) => if same {
                (at(control.phase, Expect::AuthKeyId), CeremonyAction::PutAuthKey)
            } else {
                (control, CeremonyAction::AskPasswords(true))
            },
            (Expect::AuthKeyId, Signal::Stored(id)) => if id == AUTH_ID {
                (
                    at(Phase::AdminCredentialInstalled, Expect::Deleted),
                    CeremonyAction::DeleteDefaultCredential,
                )
            } else {
                (aborted(), CeremonyAction::Abort(AbortReason::AuthIdMismatch))
            },
            (Expect::Deleted, Signal::Deleted) => (
                at(Phase::DefaultCredentialRemoved, Expect::Exported),
                CeremonyAction::ExportAdminCredential,
            ),
            (Expect::Exported, Signal::Exported) => (
                at(control.phase, Expect::BackupWritten),
                CeremonyAction::WriteAdminBackup,
            ),
            (Expect::BackupWritten, Signal::Written) => (
                at(control.phase, Expect::Attestation),
                CeremonyAction::GetAttestation,
            ),
            (Expect::Attestation, Signal::Opaque) => (
                at(control.phase, Expect::AttestationWritten),
                CeremonyAction::WriteAttestation,
            ),
            (Expect::AttestationWritten, Signal::Written) => (
                at(Phase::Personalized, Expect::Nothing),
                CeremonyAction::Done,
            ),
            _ => (control, CeremonyAction::Rejected),
        }
    }
}

/// A control state that a ceremony can be in: each awaited reply belongs
/// to one phase.
pub open spec fn coherent(control: Control) -> bool {
    match control.expect {
        Expect::Begin | Expect::Random | Expect::WrapKeyId => control.phase is Fresh,
        Expect::Passwords | Expect::AuthKeyId => control.phase is WrapKeyInstalled,
        Expect::Deleted => control.phase is AdminCredentialInstalled,
        Expect::Exported
        | Expect::BackupWritten
        | Expect::Attestation
        | Expect::AttestationWritten => control.phase is DefaultCredentialRemoved,
        Expect::Nothing => control.phase is Personalized || control.phase is Aborted,
    }
}

/// What the driver reports to the ceremony.
#[derive(Debug, PartialEq, Eq)]
pub enum CeremonyEvent {
    /// The ceremony is to begin.
    Begin,
    /// The random bytes that the device gave.
    Random(Vec<u8>),
    /// The id under which the device stored the object.
    Stored(u16),
    /// The password as the operator entered it, and as entered again.
    Passwords(String, String),
    /// The device deleted the object.
    Deleted,
    /// The device exported the object.
    Exported,
    /// The device gave the opaque object.
    Opaque,
    /// The file was written.
    Written,
    /// The device refused or could not be reached, or a file could not be
    /// written.
    Failed,
}

impl CeremonyEvent {
    /// What the event amounts to.
    pub open spec fn signal(&self) -> Signal {
        match self {
            CeremonyEvent::Begin => Signal::Begin,
            CeremonyEvent::Random(bytes) => Signal::Random(bytes@.len() as usize),
            CeremonyEvent::Stored(id) => Signal::Stored(*id),
            CeremonyEvent::Passwords(first, second) => Signal::Passwords(first@ == second@),
            CeremonyEvent::Deleted => Signal::Deleted,
            CeremonyEvent::Exported => Signal::Exported,
            CeremonyEvent::Opaque => Signal::Opaque,
            CeremonyEvent::Written => Signal::Written,
            CeremonyEvent::Failed => Signal::Failed,
        }
    }
}

/// The personalization of one device.
#[derive(Debug, PartialEq, Eq)]
pub struct Ceremony {
    control: Control,
    wrap_key: Vec<u8>,
    auth_key: Vec<u8>,
}

impl Ceremony {
    #[verifier::type_invariant]
    spec fn well_formed(self) -> bool {
        &&& coherent(self.control)
        &&& self.wrap_key@.len() == 0 || self.wrap_key@.len() == KEY_LEN
        &&& self.auth_key@.len() == 0 || self.auth_key@.len() == AUTH_KEY_LEN
        &&& self.control.expect is WrapKeyId ==> self.wrap_key@.len() == KEY_LEN
        &&& self.control.expect is AuthKeyId ==> self.auth_key@.len() == AUTH_KEY_LEN
        &&& self.control.phase is Aborted ==> self.wrap_key@.len() == 0 && self.auth_key@.len()
            == 0
    }

    /// Where the ceremony stands.
    pub closed spec fn spec_control(&self) -> Control {
        self.control
    }

    /// The wrap key that the ceremony holds; empty if it holds none.
    pub closed spec fn spec_wrap_key(&self) -> Seq<u8> {
        self.wrap_key@
    }

    /// The administrative key that the ceremony holds; empty if it holds
    /// none.
    pub closed spec fn spec_auth_key(&self) -> Seq<u8> {
        self.auth_key@
    }

    /// A ceremony for a device in its factory state. It holds no secret.
    pub fn new() -> (r: Ceremony)
        ensures
            r.spec_control() == at(Phase::Fresh, Expect::Begin),
            r.spec_wrap_key().len() == 0,
            r.spec_auth_key().len() == 0,
    {
        Ceremony {
            control: Control { phase: Phase::Fresh, expect: Expect::Begin },
            wrap_key: Vec::new(),
            auth_key: Vec::new(),
        }
    }

    /// Where the ceremony stands.
    pub fn control(&self) -> (r: Control)
        ensures
            r == self.spec_control(),
            coherent(r),
    {
        proof {
            use_type_invariant(self);
        }
        self.control
    }

    /// The phase that the ceremony has reached.
    pub fn phase(&self) -> (r: Phase)
        ensures
            r == self.spec_control().phase,
    {
        self.control.phase
    }

    /// The wrap key to store in the device, while the ceremony holds it.
    pub fn wrap_key(&self) -> (r: &Vec<u8>)
        ensures
            r@ == self.spec_wrap_key(),
            r@.len() == 0 || r@.len() == KEY_LEN,
            self.spec_control().expect is WrapKeyId ==> r@.len() == KEY_LEN,
    {
        proof {
            use_type_invariant(self);
        }
        &self.wrap_key
    }

    /// The administrative key to store in the device, while the ceremony
    /// holds it.
    pub fn auth_key(&self) -> (r: &Vec<u8>)
        ensures
            r@ == self.spec_auth_key(),
            r@.len() == 0 || r@.len() == AUTH_KEY_LEN,
            self.spec_control().expect is AuthKeyId ==> r@.len() == AUTH_KEY_LEN,
    {
        proof {
            use_type_invariant(self);
        }
        &self.auth_key
    }
}

/// Why the wrap key was not split.
#[derive(Clone, Copy, Debug, PartialEq, Eq, Structural)]
pub enum SplitRefusal {
    /// The wrap key is not yet in the device.
    NotInstalled,
    /// The ceremony holds no wrap key: it was split before, or erased.
    NoKey,
    /// The split itself failed.
    Split(SplitError),
}

/// The wrap key that a ceremony holds after a reply.
pub open spec fn wrap_key_after(
    before: Seq<u8>,
    event: CeremonyEvent,
    action: CeremonyAction,
) -> Seq<u8> {
    match action {
        CeremonyAction::PutWrapKey => event->Random_0@,
        CeremonyAction::Abort(_) => Seq::empty(),
        _ => before,
    }
}

/// The administrative key that a ceremony holds after a reply: derived
/// from the password once it is confirmed, and erased as soon as the
/// device has stored it.
pub open spec fn auth_key_after(
    before: Seq<u8>,
    event: CeremonyEvent,
    action: CeremonyAction,
) -> Seq<u8> {
    match action {
        CeremonyAction::PutAuthKey => derived_auth_key(event->Passwords_0@),
        CeremonyAction::DeleteDefaultCredential => Seq::empty(),
        CeremonyAction::Abort(_) => Seq::empty(),
        _ => before,
    }
}

impl Ceremony {
    /// Ends the ceremony and erases what it holds.
    fn abort(&mut self)
        ensures
            final(self).spec_control() == aborted(),
            final(self).spec_wrap_key().len() == 0,
            final(self).spec_auth_key().len() == 0,
    {
        let mut gone = Ceremony {
            control: Control { phase: Phase::Aborted, expect: Expect::Nothing },
            wrap_key: Vec::new(),
            auth_key: Vec::new(),
        };
        std::mem::swap(self, &mut gone);
        let Ceremony { control: _, wrap_key, auth_key } = gone;
        let mut wrap_key = wrap_key;
        let mut auth_key = auth_key;
        zeroize_bytes(&mut wrap_key);
        zeroize_bytes(&mut auth_key);
    }

    /// Erases the wrap key that the ceremony holds.
    fn erase_wrap_key(&mut self)
        requires
            !(old(self).control.expect is WrapKeyId),
        ensures
            final(self).control == old(self).control,
            final(self).auth_key == old(self).auth_key,
            final(self).wrap_key@ == Seq::<u8>::empty(),
    {
        proof {
            use_type_invariant(&*self);
        }
        let mut held: Vec<u8> = Vec::new();
        std::mem::swap(&mut self.wrap_key, &mut held);
        zeroize_bytes(&mut held);
    }

    /// Erases the administrative key that the ceremony holds.
    fn erase_auth_key(&mut self)
        requires
            !(old(self).control.expect is AuthKeyId),
        ensures
            final(self).control == old(self).control,
            final(self).wrap_key == old(self).wrap_key,
            final(self).auth_key@ == Seq::<u8>::empty(),
    {
        proof {
            use_type_invariant(&*self);
        }
        let mut held: Vec<u8> = Vec::new();
        std::mem::swap(&mut self.auth_key, &mut held);
        zeroize_bytes(&mut held);
    }

    /// Erases the secrets that the ceremony holds, whatever its phase.
    /// A key that the device has yet to store is not erased.
    pub fn forget(&mut self)
        ensures
            final(self).spec_control() == old(self).spec_control(),
            final(self).spec_wrap_key() == (if old(self).spec_control().expect is WrapKeyId {
                old(self).spec_wrap_key()
            } else {
                Seq::empty()
            }),
            final(self).spec_auth_key() == (if old(self).spec_control().expect is AuthKeyId {
                old(self).spec_auth_key()
            } else {
                Seq::empty()
            }),
    {
        proof {
            use_type_invariant(&*self);
        }
        match self.control.expect {
            Expect::WrapKeyId => {
                self.erase_auth_key();
            },
            Expect::AuthKeyId => {
                self.erase_wrap_key();
            },
            _ => {
                self.erase_wrap_key();
                self.erase_auth_key();
            },
        }
    }

    /// Splits the wrap key by the policy of the keystore, once the key is
    /// in the device. After a split that succeeded the ceremony holds the
    /// key no longer: it lives on in the device and in the shares.
    pub fn split_wrap_key(&mut self) -> (r: Result<ShareSet, SplitRefusal>)
        ensures
            final(self).spec_control() == old(self).spec_control(),
            final(self).spec_auth_key() == old(self).spec_auth_key(),
            match r {
                Ok(set) => {
                    &&& !(old(self).spec_control().phase is Fresh)
                    &&& old(self).spec_wrap_key().len() == KEY_LEN
                    &&& final(self).spec_wrap_key().len() == 0
                    &&& set.share_views().len() == SHARES
                    &&& set.spec_verifier().spec_threshold() == THRESHOLD
                    &&& forall|i: int|
                        0 <= i < SHARES ==> set.spec_verifier().accepts(
                            #[trigger] set.share_views()[i],
                        )
                    &&& set.spec_verifier().commits_to(old(self).spec_wrap_key())
                    &&& recombine_result(
                        set.share_views().take(THRESHOLD as int),
                        set.spec_verifier(),
                    ) == Ok::<Seq<u8>, HsmError>(old(self).spec_wrap_key())
                },
                Err(e) => {
                    &&& final(self).spec_wrap_key() == old(self).spec_wrap_key()
                    &&& e is NotInstalled <==> old(self).spec_control().phase is Fresh
                    &&& e is NoKey <==> !(old(self).spec_control().phase is Fresh) && old(
                        self,
                    ).spec_wrap_key().len() != KEY_LEN
                    &&& e matches SplitRefusal::Split(cause) ==> cause == (match split_precheck(
                        old(self).spec_wrap_key(),
                        SHARES,
                        THRESHOLD,
                    ) {
                        Some(fault) => fault,
                        None => SplitError::Rejected,
                    })
                },
            },
    {
        proof {
            use_type_invariant(&*self);
        }
        if let Phase::Fresh = self.control.phase {
            return Err(SplitRefusal::NotInstalled);
        }
        if self.wrap_key.len() != KEY_LEN {
            return Err(SplitRefusal::NoKey);
        }
        match split(self.wrap_key.as_slice(), SHARES, THRESHOLD) {
            Ok(set) => {
                self.erase_wrap_key();
                Ok(set)
            },
            Err(e) => Err(SplitRefusal::Split(e)),
        }
    }
}

/// The part of the ceremony that follows the wrap key: the
/// administrative credential is derived from the password that the
/// operator entered twice alike, stored, and the factory credential
/// removed; the credential is exported under the wrap key and the
/// attestation of the device collected.
fn personalize(ceremony: &mut Ceremony, event: CeremonyEvent) -> (action: CeremonyAction)
    requires
        !(old(ceremony).spec_control().phase is Fresh),
        !(old(ceremony).spec_control().expect is Nothing),
        !(event is Failed),
    ensures
        (final(ceremony).spec_control(), action) == ceremony_next(
            old(ceremony).spec_control(),
            event.signal(),
        ),
        final(ceremony).spec_wrap_key() == wrap_key_after(
            old(ceremony).spec_wrap_key(),
            event,
            action,
        ),
        final(ceremony).spec_auth_key() == auth_key_after(
            old(ceremony).spec_auth_key(),
            event,
            action,
        ),
{
    proof {
        use_type_invariant(&*ceremony);
    }
    let expect: Expect = ceremony.control.expect;
    let phase: Phase = ceremony.control.phase;
    match event {
        CeremonyEvent::Passwords(first, second) => {
            let mut first = first;
            let mut second = second;
            let action = if let Expect::Passwords = expect {
                if same_text(first.as_str(), second.as_str()) {
                    let key: Vec<u8> = derive_auth_key(first.as_str());
                    ceremony.erase_auth_key();
                    ceremony.auth_key = key;
                    ceremony.control = Control { phase, expect: Expect::AuthKeyId };
                    CeremonyAction::PutAuthKey
                } else {
                    CeremonyAction::AskPasswords(true)
                }
            } else {
                CeremonyAction::Rejected
            };
            zeroize_text(&mut first);
            zeroize_text(&mut second);
            action
        },
        CeremonyEvent::Stored(id) => {
            if let Expect::AuthKeyId = expect {
                if id == AUTH_ID {
                    ceremony.control = Control {
                        phase: Phase::AdminCredentialInstalled,
                        expect: Expect::Deleted,
                    };
                    ceremony.erase_auth_key();
                    CeremonyAction::DeleteDefaultCredential
                } else {
                    ceremony.abort();
                    CeremonyAction::Abort(AbortReason::AuthIdMismatch)
                }
            } else {
                CeremonyAction::Rejected
            }
        },
        CeremonyEvent::Deleted => {
            if let Expect::Deleted = expect {
                ceremony.control = Control {
                    phase: Phase::DefaultCredentialRemoved,
                    expect: Expect::Exported,
                };
                CeremonyAction::ExportAdminCredential
            } else {
                CeremonyAction::Rejected
            }
        },
        CeremonyEvent::Exported => {
            if let Expect::Exported = expect {
                ceremony.control = Control { phase, expect: Expect::BackupWritten };
                CeremonyAction::WriteAdminBackup
            } else {
                CeremonyAction::Rejected
            }
        },
        CeremonyEvent::Written => {
            match expect {
                Expect::BackupWritten => {
                    ceremony.control = Control { phase, expect: Expect::Attestation };
                    CeremonyAction::GetAttestation
                },
                Expect::AttestationWritten => {
                    ceremony.control = Control {
                        phase: Phase::Personalized,
                        expect: Expect::Nothing,
                    };
                    CeremonyAction::Done
                },
                _ => CeremonyAction::Rejected,
            }
        },
        CeremonyEvent::Opaque => {
            if let Expect::Attestation = expect {
                ceremony.control = Control { phase, expect: Expect::AttestationWritten };
                CeremonyAction::WriteAttestation
            } else {
                CeremonyAction::Rejected
            }
        },
        CeremonyEvent::Random(bytes) => {
            let mut bytes = bytes;
            zeroize_bytes(&mut bytes);
            CeremonyAction::Rejected
        },
        CeremonyEvent::Begin => CeremonyAction::Rejected,
        CeremonyEvent::Failed => CeremonyAction::Rejected,
    }
}

/// Takes the ceremony one step further: reads the reply of the driver and
/// says what to do next.
///
/// A new device gets a wrap key of its own randomness under the
/// well-known id; any other id shows that the device is not in the state
/// assumed, and the ceremony is aborted. What follows the wrap key is the
/// work of `personalize`. Any failure aborts the ceremony, and an aborted
/// ceremony holds no secret.
pub fn hsm_initialize(ceremony: &mut Ceremony, event: CeremonyEvent) -> (action: CeremonyAction)
    ensures
        (final(ceremony).spec_control(), action) == ceremony_next(
            old(ceremony).spec_control(),
            event.signal(),
        ),
        final(ceremony).spec_wrap_key() == wrap_key_after(
            old(ceremony).spec_wrap_key(),
            event,
            action,
        ),
        final(ceremony).spec_auth_key() == auth_key_after(
            old(ceremony).spec_auth_key(),
            event,
            action,
        ),
        coherent(final(ceremony).spec_control()),
{
    proof {
        use_type_invariant(&*ceremony);
    }
    let expect: Expect = ceremony.control.expect;
    let phase: Phase = ceremony.control.phase;
    if let Expect::Nothing = expect {
        match event {
            CeremonyEvent::Random(bytes) => {
                let mut bytes = bytes;
                zeroize_bytes(&mut bytes);
            },
            CeremonyEvent::Passwords(first, second) => {
                let mut first = first;
                let mut second = second;
                zeroize_text(&mut first);
                zeroize_text(&mut second);
            },
            _ => {},
        }
        return CeremonyAction::Rejected;
    }
    if let CeremonyEvent::Failed = event {
        ceremony.abort();
        return CeremonyAction::Abort(AbortReason::Failed);
    }
    match phase {
        Phase::Fresh => {},
        _ => {
            let action = personalize(ceremony, event);
            proof {
                use_type_invariant(&*ceremony);
            }
            return action;
        },
    }
    let action = match event {
        CeremonyEvent::Begin => {
            if let Expect::Begin = expect {
                ceremony.control = Control { phase, expect: Expect::Random };
                CeremonyAction::GetRandom
            } else {
                CeremonyAction::Rejected
            }
        },
        CeremonyEvent::Random(bytes) => {
            let mut bytes = bytes;
            if let Expect::Random = expect {
                if bytes.len() == KEY_LEN {
                    ceremony.erase_wrap_key();
                    ceremony.wrap_key = bytes;
                    ceremony.control = Control { phase, expect: Expect::WrapKeyId };
                    CeremonyAction::PutWrapKey
                } else {
                    zeroize_bytes(&mut bytes);
                    ceremony.abort();
                    CeremonyAction::Abort(AbortReason::WrongKeyLength)
                }
            } else {
                zeroize_bytes(&mut bytes);
                CeremonyAction::Rejected
            }
        },
        CeremonyEvent::Stored(id) => {
            if let Expect::WrapKeyId = expect {
                if id == WRAP_ID {
                    ceremony.control = Control {
                        phase: Phase::WrapKeyInstalled,
                        expect: Expect::Passwords,
                    };
                    CeremonyAction::AskPasswords(false)
                } else {
                    ceremony.abort();
                    CeremonyAction::Abort(AbortReason::WrapIdMismatch)
                }
            } else {
                CeremonyAction::Rejected
            }
        },
        CeremonyEvent::Passwords(first, second) => {
            let mut first = first;
            let mut second = second;
            zeroize_text(&mut first);
            zeroize_text(&mut second);
            CeremonyAction::Rejected
        },
        _ => CeremonyAction::Rejected,
    };
    proof {
        use_type_invariant(&*ceremony);
    }
    action
}

/// The control state of a ceremony that has not begun.
pub open spec fn initial() -> Control {
    at(Phase::Fresh, Expect::Begin)
}

/// The control state of a ceremony after a sequence of replies.
pub open spec fn control_after(signals: Seq<Signal>) -> Control
    decreases signals.len(),
{
    if signals.len() == 0 {
        initial()
    } else {
        ceremony_next(control_after(signals.drop_last()), signals.last()).0
    }
}

/// The action that answers the reply with a given number in a sequence of
/// replies.
pub open spec fn action_at(signals: Seq<Signal>, k: int) -> CeremonyAction {
    ceremony_next(control_after(signals.take(k)), signals[k]).1
}

/// The place of a phase in the order of the ceremony.
pub open spec fn rank(phase: Phase) -> int {
    match phase {
        Phase::Fresh => 0,
        Phase::WrapKeyInstalled => 1,
        Phase::AdminCredentialInstalled => 2,
        Phase::DefaultCredentialRemoved => 3,
        Phase::Personalized => 4,
        Phase::Aborted => 5,
    }
}

/// No reply takes a ceremony back, and none lets it skip a phase: after a
/// reply the ceremony is in the phase it was in, or in the next, or
/// aborted. An aborted or personalized ceremony stays as it is.
pub proof fn ceremony_takes_no_shortcut(control: Control, signal: Signal)
    requires
        coherent(control),
    ensures
        coherent(ceremony_next(control, signal).0),
        ({
            let after = ceremony_next(control, signal).0;
            ||| after.phase == control.phase
            ||| rank(after.phase) == rank(control.phase) + 1
            ||| after.phase is Aborted
        }),
        control.expect is Nothing ==> ceremony_next(control, signal).0 == control,
{
}

/// Each action belongs to one phase. In particular the factory
/// credential is deleted only by a ceremony whose wrap key is installed,
/// in the very step in which the administrative credential is confirmed.
pub proof fn ceremony_actions_in_phase(control: Control, signal: Signal)
    requires
        coherent(control),
    ensures
        ({
            let (after, action) = ceremony_next(control, signal);
            &&& action is GetRandom || action is PutWrapKey ==> control.phase is Fresh
            &&& action is AskPasswords || action is PutAuthKey ==> after.phase
                is WrapKeyInstalled
            &&& action is DeleteDefaultCredential ==> control.phase is WrapKeyInstalled
                && after.phase is AdminCredentialInstalled
            &&& action is ExportAdminCredential ==> control.phase is AdminCredentialInstalled
                && after.phase is DefaultCredentialRemoved
            &&& action is WriteAdminBackup || action is GetAttestation || action
                is WriteAttestation ==> control.phase is DefaultCredentialRemoved
            &&& action is Done <==> after.phase is Personalized && !(control.phase
                is Personalized)
            &&& action is Abort <==> after.phase is Aborted && !(control.phase is Aborted)
        }),
{
}

/// Every state that a ceremony reaches is coherent.
pub proof fn ceremony_stays_coherent(signals: Seq<Signal>)
    ensures
        coherent(control_after(signals)),
    decreases signals.len(),
{
    if signals.len() > 0 {
        ceremony_stays_coherent(signals.drop_last());
        ceremony_takes_no_shortcut(control_after(signals.drop_last()), signals.last());
    }
}

/// The phase of a ceremony after the first `k` replies of a sequence.
pub open spec fn phase_after(signals: Seq<Signal>, k: int) -> Phase {
    control_after(signals.take(k)).phase
}

/// The order of the ceremony cannot be broken. Whatever replies the
/// driver gives, a ceremony that has installed the administrative
/// credential has installed the wrap key before, and one that has removed
/// the factory credential has done both before, in that order.
pub proof fn ceremony_order(signals: Seq<Signal>)
    ensures
        ({
            let phase = control_after(signals).phase;
            &&& 1 <= rank(phase) <= 4 ==> exists|i: int|
                0 < i <= signals.len() && #[trigger] phase_after(signals, i)
                    is WrapKeyInstalled
            &&& 2 <= rank(phase) <= 4 ==> exists|i: int, j: int|
                0 < i < j <= signals.len() && #[trigger] phase_after(signals, i)
                    is WrapKeyInstalled && #[trigger] phase_after(signals, j)
                    is AdminCredentialInstalled
            &&& 3 <= rank(phase) <= 4 ==> exists|i: int, j: int, k: int|
                0 < i < j < k <= signals.len() && #[trigger] phase_after(signals, i)
                    is WrapKeyInstalled && #[trigger] phase_after(signals, j)
                    is AdminCredentialInstalled && #[trigger] phase_after(signals, k)
                    is DefaultCredentialRemoved
        }),
    decreases signals.len(),
{
    let n = signals.len() as int;
    if n > 0 {
        let before = signals.drop_last();
        ceremony_order(before);
        ceremony_stays_coherent(before);
        ceremony_takes_no_shortcut(control_after(before), signals.last());
        assert(signals.take(n) =~= signals);
        assert forall|i: int| 0 <= i < n implies phase_after(before, i) == phase_after(
            signals,
            i,
        ) by {
            assert(before.take(i) =~= signals.take(i));
        }
        assert(before.take(n - 1) =~= before);
        assert(signals.take(n - 1) =~= before);
        let prior = control_after(before).phase;
        let phase = control_after(signals).phase;
        assert(phase_after(signals, n) == phase);
        assert(phase_after(signals, n - 1) == prior);
        if 1 <= rank(phase) <= 4 {
            if phase == prior {
                let i = choose|i: int|
                    0 < i <= before.len() && #[trigger] phase_after(before, i)
                        is WrapKeyInstalled;
                assert(phase_after(signals, i) is WrapKeyInstalled);
            } else if rank(phase) == 1 {
                assert(phase_after(signals, n) is WrapKeyInstalled);
            } else {
                let i = choose|i: int|
                    0 < i <= before.len() && #[trigger] phase_after(before, i)
                        is WrapKeyInstalled;
                assert(phase_after(signals, i) is WrapKeyInstalled);
            }
        }
        if 2 <= rank(phase) <= 4 {
            if phase == prior || rank(phase) > 2 {
                let (i, j) = choose|i: int, j: int|
                    0 < i < j <= before.len() && #[trigger] phase_after(before, i)
                        is WrapKeyInstalled && #[trigger] phase_after(before, j)
                        is AdminCredentialInstalled;
                assert(phase_after(signals, i) is WrapKeyInstalled);
                assert(phase_after(signals, j) is AdminCredentialInstalled);
            } else {
                let i = choose|i: int|
                    0 < i <= before.len() && #[trigger] phase_after(before, i)
                        is WrapKeyInstalled;
                assert(phase_after(signals, i) is WrapKeyInstalled);
                assert(phase_after(signals, n) is AdminCredentialInstalled);
            }
        }
        if 3 <= rank(phase) <= 4 {
            if phase == prior || rank(phase) > 3 {
                let (i, j, k) = choose|i: int, j: int, k: int|
                    0 < i < j < k <= before.len() && #[trigger] phase_after(before, i)
                        is WrapKeyInstalled && #[trigger] phase_after(before, j)
                        is AdminCredentialInstalled && #[trigger] phase_after(before, k)
                        is DefaultCredentialRemoved;
                assert(phase_after(signals, i) is WrapKeyInstalled);
                assert(phase_after(signals, j) is AdminCredentialInstalled);
                assert(phase_after(signals, k) is DefaultCredentialRemoved);
            } else {
                let (i, j) = choose|i: int, j: int|
                    0 < i < j <= before.len() && #[trigger] phase_after(before, i)
                        is WrapKeyInstalled && #[trigger] phase_after(before, j)
                        is AdminCredentialInstalled;
                assert(phase_after(signals, i) is WrapKeyInstalled);
                assert(phase_after(signals, j) is AdminCredentialInstalled);
                assert(phase_after(signals, n) is DefaultCredentialRemoved);
            }
        }
    }
}

/// The factory credential is never deleted before the wrap key is
/// installed: whenever the ceremony asks for the deletion, it had
/// confirmed the wrap key after some earlier reply.
pub proof fn deletion_follows_wrap_key(signals: Seq<Signal>, k: int)
    requires
        0 <= k < signals.len(),
        action_at(signals, k) is DeleteDefaultCredential,
    ensures
        exists|i: int| 0 < i <= k && #[trigger] phase_after(signals, i) is WrapKeyInstalled,
        phase_after(signals, k) is WrapKeyInstalled,
        phase_after(signals, k + 1) is AdminCredentialInstalled,
{
    let before = signals.take(k);
    ceremony_stays_coherent(before);
    ceremony_actions_in_phase(control_after(before), signals[k]);
    ceremony_order(before);
    assert(signals.take(k + 1).drop_last() =~= before);
    assert(signals.take(k + 1).last() == signals[k]);
    let i = choose|i: int|
        0 < i <= before.len() && #[trigger] phase_after(before, i) is WrapKeyInstalled;
    assert(before.take(i) =~= signals.take(i));
    assert(phase_after(signals, i) is WrapKeyInstalled);
}

} // verus!
