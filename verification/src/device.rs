//! What the keystore takes from the `yubihsm` crate without talking to a
//! device: the limits of the device's fields and the derivation of an
//! authentication key from a password.

use vstd::prelude::*;
use vstd::utf8::encode_utf8;

verus! {

/// Number of bytes in the label field of an object.
pub const LABEL_SIZE: usize = 40;

/// Length in bytes of an authentication key.
pub const AUTH_KEY_LEN: usize = 32;

/// Every domain of a device, as a bit set.
pub const ALL_DOMAINS: u16 = 0xffff;

/// Every capability, as a bit set. Bits that name no capability are of no
/// effect.
pub const ALL_CAPABILITIES: u64 = 0xffff_ffff_ffff_ffff;

/// The authentication key that the device's tools derive from a password.
pub uninterp spec fn derived_auth_key(password: Seq<char>) -> Seq<u8>;

/// A label fits the device if its UTF-8 encoding does.
pub open spec fn label_fits(label: Seq<char>) -> bool {
    encode_utf8(label).len() <= LABEL_SIZE
}

/// The bit of the domain with a given number, counted from one.
pub open spec fn domain_bit(number: nat) -> Option<u16> {
    if number == 1 {
        Some(0x0001u16)
    } else if number == 2 {
        Some(0x0002u16)
    } else if number == 3 {
        Some(0x0004u16)
    } else if number == 4 {
        Some(0x0008u16)
    } else if number == 5 {
        Some(0x0010u16)
    } else if number == 6 {
        Some(0x0020u16)
    } else if number == 7 {
        Some(0x0040u16)
    } else if number == 8 {
        Some(0x0080u16)
    } else if number == 9 {
        Some(0x0100u16)
    } else if number == 10 {
        Some(0x0200u16)
    } else if number == 11 {
        Some(0x0400u16)
    } else if number == 12 {
        Some(0x0800u16)
    } else if number == 13 {
        Some(0x1000u16)
    } else if number == 14 {
        Some(0x2000u16)
    } else if number == 15 {
        Some(0x4000u16)
    } else if number == 16 {
        Some(0x8000u16)
    } else {
        None
    }
}

/// Calls `yubihsm::object::Label::from_bytes`, which takes a label of at
/// most forty bytes and refuses a longer one.
#[verifier::external_body]
pub(crate) fn label_accepted(label: &str) -> (r: bool)
    ensures
        r == label_fits(label@),
{
    yubihsm::object::Label::from_bytes(label.as_bytes()).is_ok()
}

/// Calls `yubihsm::Domain::at`, which gives the domain with a number from
/// one to sixteen and refuses any other number.
#[verifier::external_body]
pub(crate) fn domain_at(number: usize) -> (r: Option<u16>)
    ensures
        r == domain_bit(number as nat),
{
    yubihsm::Domain::at(number).ok().map(|d| d.bits())
}

/// Calls `yubihsm::authentication::Key::derive_from_password`, a key
/// derivation with a fixed salt and a fixed number of rounds: the same
/// password always gives the same key of thirty-two bytes.
#[verifier::external_body]
pub(crate) fn derive_auth_key(password: &str) -> (r: Vec<u8>)
    ensures
        r@ == derived_auth_key(password@),
        r@.len() == AUTH_KEY_LEN,
{
    yubihsm::authentication::Key::derive_from_password(password.as_bytes()).as_secret_slice().to_vec()
}

} // verus!
