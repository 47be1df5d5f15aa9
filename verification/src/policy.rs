//! Fixed policy of the keystore: sizes, thresholds and well-known object ids.

use vstd::prelude::*;

verus! {

/// Length in bytes of the wrap key.
pub const KEY_LEN: usize = 32;

/// Length in bytes of one share: an identifier byte followed by a field element.
pub const SHARE_LEN: usize = 33;

/// Number of characters of a share written as hexadecimal text.
pub const SHARE_HEX_LEN: usize = 66;

/// Number of shares the wrap key is split into.
pub const SHARES: u8 = 5;

/// Number of shares needed to rebuild the wrap key.
pub const THRESHOLD: u8 = 3;

/// Object id under which the wrap key is stored.
pub const WRAP_ID: u16 = 1;

/// Object id of the factory-default authentication credential.
pub const DEFAULT_AUTH_ID: u16 = 1;

/// Object id of the administrative authentication credential.
pub const AUTH_ID: u16 = 2;

/// Object id of the opaque object that holds the device attestation certificate.
pub const ATTEST_CERT_ID: u16 = 0;

/// Number of characters of a password drawn from the device.
pub const GEN_PASSWD_LENGTH: usize = 16;

/// First serial number of a new certificate authority.
pub const INITIAL_SERIAL: u32 = 1000;

/// The policy is a valid share set: the threshold is at least two and does not
/// exceed the number of shares, and a share holds one byte more than the key.
pub proof fn policy_is_valid()
    ensures
        2 <= THRESHOLD <= SHARES,
        SHARE_LEN == KEY_LEN + 1,
        SHARE_HEX_LEN == 2 * SHARE_LEN,
{
}

} // verus!
