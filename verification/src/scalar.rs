//! The range of secrets that can be shared: big-endian numbers below the
//! order of the NIST P-256 group.

use vstd::prelude::*;
use crate::policy::KEY_LEN;

verus! {

/// The number that a byte string stands for, most significant byte first.
pub open spec fn be_value(bytes: Seq<u8>) -> nat
    decreases bytes.len(),
{
    if bytes.len() == 0 {
        0
    } else {
        be_value(bytes.drop_last()) * 256 + bytes.last() as nat
    }
}

/// The order of the group of NIST P-256, most significant byte first.
pub open spec fn order_bytes() -> Seq<u8> {
    seq![
        0xffu8, 0xff, 0xff, 0xff, 0x00, 0x00, 0x00, 0x00,
        0xff, 0xff, 0xff, 0xff, 0xff, 0xff, 0xff, 0xff,
        0xbc, 0xe6, 0xfa, 0xad, 0xa7, 0x17, 0x9e, 0x84,
        0xf3, 0xb9, 0xca, 0xc2, 0xfc, 0x63, 0x25, 0x51,
    ]
}

/// The order of the group of NIST P-256.
pub open spec fn group_order() -> nat {
    be_value(order_bytes())
}

/// A secret that the sharing primitive can read: a key-length byte string
/// whose value is below the group order.
pub open spec fn is_scalar(secret: Seq<u8>) -> bool {
    secret.len() == KEY_LEN && be_value(secret) < group_order()
}

/// Once a prefix is smaller, the whole is smaller.
proof fn smaller_prefix_decides(a: Seq<u8>, b: Seq<u8>, k: int)
    requires
        a.len() == b.len(),
        0 <= k <= a.len(),
        be_value(a.take(k)) < be_value(b.take(k)),
    ensures
        be_value(a) < be_value(b),
    decreases a.len() - k,
{
    if k == a.len() {
        assert(a.take(k) =~= a);
        assert(b.take(k) =~= b);
    } else {
        assert(a.take(k + 1).drop_last() =~= a.take(k));
        assert(b.take(k + 1).drop_last() =~= b.take(k));
        assert(a.take(k + 1).last() == a[k]);
        assert(b.take(k + 1).last() == b[k]);
        smaller_prefix_decides(a, b, k + 1);
    }
}

/// The order as an array, for comparing.
fn order_array() -> (r: [u8; 32])
    ensures
        r@ == order_bytes(),
{
    let r: [u8; 32] = [
        0xff, 0xff, 0xff, 0xff, 0x00, 0x00, 0x00, 0x00,
        0xff, 0xff, 0xff, 0xff, 0xff, 0xff, 0xff, 0xff,
        0xbc, 0xe6, 0xfa, 0xad, 0xa7, 0x17, 0x9e, 0x84,
        0xf3, 0xb9, 0xca, 0xc2, 0xfc, 0x63, 0x25, 0x51,
    ];
    assert(r@ =~= order_bytes());
    r
}

/// Whether a byte string is a secret that can be shared.
pub fn in_scalar_range(secret: &[u8]) -> (r: bool)
    ensures
        r == is_scalar(secret@),
{
    if secret.len() != KEY_LEN {
        return false;
    }
    let order: [u8; 32] = order_array();
    let mut i: usize = 0;
    while i < KEY_LEN
        invariant
            i <= KEY_LEN,
            secret@.len() == KEY_LEN,
            order@ == order_bytes(),
            secret@.take(i as int) == order@.take(i as int),
        decreases KEY_LEN - i,
    {
        let s: u8 = secret[i];
        let o: u8 = order[i];
        proof {
            assert(secret@.take(i + 1).drop_last() =~= secret@.take(i as int));
            assert(order@.take(i + 1).drop_last() =~= order@.take(i as int));
            assert(secret@.take(i + 1).last() == s);
            assert(order@.take(i + 1).last() == o);
        }
        if s < o {
            proof {
                smaller_prefix_decides(secret@, order@, i + 1);
            }
            return true;
        }
        if s > o {
            proof {
                smaller_prefix_decides(order@, secret@, i + 1);
            }
            return false;
        }
        assert(secret@.take(i + 1) =~= order@.take(i + 1));
        i = i + 1;
    }
    proof {
        assert(secret@.take(KEY_LEN as int) =~= secret@);
        assert(order@.take(KEY_LEN as int) =~= order@);
    }
    false
}

} // verus!
