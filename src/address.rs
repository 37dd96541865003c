//! The script an address stands for, read from the address's decoded
//! payload.
use vstd::prelude::*;

use crate::codec::copy_range;
use crate::script::{Script, ScriptModel, HASH_SIZE};

verus! {

/// Payload format of a full address: code hash, hash type and arguments.
pub const FULL_FORMAT: u8 = 0x00;

/// Payload format of a short address: a code index and 20 argument bytes.
pub const SHORT_FORMAT: u8 = 0x01;

/// Code index of the default signature lock in a short address.
pub const SHORT_SIGHASH_INDEX: u8 = 0x00;

/// Bytes of the arguments of the default signature lock.
pub const BLAKE160_SIZE: usize = 20;

/// Code hash of the default signature lock (secp256k1 over blake160).
pub open spec fn sighash_code_hash() -> Seq<u8> {
    seq![
        0x9bu8, 0xd7, 0xe0, 0x6f, 0x3e, 0xcf, 0x4b, 0xe0, 0xf2, 0xfc, 0xd2, 0x18, 0x8b, 0x23, 0xf1,
        0xb9, 0xfc, 0xc8, 0x8e, 0x5d, 0x4b, 0x65, 0xa8, 0x63, 0x7b, 0x17, 0x72, 0x3b, 0xbd, 0xa3,
        0xcc, 0xe8,
    ]
}

/// Whether `t` is a hash type the ledger knows: data, type, data1, data2.
pub open spec fn known_hash_type(t: u8) -> bool {
    t == 0 || t == 1 || t == 2 || t == 4
}

/// The script a decoded address payload stands for.
pub open spec fn script_of_payload(p: Seq<u8>) -> Option<ScriptModel> {
    if p.len() >= 34 && p[0] == FULL_FORMAT && known_hash_type(p[33]) {
        Some(ScriptModel { code_hash: p.subrange(1, 33), hash_type: p[33], args: p.subrange(34, p.len() as int) })
    } else if p.len() == 2 + BLAKE160_SIZE && p[0] == SHORT_FORMAT && p[1] == SHORT_SIGHASH_INDEX {
        Some(ScriptModel { code_hash: sighash_code_hash(), hash_type: 1, args: p.subrange(2, p.len() as int) })
    } else {
        None
    }
}

fn sighash_code_hash_bytes() -> (r: Vec<u8>)
    ensures
        r@ == sighash_code_hash(),
{
    let r = vec![
        0x9bu8, 0xd7, 0xe0, 0x6f, 0x3e, 0xcf, 0x4b, 0xe0, 0xf2, 0xfc, 0xd2, 0x18, 0x8b, 0x23, 0xf1,
        0xb9, 0xfc, 0xc8, 0x8e, 0x5d, 0x4b, 0x65, 0xa8, 0x63, 0x7b, 0x17, 0x72, 0x3b, 0xbd, 0xa3,
        0xcc, 0xe8,
    ];
    assert(r@ =~= sighash_code_hash());
    r
}

/// The script a decoded address payload stands for: a full payload names
/// it outright, a short one the default signature lock with its arguments.
pub fn script_from_address_payload(p: &[u8]) -> (r: Option<Script>)
    ensures
        match r {
            Some(s) => script_of_payload(p@) == Some(s@),
            None => script_of_payload(p@) is None,
        },
{
    let n = p.len();
    if n >= 1 + HASH_SIZE + 1 && p[0] == FULL_FORMAT {
        let t = p[33];
        if t == 0 || t == 1 || t == 2 || t == 4 {
            return Some(Script::new(copy_range(p, 1, 33), t, copy_range(p, 34, n)));
        }
        return None;
    }
    if n == 2 + BLAKE160_SIZE && p[0] == SHORT_FORMAT && p[1] == SHORT_SIGHASH_INDEX {
        return Some(Script::new(sighash_code_hash_bytes(), 1, copy_range(p, 2, n)));
    }
    None
}

} // verus!
