//! Ford configuration-access seed→key derivation (security access level 0x01).
//!
//! The key is the big-endian seed word XOR-ed with the mask `0xB3CA_4057`, the commonly
//! documented value for Fusion configuration access; it requires validation against a
//! real ECU before being relied upon.

use vstd::prelude::*;
use crate::error::{Error, is_protocol_error};
use crate::text::{dec_chars, push_decimal};

verus! {

/// The four bytes of the XOR mask, most significant first.
pub open spec fn key_mask() -> Seq<u8> {
    seq![0xB3u8, 0xCAu8, 0x40u8, 0x57u8]
}

/// The key for a four-byte seed: each byte XOR-ed with the matching mask byte.
pub open spec fn spec_key(seed: Seq<u8>) -> Seq<u8> {
    Seq::new(4, |i: int| seed[i] ^ key_mask()[i])
}

/// The message of the error for a seed of the wrong length.
pub open spec fn wrong_seed_message(len: nat) -> Seq<char> {
    "expected 4-byte seed, got "@ + dec_chars(len) + " bytes"@
}

/// Derives the UDS security access key from a seed received from the ECU.
///
/// `access_type` is the seed sub-function (e.g. 0x01); the key is sent back under
/// `access_type + 1`. Fails when `seed` is not exactly four bytes.
pub fn compute_key(seed: &[u8], _access_type: u8) -> (r: Result<Vec<u8>, Error>)
    ensures
        seed@.len() == 4 ==> (r matches Ok(k) && k@ == spec_key(seed@)),
        seed@.len() != 4 ==> (r matches Err(e) && is_protocol_error(
            e,
            wrong_seed_message(seed@.len()),
        )),
{
    if seed.len() != 4 {
        let mut m = String::from_str("expected 4-byte seed, got ");
        push_decimal(&mut m, seed.len() as u64);
        m.append(" bytes");
        return Err(Error::Protocol { message: m });
    }
    let s0 = seed[0];
    let s1 = seed[1];
    let s2 = seed[2];
    let s3 = seed[3];
    let seed_word: u32 = ((s0 as u32) << 24) | ((s1 as u32) << 16) | ((s2 as u32) << 8) | (
    s3 as u32);
    let key_word: u32 = seed_word ^ 0xB3CA_4057u32;
    let k0 = (key_word >> 24) as u8;
    let k1 = ((key_word >> 16) & 0xFF) as u8;
    let k2 = ((key_word >> 8) & 0xFF) as u8;
    let k3 = (key_word & 0xFF) as u8;
    assert(k0 == s0 ^ 0xB3u8 && k1 == s1 ^ 0xCAu8 && k2 == s2 ^ 0x40u8 && k3 == s3 ^ 0x57u8)
        by (bit_vector)
        requires
            seed_word == ((s0 as u32) << 24) | ((s1 as u32) << 16) | ((s2 as u32) << 8) | (
            s3 as u32),
            key_word == seed_word ^ 0xB3CA_4057u32,
            k0 == (key_word >> 24) as u8,
            k1 == ((key_word >> 16) & 0xFF) as u8,
            k2 == ((key_word >> 8) & 0xFF) as u8,
            k3 == (key_word & 0xFF) as u8,
    ;
    let key = vec![k0, k1, k2, k3];
    proof {
        assert(key@ =~= spec_key(seed@));
    }
    Ok(key)
}

/// Deriving a key from a key gives back the seed: the derivation is its own inverse.
pub proof fn law_key_derivation_is_involution(seed: Seq<u8>)
    requires
        seed.len() == 4,
    ensures
        spec_key(spec_key(seed)) == seed,
{
    assert forall|i: int| 0 <= i < 4 implies spec_key(spec_key(seed))[i] == seed[i] by {
        let s = seed[i];
        let m = key_mask()[i];
        assert((s ^ m) ^ m == s) by (bit_vector);
    }
    assert(spec_key(spec_key(seed)) =~= seed);
}

} // verus!
