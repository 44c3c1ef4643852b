//! Deterministic custodial addressing, supplied by the hosting environment:
//! every record of the protocol — task, escrow custody, reputation record —
//! lives at an address derived from a fixed protocol salt and a key seed, so
//! that any party can locate it without off-band coordination, and the bump
//! seed returned alongside is the derivation proof by which the protocol
//! authorizes transfers out of the custody account it controls.

use vstd::prelude::*;

verus! {

/// Protocol salt for task record addresses.
pub const TASK_TAG: u8 = 1;

/// Protocol salt for escrow custody addresses.
pub const ESCROW_TAG: u8 = 2;

/// Protocol salt for reputation record addresses.
pub const REPUTATION_TAG: u8 = 3;

/// What the addressing collaborator returns for a salt, a key seed and a
/// program id: either a derived 32-byte address with its bump seed, or
/// nothing, in the statistically improbable event that no bump seed yields a
/// valid address. The result is a function of the three arguments alone.
pub uninterp spec fn derived_binding(tag: u8, key: Seq<u8>, program_id: Seq<u8>) -> Option<(Seq<u8>, u8)>;

/// Relies on `Pubkey::try_find_program_address` (`anchor_lang`'s re-export of
/// the hosting environment's address derivation): the derived address and
/// bump seed depend on the seed slices and the program id alone, a returned
/// address is 32 bytes (`Pubkey::to_bytes`), and `None` comes only when no
/// bump seed yields a valid address for these seeds.
#[verifier::external_body]
pub(crate) fn derive_address(tag: u8, key: &Vec<u8>, program_id: &Vec<u8>) -> (r: Option<(Vec<u8>, u8)>)
    requires
        program_id@.len() == 32,
    ensures
        (r matches Some(p) ==> derived_binding(tag, key@, program_id@) == Some((p.0@, p.1))
            && p.0@.len() == 32),
        (r is None ==> derived_binding(tag, key@, program_id@) is None),
{
    let mut pid_bytes = [0u8; 32];
    pid_bytes.copy_from_slice(program_id.as_slice());
    let pid = anchor_lang::prelude::Pubkey::new_from_array(pid_bytes);
    let tag_seed: [u8; 1] = [tag];
    let seeds: [&[u8]; 2] = [&tag_seed, key.as_slice()];
    anchor_lang::prelude::Pubkey::try_find_program_address(&seeds, &pid)
        .map(|(addr, bump)| (addr.to_bytes().to_vec(), bump))
}

/// The little-endian bytes of a 64-bit identity, used as the key seed of the
/// addressing scheme.
pub open spec fn id_seq(id: u64) -> Seq<u8> {
    seq![
        (id & 0xff) as u8,
        ((id >> 8) & 0xff) as u8,
        ((id >> 16) & 0xff) as u8,
        ((id >> 24) & 0xff) as u8,
        ((id >> 32) & 0xff) as u8,
        ((id >> 40) & 0xff) as u8,
        ((id >> 48) & 0xff) as u8,
        ((id >> 56) & 0xff) as u8,
    ]
}

fn low_byte(x: u64) -> (r: u8)
    ensures
        r == (x & 0xff) as u8,
{
    assert((x & 0xff) < 256) by (bit_vector);
    (x & 0xff) as u8
}

/// Serialize an identity into the key seed bytes that `id_seq` describes.
pub fn id_bytes(id: u64) -> (r: Vec<u8>)
    ensures
        r@ == id_seq(id),
{
    let mut v: Vec<u8> = Vec::new();
    v.push(low_byte(id));
    v.push(low_byte(id >> 8));
    v.push(low_byte(id >> 16));
    v.push(low_byte(id >> 24));
    v.push(low_byte(id >> 32));
    v.push(low_byte(id >> 40));
    v.push(low_byte(id >> 48));
    v.push(low_byte(id >> 56));
    proof {
        assert(v@ =~= id_seq(id));
    }
    v
}

} // verus!
