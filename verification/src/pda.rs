//! Deterministic derived addressing: the bond record's address is a pure
//! function of the bond's id, and the vault's address is a pure function of
//! the bond record's address. No registry is needed — holders of the id can
//! always recompute where the escrow lives.

use vstd::prelude::*;
use vstd::array::array_as_slice;

verus! {

/// What the ledger's address derivation returns for a tagged seed pair and a
/// program id: the derived 32-byte address and its bump witness, or None
/// where derivation is impossible.
pub uninterp spec fn pda_of(tag: Seq<u8>, body: Seq<u8>, program_id: Seq<u8>) -> Option<
    ([u8; 32], u8),
>;

/// Relies on Pubkey::try_find_program_address (anchor_lang's re-export of
/// the Solana address type): the derived address and bump depend on the
/// seeds and the program id alone; it returns None — it never panics — when
/// a seed is over the 32-byte seed limit or no bump yields a valid derived
/// address.
#[verifier::external_body]
fn try_pda(tag: &[u8], body: &[u8], program_id: &[u8; 32]) -> (r: Option<([u8; 32], u8)>)
    ensures
        r == pda_of(tag@, body@, program_id@),
        tag@.len() > 32 || body@.len() > 32 ==> r is None,
{
    let program = anchor_lang::prelude::Pubkey::new_from_array(*program_id);
    anchor_lang::prelude::Pubkey::try_find_program_address(&[tag, body], &program).map(
        |p: (anchor_lang::prelude::Pubkey, u8)| (p.0.to_bytes(), p.1),
    )
}

/// The namespace tag of a bond record's address: the bytes of "bond".
pub open spec fn bond_seed_tag() -> Seq<u8> {
    seq![98u8, 111u8, 110u8, 100u8]
}

/// The namespace tag of a vault's address: the bytes of "bond_vault".
pub open spec fn vault_seed_tag() -> Seq<u8> {
    seq![98u8, 111u8, 110u8, 100u8, 95u8, 118u8, 97u8, 117u8, 108u8, 116u8]
}

/// The exec bytes of "bond".
fn bond_tag() -> (t: Vec<u8>)
    ensures
        t@ == bond_seed_tag(),
{
    let mut t: Vec<u8> = Vec::new();
    t.push(98);
    t.push(111);
    t.push(110);
    t.push(100);
    proof {
        assert(t@ =~= bond_seed_tag());
    }
    t
}

/// The exec bytes of "bond_vault".
fn vault_tag() -> (t: Vec<u8>)
    ensures
        t@ == vault_seed_tag(),
{
    let mut t: Vec<u8> = Vec::new();
    t.push(98);
    t.push(111);
    t.push(110);
    t.push(100);
    t.push(95);
    t.push(118);
    t.push(97);
    t.push(117);
    t.push(108);
    t.push(116);
    proof {
        assert(t@ =~= vault_seed_tag());
    }
    t
}

/// Derive the address of the bond record for a bond id under a program.
pub fn derive_bond_address(bond_id: &Vec<u8>, program_id: &[u8; 32]) -> (r: Option<([u8; 32], u8)>)
    ensures
        r == pda_of(bond_seed_tag(), bond_id@, program_id@),
{
    let tag = bond_tag();
    try_pda(tag.as_slice(), bond_id.as_slice(), program_id)
}

/// Derive the address of the vault escrowing a bond's collateral: a pure
/// function of the bond's id, by way of the bond record's own derived
/// address.
pub fn derive_vault_address(bond_id: &Vec<u8>, program_id: &[u8; 32]) -> (r: Option<([u8; 32], u8)>)
    ensures
        (match pda_of(bond_seed_tag(), bond_id@, program_id@) {
            Some(bond_pda) => r == pda_of(vault_seed_tag(), bond_pda.0@, program_id@),
            None => r is None,
        }),
{
    match derive_bond_address(bond_id, program_id) {
        Some((bond_addr, _bump)) => {
            let tag = vault_tag();
            try_pda(tag.as_slice(), array_as_slice(&bond_addr), program_id)
        },
        None => None,
    }
}

} // verus!
