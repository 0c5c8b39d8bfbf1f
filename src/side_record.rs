//! The side record a mint carries for the transfer hook: the list of extra
//! accounts the token program must pass to every callback. Here it names one
//! account, the instruction-introspection account.
use vstd::prelude::*;

use spl_tlv_account_resolution::account::ExtraAccountMeta;
use spl_tlv_account_resolution::state::ExtraAccountMetaList;
use spl_transfer_hook_interface::instruction::ExecuteInstruction;
use spl_transfer_hook_interface::solana_program::program_error::ProgramError;
use spl_transfer_hook_interface::solana_program::pubkey::Pubkey;

use crate::address::Address;
use crate::dispatch::EXECUTE_DISCRIMINATOR;

verus! {

/// Namespace tag of the side record's address, derived together with the
/// mint's address.
pub const EXTRA_ACCOUNT_METAS_SEED: [u8; 19] = [
    101, 120, 116, 114, 97, 45, 97, 99, 99, 111, 117, 110, 116, 45, 109, 101, 116, 97, 115,
];

/// Bytes taken by one account descriptor: kind, 32 address bytes, signer
/// flag, writable flag.
pub const ACCOUNT_META_LEN: usize = 35;

/// Bytes taken by a side record that lists `count` accounts: an 8-byte
/// discriminator, a 4-byte entry length, a 4-byte count and the descriptors.
pub open spec fn record_len(count: nat) -> nat {
    16 + ACCOUNT_META_LEN as nat * count
}

/// The 4-byte little-endian encoding of `v`.
pub open spec fn le_u32_bytes(v: nat) -> Seq<u8> {
    seq![(v % 256) as u8, ((v / 256) % 256) as u8, ((v / 65536) % 256) as u8, ((v / 16777216) % 256) as u8]
}

/// The side record that lists one plain, read-only account `address`.
pub open spec fn side_record_layout(address: Seq<u8>) -> Seq<u8> {
    EXECUTE_DISCRIMINATOR@ + le_u32_bytes((4 + ACCOUNT_META_LEN) as nat) + le_u32_bytes(1) + seq![0u8] + address + seq![
        0u8,
        0u8,
    ]
}

/// Relies on `ExtraAccountMetaList::size_of`: the base of discriminator and
/// length plus a counted slice of 35-byte descriptors; it fails only when
/// the slice size overflows.
#[verifier::external_body]
fn extra_meta_list_size(count: usize) -> (r: Result<usize, ProgramError>)
    ensures
        r is Ok || record_len(count as nat) > usize::MAX,
        r matches Ok(n) ==> n as nat == record_len(count as nat) || record_len(count as nat)
            > usize::MAX,
{
    ExtraAccountMetaList::size_of(count)
}

/// Relies on `ExtraAccountMeta::new_with_pubkey` and
/// `ExtraAccountMetaList::init::<ExecuteInstruction>`: on a zeroed buffer of
/// exactly the record's size they write the execute discriminator, the entry
/// length, a count of one and the descriptor of `address`.
#[verifier::external_body]
fn write_meta_list(data: &mut Vec<u8>, address: &Address) -> (r: Result<(), ProgramError>)
    requires
        old(data)@.len() == record_len(1),
        forall|i: int| 0 <= i < old(data)@.len() ==> old(data)@[i] == 0u8,
    ensures
        r is Ok,
        final(data)@ == side_record_layout(address@),
{
    let meta = ExtraAccountMeta::new_with_pubkey(&Pubkey::new_from_array(address.bytes), false, false)?;
    ExtraAccountMetaList::init::<ExecuteInstruction>(data.as_mut_slice(), &[meta])
}

/// The contents of a mint's side record, naming the instruction-introspection
/// account `sysvar_instruction` as the one extra account of every callback.
/// The caller allocates an account of the returned length and stores it.
pub fn initialize_extra_account_meta_list(sysvar_instruction: &Address) -> (r: Vec<u8>)
    ensures
        r@ == side_record_layout(sysvar_instruction@),
        r@.len() == record_len(1),
{
    let len = match extra_meta_list_size(1) {
        Ok(n) => n,
        Err(_) => {
            proof {
                assert(false);
            }
            0
        },
    };
    let mut data: Vec<u8> = Vec::new();
    let mut i: usize = 0;
    while i < len
        invariant
            len == record_len(1),
            i <= len,
            data@.len() == i,
            forall|j: int| 0 <= j < i ==> data@[j] == 0u8,
        decreases len - i,
    {
        data.push(0u8);
        i = i + 1;
    }
    let _ = write_meta_list(&mut data, sysvar_instruction);
    proof {
        assert(side_record_layout(sysvar_instruction@).len() == record_len(1));
    }
    data
}

} // verus!
