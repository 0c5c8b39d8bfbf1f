use vstd::prelude::*;

use crate::address::Address;

verus! {

/// Program identity of the allow-listed marketplace.
pub const MARKETPLACE_PROGRAM_ID: [u8; 32] = [
    144, 5, 0, 103, 206, 122, 11, 84, 255, 18, 1, 129, 33, 191, 107, 141, 161, 242, 105, 240, 155,
    220, 163, 10, 127, 161, 184, 115, 50, 138, 160, 4,
];

/// Marketplace opcode that lists an asset for sale.
pub const LIST_INSTRUCTION_BURGER_MARKETPLACE: [u8; 8] = [244, 251, 143, 66, 248, 70, 67, 211];

/// Marketplace opcode that withdraws a listing.
pub const DELIST_INSTRUCTION_BURGER_MARKETPLACE: [u8; 8] = [184, 61, 232, 55, 238, 38, 20, 149];

/// Marketplace opcode that buys a listed asset; the price follows as a
/// little-endian `u64` in payload bytes 8..16.
pub const BUY_INSTRUCTION_BURGER_MARKETPLACE: [u8; 8] = [7, 139, 71, 153, 193, 172, 127, 137];

/// Opcode byte of the associated-account program's idempotent create.
pub const CREATE_ASSOCIATED_ACCOUNT_OPCODE: u8 = 1;

/// Opcode byte of the native program's value transfer.
pub const NATIVE_TRANSFER_OPCODE: u8 = 2;

/// Royalty rate of a marketplace sale: one part in a hundred.
pub const ROYALTY_NUMERATOR: u64 = 1;

pub const ROYALTY_DENOMINATOR: u64 = 100;

/// A trailing instruction that may follow a direct transfer: issued by
/// `program`, with `opcode` as first payload byte.
#[derive(Clone, Copy, Debug)]
pub struct TrailingPattern {
    pub program: Address,
    pub opcode: u8,
}

/// The fixed configuration the rules are evaluated against.
#[derive(Clone, Debug)]
pub struct Policy {
    /// The token program; a transfer it issues directly is a wallet transfer.
    pub token_program: Address,
    /// The program that creates associated accounts (checked by the
    /// leading-instruction rule).
    pub associated_token_program: Address,
    pub create_account_opcode: u8,
    /// The allow-listed marketplace and its three opcodes.
    pub marketplace: Address,
    pub list_opcode: [u8; 8],
    pub delist_opcode: [u8; 8],
    pub buy_opcode: [u8; 8],
    /// The native value-transfer program and opcode a royalty is paid with.
    pub native_transfer_program: Address,
    pub native_transfer_opcode: u8,
    /// Royalty rate, as numerator over denominator of the sale price.
    pub royalty_numerator: u64,
    pub royalty_denominator: u64,
    pub royalty_recipient: Address,
    /// Instructions allowed right after a direct transfer.
    pub trailing_allowed: Vec<TrailingPattern>,
}

impl Policy {
    /// A usable policy divides by a non-zero royalty denominator.
    pub open spec fn wf(&self) -> bool {
        self.royalty_denominator > 0
    }

    /// The royalty owed on a sale at `price`, rounded down.
    pub open spec fn royalty_of(&self, price: nat) -> nat {
        ((price * self.royalty_numerator) as int / self.royalty_denominator as int) as nat
    }

    /// The marketplace policy: sales through the marketplace pay one percent
    /// to the zero address, and nothing may follow a direct transfer.
    /// The three program identities are those of the token program, the
    /// associated-account program and the native program.
    pub fn standard(
        token_program: Address,
        associated_token_program: Address,
        system_program: Address,
    ) -> (r: Policy)
        ensures
            r.wf(),
            r.token_program == token_program,
            r.associated_token_program == associated_token_program,
            r.create_account_opcode == CREATE_ASSOCIATED_ACCOUNT_OPCODE,
            r.marketplace.bytes == MARKETPLACE_PROGRAM_ID,
            r.list_opcode == LIST_INSTRUCTION_BURGER_MARKETPLACE,
            r.delist_opcode == DELIST_INSTRUCTION_BURGER_MARKETPLACE,
            r.buy_opcode == BUY_INSTRUCTION_BURGER_MARKETPLACE,
            r.native_transfer_program == system_program,
            r.native_transfer_opcode == NATIVE_TRANSFER_OPCODE,
            r.royalty_numerator == ROYALTY_NUMERATOR,
            r.royalty_denominator == ROYALTY_DENOMINATOR,
            r.royalty_recipient@ == Seq::new(32, |i: int| 0u8),
            r.trailing_allowed@.len() == 0,
    {
        Policy {
            token_program,
            associated_token_program,
            create_account_opcode: CREATE_ASSOCIATED_ACCOUNT_OPCODE,
            marketplace: Address::new(MARKETPLACE_PROGRAM_ID),
            list_opcode: LIST_INSTRUCTION_BURGER_MARKETPLACE,
            delist_opcode: DELIST_INSTRUCTION_BURGER_MARKETPLACE,
            buy_opcode: BUY_INSTRUCTION_BURGER_MARKETPLACE,
            native_transfer_program: system_program,
            native_transfer_opcode: NATIVE_TRANSFER_OPCODE,
            royalty_numerator: ROYALTY_NUMERATOR,
            royalty_denominator: ROYALTY_DENOMINATOR,
            royalty_recipient: Address::zero(),
            trailing_allowed: Vec::new(),
        }
    }
}

} // verus!
