use vstd::prelude::*;

verus! {

/// Why a transfer was denied. Each reason is a distinct, stable code.
#[derive(Clone, Copy, Debug, PartialEq, Eq, Structural)]
pub enum TransferHookErr {
    /// The transfer is at position 2 or later in the transaction.
    InvalidInstructionPosition,
    /// The transfer is at position 1 and position 0 is issued by another
    /// program than the associated-account program.
    InvalidProgram1,
    /// The transfer is at position 1 and position 0 is not the
    /// create-associated-account opcode.
    InvalidIx1,
    /// No instruction stands at the transfer's own position.
    MissingTransferInstruction,
    /// The transfer was invoked by a program that is not allow-listed.
    UnauthorizedCpi,
    /// The marketplace invoked the transfer with an opcode that is not
    /// recognised, or with a buy payload too short to hold a price.
    UnauthorizedInstruction2,
    /// A marketplace sale is not followed by a royalty payment.
    RoyaltyMissing,
    /// The instruction after a sale is issued by another program than the
    /// native value-transfer program.
    RoyaltyProgram,
    /// The instruction after a sale is not a native value transfer.
    RoyaltyOpcode,
    /// The royalty paid after a sale is not the required amount.
    RoyaltyAmount,
    /// The royalty paid after a sale goes to another account than the
    /// royalty recipient.
    RoyaltyRecipient,
    /// More than one instruction follows a direct transfer.
    UnauthorizedTrailingInstruction,
    /// The instruction after a direct transfer is not on the trailing
    /// allow-list.
    UnauthorizedTrailingProgram,
    /// The callback payload is not a transfer-execution request.
    InvalidCallback,
}

impl TransferHookErr {
    /// Whether this denial is one of the royalty checks of a marketplace sale.
    pub open spec fn is_royalty_violation(self) -> bool {
        ||| self is RoyaltyMissing
        ||| self is RoyaltyProgram
        ||| self is RoyaltyOpcode
        ||| self is RoyaltyAmount
        ||| self is RoyaltyRecipient
    }
}

} // verus!
