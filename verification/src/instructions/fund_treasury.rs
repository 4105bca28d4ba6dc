//! Treasury funding: anyone may top the treasury up.

use crate::address::Address;
use crate::error::SolanaGptOracleError;
use vstd::prelude::*;

verus! {

/// What treasury funding works on.
#[derive(Clone, Debug, PartialEq, Eq)]
pub struct FundTreasury {
    /// Who gives.
    pub payer: Address,
    /// The treasury.
    pub treasury: Address,
    pub system_program: Address,
}

/// A request to the ledger to move value from one account to another.
#[derive(Clone, Debug, PartialEq, Eq)]
pub struct Transfer {
    /// The program to call.
    pub system_program: Address,
    pub from: Address,
    pub to: Address,
    pub lamports: u64,
}

/// What a [`Transfer`] holds, as mathematical values.
pub struct TransferView {
    pub system_program: Seq<u8>,
    pub from: Seq<u8>,
    pub to: Seq<u8>,
    pub lamports: u64,
}

impl View for Transfer {
    type V = TransferView;

    open spec fn view(&self) -> TransferView {
        TransferView {
            system_program: self.system_program@,
            from: self.from@,
            to: self.to@,
            lamports: self.lamports,
        }
    }
}

impl FundTreasury {
    /// The transfer that funds the treasury with `lamports`: from the payer, to the
    /// treasury, of exactly that amount.
    pub open spec fn funding(&self, lamports: u64) -> TransferView {
        TransferView {
            system_program: self.system_program@,
            from: self.payer@,
            to: self.treasury@,
            lamports,
        }
    }

    /// What a funding comes to. Any amount above zero is accepted, from any payer, and the
    /// transfer of exactly that amount to the treasury is returned. A funding of nothing
    /// is refused. The accounts are never changed.
    pub open spec fn outcome(
        before: FundTreasury,
        after: FundTreasury,
        lamports: u64,
        sent: Result<Transfer, SolanaGptOracleError>,
    ) -> bool {
        &&& after == before
        &&& match sent {
            Ok(transfer) => lamports > 0 && transfer@ == before.funding(lamports),
            Err(e) => lamports == 0 && e == SolanaGptOracleError::InvalidFundingAmount,
        }
    }

    /// Funds the treasury: returns the transfer to hand to the ledger, see
    /// [`FundTreasury::outcome`].
    pub fn fund_treasury(&mut self, lamports: u64) -> (sent: Result<Transfer, SolanaGptOracleError>)
        ensures
            FundTreasury::outcome(*old(self), *final(self), lamports, sent),
    {
        if lamports == 0 {
            return Err(SolanaGptOracleError::InvalidFundingAmount);
        }
        Ok(
            Transfer {
                system_program: self.system_program,
                from: self.payer,
                to: self.treasury,
                lamports,
            },
        )
    }
}

} // verus!
