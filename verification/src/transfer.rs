//! What the ledger asks of the transfer service, and what it hears back.
use vstd::prelude::*;
use crate::pubkey::Pubkey;

verus! {

/// One end of a transfer.
#[derive(Clone, Copy, Debug, PartialEq, Eq)]
pub enum Endpoint {
    /// The funds that a party holds outside the ledger.
    Party(Pubkey),
    /// The backing store of the vault stored under this key.
    Vault(Pubkey),
}

/// A request to the transfer service to move `amount` from `from` to `to`.
#[derive(Clone, Copy, Debug, PartialEq, Eq)]
pub struct Transfer {
    pub from: Endpoint,
    pub to: Endpoint,
    pub amount: u64,
}

/// How the transfers that an operation asked for ended.
#[derive(Clone, Copy, Debug, PartialEq, Eq, Structural)]
pub enum TransferOutcome {
    /// Every requested transfer took effect.
    Completed,
    /// A transfer failed, and none of them took effect.
    Failed,
}

impl Transfer {
    /// What this transfer adds to the funds at `endpoint`: the amount if it
    /// ends there, less the amount if it starts there.
    pub open spec fn gain_of(self, endpoint: Endpoint) -> int {
        (if self.to == endpoint {
            self.amount as int
        } else {
            0
        }) - (if self.from == endpoint {
            self.amount as int
        } else {
            0
        })
    }
}

/// What the transfers in `requests` add to the funds at `endpoint`, all told.
pub open spec fn net_gain(requests: Seq<Transfer>, endpoint: Endpoint) -> int
    decreases requests.len(),
{
    if requests.len() == 0 {
        0
    } else {
        net_gain(requests.drop_last(), endpoint) + requests.last().gain_of(endpoint)
    }
}

} // verus!
