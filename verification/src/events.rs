//! Records describing a completed ledger action, handed to the host for
//! emission to external observers. They carry no authority: the ledger's
//! correctness never depends on them.

use vstd::prelude::*;

verus! {

/// Emitted after a successful `create_loan`.
#[derive(Clone, Copy, Debug, PartialEq, Eq, Structural)]
pub struct LoanCreatedEvent {
    pub loan_id: u64,
    pub borrower: u64,
    pub amount: u64,
    pub interest_rate: u16,
    pub duration: u64,
}

/// Emitted after a successful `fund_loan`.
#[derive(Clone, Copy, Debug, PartialEq, Eq, Structural)]
pub struct LoanFundedEvent {
    pub loan_id: u64,
    pub lender: u64,
    pub amount: u64,
    pub timestamp: i64,
}

/// Emitted after a successful `repay_loan`.
#[derive(Clone, Copy, Debug, PartialEq, Eq, Structural)]
pub struct RepaymentEvent {
    pub loan_id: u64,
    pub borrower: u64,
    pub amount: u64,
    pub timestamp: i64,
    pub is_platform_fee: bool,
}

/// What a generic audit-trail entry describes.
#[derive(Clone, Copy, Debug, PartialEq, Eq, Structural)]
pub enum TxKind {
    Create,
    Fund,
    Repay,
}

/// A generic audit-trail entry, one per ledger action.
#[derive(Clone, Copy, Debug, PartialEq, Eq, Structural)]
pub struct TransactionEvent {
    pub tx_type: TxKind,
    pub user: u64,
    pub loan_id: u64,
    pub amount: u64,
    pub timestamp: i64,
}

} // verus!
