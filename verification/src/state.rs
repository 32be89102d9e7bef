//! Records kept by the lending ledger: the registry that assigns loan
//! identifiers, per-borrower statistics, and the loan record itself.

use vstd::prelude::*;

verus! {

/// Lifecycle of a single loan. `Completed` and `Defaulted` are terminal:
/// a loan in one of them accepts no further funding or repayment.
#[derive(Clone, Copy, Debug, PartialEq, Eq, Structural)]
pub enum LoanState {
    Created,
    Active,
    Completed,
    Defaulted,
}

/// The process-wide registry: the identity allowed to administer the
/// ledger, and the strictly increasing counter that loan identifiers are
/// drawn from. Identifiers are never reused.
#[derive(Clone, Copy, Debug, PartialEq, Eq, Structural)]
pub struct ProgramData {
    pub authority: u64,
    pub transaction_count: u64,
}

/// Per-borrower aggregate statistics. The state machine mutates a record
/// only when one of the borrower's loans reaches a terminal state:
/// completion adds one to `credit_score` and `loans_repaid`, a default
/// subtracts two from `credit_score` (the score may go negative).
#[derive(Clone, Copy, Debug, PartialEq, Eq, Structural)]
pub struct BorrowerStats {
    pub borrower: u64,
    pub credit_score: i64,
    pub loans_taken: u32,
    pub loans_repaid: u32,
}

/// One loan record. `lender` is `None` until the loan is funded and is
/// set exactly once, at funding. `start_date` is the funding timestamp,
/// zero while the loan is still `Created`. `total_repaid` is the running
/// sum of repayments and only ever grows.
#[derive(Clone, Debug, PartialEq)]
pub struct Loan {
    pub id: u64,
    pub borrower: u64,
    pub lender: Option<u64>,
    pub amount: u64,
    pub interest_rate: u16,
    pub duration: u64,
    pub description: String,
    pub start_date: u64,
    pub total_repaid: u64,
    pub state: LoanState,
}

/// The single value movement an operation needs the host to perform:
/// `amount` tokens from `from` to `to`.
#[derive(Clone, Copy, Debug, PartialEq, Eq, Structural)]
pub struct TransferRequest {
    pub from: u64,
    pub to: u64,
    pub amount: u64,
}

/// Every way a ledger operation can be refused.
#[derive(Clone, Copy, Debug, PartialEq, Eq, Structural)]
pub enum MicroLoanError {
    /// `fund` on a loan that has already left the `Created` state.
    LoanAlreadyActive,
    /// `fund` by the loan's own borrower.
    CannotFundOwnLoan,
    /// `fund` with an amount other than the exact principal.
    IncorrectAmount,
    /// `repay` or `default` on a loan that is not `Active`.
    LoanNotActive,
    /// `repay` on a loan that has already been repaid in full.
    LoanAlreadyCompleted,
    /// `create` with a principal of zero.
    InvalidAmount,
    /// The host's transfer capability declined to move the value.
    TransferFailed,
    /// The repayment would push `total_repaid` past its representable range.
    ArithmeticOverflow,
    /// `default` by a caller other than the registry authority.
    Unauthorized,
}

impl Loan {
    /// Well-formedness, established at creation and preserved by every
    /// transition: the principal is positive, the lender and the funding
    /// timestamp are set exactly when the loan has left `Created`, and
    /// nothing has been repaid before funding.
    pub open spec fn wf(self) -> bool {
        &&& self.amount > 0
        &&& ((self.state is Created) <==> (self.lender is None))
        &&& ((self.state is Created) <==> (self.start_date == 0))
        &&& ((self.state is Created) ==> (self.total_repaid == 0))
    }

    /// Executable form of [`Loan::wf`], for callers outside the verified
    /// world that must test a stored record before handing it to the
    /// machine.
    pub fn wf_check(&self) -> (b: bool)
        ensures
            b == self.wf(),
    {
        let created = matches!(self.state, LoanState::Created);
        self.amount > 0 && (created == self.lender.is_none()) && (created == (self.start_date
            == 0)) && (!created || self.total_repaid == 0)
    }

    /// The funded lender, or zero while none is set. Guards only consult
    /// this once the loan is `Active`, where well-formedness makes the
    /// lender present.
    pub open spec fn lender_or_zero(self) -> u64 {
        match self.lender {
            Some(l) => l,
            None => 0,
        }
    }
}

impl ProgramData {
    /// Atomically takes the next loan identifier: returns the current
    /// counter value and advances it by one.
    pub fn next_id(&mut self) -> (id: u64)
        requires
            old(self).transaction_count < u64::MAX,
        ensures
            id == old(self).transaction_count,
            final(self).transaction_count == old(self).transaction_count + 1,
            final(self).authority == old(self).authority,
    {
        let id = self.transaction_count;
        self.transaction_count = self.transaction_count + 1;
        id
    }
}

impl BorrowerStats {
    /// A fresh, zeroed statistics record for `borrower`; the record the
    /// host hands back the first time a borrower appears.
    pub fn new(borrower: u64) -> (r: BorrowerStats)
        ensures
            r == (BorrowerStats { borrower, credit_score: 0, loans_taken: 0, loans_repaid: 0 }),
    {
        BorrowerStats { borrower, credit_score: 0, loans_taken: 0, loans_repaid: 0 }
    }
}

} // verus!
