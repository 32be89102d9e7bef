//! The ledger's cross-cutting guarantees, stated over the spec-level
//! transition model in [`crate::machine`] and proved once and for all.

use vstd::prelude::*;

use crate::machine::create_step;
use crate::machine::credited_stats;
use crate::machine::debited_stats;
use crate::machine::default_guard;
use crate::machine::defaulted_loan;
use crate::machine::fund_guard;
use crate::machine::funded_loan;
use crate::machine::loan_completes;
use crate::machine::repaid_loan;
use crate::machine::repay_guard;
use crate::machine::total_owed;
use crate::state::BorrowerStats;
use crate::state::Loan;
use crate::state::MicroLoanError;
use crate::state::ProgramData;
use crate::state::TransferRequest;

verus! {

/// Identifiers of sequentially created loans are strictly increasing:
/// two `create` calls, the second against the registry the first left
/// behind, never assign the same identifier, and the later loan always
/// gets the larger one.
pub proof fn lemma_sequential_ids_increase(
    pd0: ProgramData,
    pd1: ProgramData,
    pd2: ProgramData,
    first: Loan,
    second: Loan,
)
    requires
        create_step(pd0, pd1, first),
        create_step(pd1, pd2, second),
    ensures
        second.id > first.id,
{
}

/// Funding a `Created` loan with anything but the exact principal never
/// goes through, and — unless the request is already refused as
/// self-funding — the refusal is `IncorrectAmount`. The loan itself is
/// left untouched by a refused funding (`fund_loan` guarantees that
/// whenever it returns an error).
pub proof fn lemma_fund_wrong_amount_rejected(loan: Loan, lender: u64, amount: u64)
    requires
        loan.state is Created,
        amount != loan.amount,
    ensures
        fund_guard(loan, lender, amount) is Err,
        lender != loan.borrower ==> fund_guard(loan, lender, amount) == Err::<
            TransferRequest,
            MicroLoanError,
        >(MicroLoanError::IncorrectAmount),
{
}

/// A borrower can never fund their own loan: with the borrower as the
/// lender the guard always refuses, and on a `Created` loan the refusal
/// is `CannotFundOwnLoan` (on any other state the earlier state guard
/// already answers `LoanAlreadyActive`).
pub proof fn lemma_cannot_fund_own_loan(loan: Loan, amount: u64)
    ensures
        fund_guard(loan, loan.borrower, amount) is Err,
        loan.state is Created ==> fund_guard(loan, loan.borrower, amount) == Err::<
            TransferRequest,
            MicroLoanError,
        >(MicroLoanError::CannotFundOwnLoan),
{
}

/// What a successful funding amounts to: the guard asks for exactly one
/// transfer, of the exact principal, from the lender to the borrower;
/// and the committed loan is `Active`, carries that lender, starts at
/// `now`, and keeps every other field.
pub proof fn lemma_fund_success_shape(loan: Loan, lender: u64, now: i64)
    requires
        loan.wf(),
        loan.state is Created,
        lender != loan.borrower,
        now > 0,
    ensures
        fund_guard(loan, lender, loan.amount) == Ok::<TransferRequest, MicroLoanError>(
            TransferRequest { from: lender, to: loan.borrower, amount: loan.amount },
        ),
        funded_loan(loan, lender, now).state is Active,
        funded_loan(loan, lender, now).lender == Some(lender),
        funded_loan(loan, lender, now).start_date == now as u64,
        funded_loan(loan, lender, now).wf(),
        funded_loan(loan, lender, now).id == loan.id,
        funded_loan(loan, lender, now).borrower == loan.borrower,
        funded_loan(loan, lender, now).amount == loan.amount,
        funded_loan(loan, lender, now).interest_rate == loan.interest_rate,
        funded_loan(loan, lender, now).duration == loan.duration,
        funded_loan(loan, lender, now).description == loan.description,
        funded_loan(loan, lender, now).total_repaid == loan.total_repaid,
{
}

/// Completion happens exactly on the repayment that crosses the owed
/// threshold, and credits the borrower exactly once. A repayment that
/// stays short of the threshold keeps the loan `Active` and the
/// statistics untouched; the crossing one completes the loan and adds
/// exactly one to both `credit_score` and `loans_repaid`; and every
/// later repayment attempt is refused as `LoanAlreadyCompleted`, so the
/// credit can never be earned twice for one loan.
pub proof fn lemma_completion_exactly_once(
    loan: Loan,
    stats: BorrowerStats,
    amount: u64,
    later_amount: u64,
    later_fee: bool,
    later_platform: u64,
)
    requires
        loan.state is Active,
        loan.total_repaid + amount <= u64::MAX,
        stats.credit_score < i64::MAX,
        stats.loans_repaid < u32::MAX,
    ensures
        !loan_completes(loan, amount) ==> repaid_loan(loan, amount).state is Active,
        loan_completes(loan, amount) <==> loan.total_repaid + amount >= total_owed(
            loan.amount,
            loan.interest_rate,
        ),
        loan_completes(loan, amount) ==> repaid_loan(loan, amount).state is Completed,
        loan_completes(loan, amount) ==> credited_stats(stats).credit_score == stats.credit_score
            + 1 && credited_stats(stats).loans_repaid == stats.loans_repaid + 1
            && credited_stats(stats).loans_taken == stats.loans_taken && credited_stats(
            stats,
        ).borrower == stats.borrower,
        loan_completes(loan, amount) ==> repay_guard(
            repaid_loan(loan, amount),
            loan.borrower,
            later_amount,
            later_fee,
            later_platform,
        ) == Err::<TransferRequest, MicroLoanError>(MicroLoanError::LoanAlreadyCompleted),
{
}

/// What a transition may never touch. A repayment changes the running
/// total (which only ever grows) and possibly the state, a default only
/// the state: the identifier, the parties, the principal, the rate, the
/// duration, the description and the start date are immutable once
/// written, and in particular the lender, set at funding, is never
/// changed again.
pub proof fn lemma_immutable_fields(loan: Loan, amount: u64)
    requires
        loan.total_repaid + amount <= u64::MAX,
    ensures
        repaid_loan(loan, amount).total_repaid >= loan.total_repaid,
        repaid_loan(loan, amount).id == loan.id,
        repaid_loan(loan, amount).borrower == loan.borrower,
        repaid_loan(loan, amount).lender == loan.lender,
        repaid_loan(loan, amount).amount == loan.amount,
        repaid_loan(loan, amount).interest_rate == loan.interest_rate,
        repaid_loan(loan, amount).duration == loan.duration,
        repaid_loan(loan, amount).description == loan.description,
        repaid_loan(loan, amount).start_date == loan.start_date,
        defaulted_loan(loan) == (Loan { state: crate::state::LoanState::Defaulted, ..loan }),
{
}

/// A terminal loan is frozen: on a `Completed` or `Defaulted` loan both
/// the funding guard and the repayment guard refuse every request, so no
/// transfer is ever asked of the host and (by the fail-atomicity of
/// `fund_loan` and `repay_loan`) nothing is mutated.
pub proof fn lemma_terminal_states_frozen(
    loan: Loan,
    caller: u64,
    amount: u64,
    is_platform_fee: bool,
    platform_account: u64,
)
    requires
        loan.state is Completed || loan.state is Defaulted,
    ensures
        fund_guard(loan, caller, amount) == Err::<TransferRequest, MicroLoanError>(
            MicroLoanError::LoanAlreadyActive,
        ),
        repay_guard(loan, loan.borrower, amount, is_platform_fee, platform_account) is Err,
        loan.state is Completed ==> repay_guard(
            loan,
            loan.borrower,
            amount,
            is_platform_fee,
            platform_account,
        ) == Err::<TransferRequest, MicroLoanError>(MicroLoanError::LoanAlreadyCompleted),
        loan.state is Defaulted ==> repay_guard(
            loan,
            loan.borrower,
            amount,
            is_platform_fee,
            platform_account,
        ) == Err::<TransferRequest, MicroLoanError>(MicroLoanError::LoanNotActive),
{
}

/// Defaulting an `Active` loan costs the borrower exactly two points of
/// credit score and closes the loan as `Defaulted`; a second default of
/// the same loan, even by the authority, is refused as `LoanNotActive`.
pub proof fn lemma_default_once(loan: Loan, stats: BorrowerStats, authority: u64)
    requires
        loan.state is Active,
        stats.credit_score - 2 >= i64::MIN,
    ensures
        default_guard(loan, authority, authority) == Ok::<(), MicroLoanError>(()),
        defaulted_loan(loan).state is Defaulted,
        debited_stats(stats).credit_score == stats.credit_score - 2,
        debited_stats(stats).loans_taken == stats.loans_taken,
        debited_stats(stats).loans_repaid == stats.loans_repaid,
        debited_stats(stats).borrower == stats.borrower,
        default_guard(defaulted_loan(loan), authority, authority) == Err::<(), MicroLoanError>(
            MicroLoanError::LoanNotActive,
        ),
{
}

} // verus!
