//! The loan lifecycle state machine.
//!
//! Every transition is a pure function of the current records and the
//! operation's inputs. Where value must move, the operation is split in
//! two: a `check_*` guard that validates the request and names the single
//! transfer the host must perform, and an `apply_*` commit that mutates
//! the records once the transfer succeeded. The `fund_loan` and
//! `repay_loan` entry points bind the two around a [`TransferCapability`]
//! and are fail-atomic: on any error, including a declined transfer,
//! nothing is mutated.

use vstd::prelude::*;

use crate::events::LoanCreatedEvent;
use crate::events::LoanFundedEvent;
use crate::events::RepaymentEvent;
use crate::state::BorrowerStats;
use crate::state::Loan;
use crate::state::LoanState;
use crate::state::MicroLoanError;
use crate::state::ProgramData;
use crate::state::TransferRequest;

verus! {

/// The host's atomic value-movement primitive: move `amount` from `from`
/// to `to`, reporting whether the movement happened. The ledger makes no
/// assumption about the outcome; a capability may decline any request.
pub trait TransferCapability {
    fn transfer(&mut self, from: u64, to: u64, amount: u64) -> bool;
}

/// Flat interest owed on `principal` at `rate_bp` basis points
/// (1/10000), rounded down: `floor(principal * rate_bp / 10000)`.
/// Interest is computed once, against the principal alone; it never
/// compounds.
pub open spec fn interest_on(principal: u64, rate_bp: u16) -> int {
    (principal * rate_bp) / 10000
}

/// Everything the borrower owes: the principal plus the flat interest.
/// Reaching this total is what completes a loan.
pub open spec fn total_owed(principal: u64, rate_bp: u16) -> int {
    principal + interest_on(principal, rate_bp)
}

/// What `fund` answers before any value moves: either the one transfer
/// the host must perform (the exact principal, lender to borrower), or
/// the reason the request is refused. The guards are checked in order:
/// state first, then self-funding, then the amount.
pub open spec fn fund_guard(loan: Loan, lender: u64, amount: u64) -> Result<
    TransferRequest,
    MicroLoanError,
> {
    if !(loan.state is Created) {
        Err(MicroLoanError::LoanAlreadyActive)
    } else if lender == loan.borrower {
        Err(MicroLoanError::CannotFundOwnLoan)
    } else if amount != loan.amount {
        Err(MicroLoanError::IncorrectAmount)
    } else {
        Ok(TransferRequest { from: lender, to: loan.borrower, amount: amount })
    }
}

/// The committed effect of a successful `fund`: the lender is recorded,
/// the clock starts, the loan becomes `Active`; everything else is kept.
pub open spec fn funded_loan(loan: Loan, lender: u64, now: i64) -> Loan {
    Loan { lender: Some(lender), start_date: now as u64, state: LoanState::Active, ..loan }
}

/// What `repay` answers before any value moves: either the one transfer
/// the host must perform (to the platform account for a fee repayment,
/// to the lender otherwise), or the reason the request is refused.
pub open spec fn repay_guard(
    loan: Loan,
    borrower: u64,
    amount: u64,
    is_platform_fee: bool,
    platform_account: u64,
) -> Result<TransferRequest, MicroLoanError> {
    if loan.state is Completed {
        Err(MicroLoanError::LoanAlreadyCompleted)
    } else if !(loan.state is Active) {
        Err(MicroLoanError::LoanNotActive)
    } else if loan.total_repaid + amount > u64::MAX {
        Err(MicroLoanError::ArithmeticOverflow)
    } else {
        Ok(
            TransferRequest {
                from: borrower,
                to: if is_platform_fee {
                    platform_account
                } else {
                    loan.lender_or_zero()
                },
                amount: amount,
            },
        )
    }
}

/// Whether a repayment of `amount` brings the loan's running total up to
/// (or past) everything owed. Evaluated after every repayment, not only
/// an expected final one.
pub open spec fn loan_completes(loan: Loan, amount: u64) -> bool {
    loan.total_repaid + amount >= total_owed(loan.amount, loan.interest_rate)
}

/// The committed effect of a successful `repay`: the running total grows
/// by `amount`, and the loan completes exactly when the total reaches
/// everything owed. An overshoot past the owed total is accepted as-is;
/// nothing is capped or refunded.
pub open spec fn repaid_loan(loan: Loan, amount: u64) -> Loan {
    if loan_completes(loan, amount) {
        Loan {
            total_repaid: (loan.total_repaid + amount) as u64,
            state: LoanState::Completed,
            ..loan
        }
    } else {
        Loan { total_repaid: (loan.total_repaid + amount) as u64, ..loan }
    }
}

/// The statistics credit a borrower earns the moment a loan completes:
/// one more point of credit score, one more loan repaid.
pub open spec fn credited_stats(stats: BorrowerStats) -> BorrowerStats {
    BorrowerStats {
        credit_score: (stats.credit_score + 1) as i64,
        loans_repaid: (stats.loans_repaid + 1) as u32,
        ..stats
    }
}

/// What `default` answers: the caller must hold the registry authority
/// and the loan must be `Active`.
pub open spec fn default_guard(loan: Loan, registry_authority: u64, caller: u64) -> Result<
    (),
    MicroLoanError,
> {
    if caller != registry_authority {
        Err(MicroLoanError::Unauthorized)
    } else if !(loan.state is Active) {
        Err(MicroLoanError::LoanNotActive)
    } else {
        Ok(())
    }
}

/// The committed effect of a default: the loan is closed as `Defaulted`;
/// everything else is kept. No value moves.
pub open spec fn defaulted_loan(loan: Loan) -> Loan {
    Loan { state: LoanState::Defaulted, ..loan }
}

/// The statistics penalty for a default: two points of credit score.
pub open spec fn debited_stats(stats: BorrowerStats) -> BorrowerStats {
    BorrowerStats { credit_score: (stats.credit_score - 2) as i64, ..stats }
}

/// One `create` call against the registry: the new loan takes the
/// counter's current value as its identifier and the counter advances by
/// one, so identifiers are strictly increasing and never reused.
pub open spec fn create_step(pre: ProgramData, post: ProgramData, loan: Loan) -> bool {
    &&& loan.id == pre.transaction_count
    &&& post.transaction_count == pre.transaction_count + 1
    &&& post.authority == pre.authority
}

/// Everything the borrower will owe on a loan of `principal` at
/// `rate_bp` basis points, computed in double width so the product
/// `principal * rate_bp` cannot overflow.
pub fn total_owed_amount(principal: u64, rate_bp: u16) -> (owed: u128)
    ensures
        owed == total_owed(principal, rate_bp),
{
    let p: u128 = principal as u128;
    let r: u128 = rate_bp as u128;
    proof {
        assert(p * r <= 0xffff_ffff_ffff_ffffu128 * 0xffffu128) by (nonlinear_arith)
            requires
                p <= 0xffff_ffff_ffff_ffffu128,
                r <= 0xffffu128,
        ;
    }
    let interest: u128 = (p * r) / 10000;
    p + interest
}

/// Whether a running total of `total_repaid` settles a loan of
/// `principal` at `rate_bp` basis points.
pub fn repaid_in_full(principal: u64, rate_bp: u16, total_repaid: u64) -> (b: bool)
    ensures
        b == (total_repaid >= total_owed(principal, rate_bp)),
{
    let owed = total_owed_amount(principal, rate_bp);
    (total_repaid as u128) >= owed
}

/// Sets up the registry: the given identity becomes the administrative
/// authority and the identifier counter starts at zero. The host's
/// storage refuses a second initialization of the same registry record.
pub fn initialize(authority: u64) -> (r: ProgramData)
    ensures
        r == (ProgramData { authority, transaction_count: 0 }),
{
    ProgramData { authority, transaction_count: 0 }
}

/// Posts a new loan request. A zero principal is refused with
/// `InvalidAmount` before the registry is touched; otherwise the loan is
/// created in the `Created` state with a fresh identifier drawn from the
/// registry counter, no lender, and nothing repaid.
pub fn create_loan(
    program_data: &mut ProgramData,
    borrower: u64,
    amount: u64,
    interest_rate: u16,
    duration: u64,
    description: String,
) -> (r: Result<Loan, MicroLoanError>)
    requires
        old(program_data).transaction_count < u64::MAX,
    ensures
        amount == 0 ==> r == Err::<Loan, MicroLoanError>(MicroLoanError::InvalidAmount)
            && *final(program_data) == *old(program_data),
        amount > 0 ==> r == Ok::<Loan, MicroLoanError>(
            Loan {
                id: old(program_data).transaction_count,
                borrower,
                lender: None,
                amount,
                interest_rate,
                duration,
                description: description,
                start_date: 0,
                total_repaid: 0,
                state: LoanState::Created,
            },
        ),
        amount > 0 ==> (r matches Ok(loan) && create_step(
            *old(program_data),
            *final(program_data),
            loan,
        ) && loan.wf()),
{
    if amount == 0 {
        return Err(MicroLoanError::InvalidAmount);
    }
    let id = program_data.next_id();
    Ok(
        Loan {
            id,
            borrower,
            lender: None,
            amount,
            interest_rate,
            duration,
            description,
            start_date: 0,
            total_repaid: 0,
            state: LoanState::Created,
        },
    )
}

/// Validates a funding request without touching anything: the answer is
/// exactly [`fund_guard`], so on success the caller holds the one
/// transfer the host must perform before the fund may be committed.
pub fn check_fund(loan: &Loan, lender: u64, amount: u64) -> (r: Result<
    TransferRequest,
    MicroLoanError,
>)
    ensures
        r == fund_guard(*loan, lender, amount),
{
    match loan.state {
        LoanState::Created => {
            if lender == loan.borrower {
                Err(MicroLoanError::CannotFundOwnLoan)
            } else if amount != loan.amount {
                Err(MicroLoanError::IncorrectAmount)
            } else {
                Ok(TransferRequest { from: lender, to: loan.borrower, amount })
            }
        },
        _ => Err(MicroLoanError::LoanAlreadyActive),
    }
}

/// Commits a funding whose guard passed and whose transfer the host has
/// performed: records the lender, starts the clock at `now`, and
/// activates the loan.
pub fn apply_fund(loan: &mut Loan, lender: u64, now: i64) -> (ev: LoanFundedEvent)
    requires
        old(loan).wf(),
        old(loan).state is Created,
        lender != old(loan).borrower,
        now > 0,
    ensures
        *final(loan) == funded_loan(*old(loan), lender, now),
        final(loan).wf(),
        ev == (LoanFundedEvent {
            loan_id: old(loan).id,
            lender: lender,
            amount: old(loan).amount,
            timestamp: now,
        }),
{
    loan.lender = Some(lender);
    loan.state = LoanState::Active;
    loan.start_date = now as u64;
    LoanFundedEvent { loan_id: loan.id, lender, amount: loan.amount, timestamp: now }
}

/// Funds a `Created` loan: after the guards pass, the exact principal is
/// moved from the lender to the borrower through `transfers`, and only
/// on a successful transfer is the loan activated. Fail-atomic: on every
/// error, including a declined transfer, the loan is left untouched.
pub fn fund_loan<T: TransferCapability>(
    loan: &mut Loan,
    lender: u64,
    amount: u64,
    now: i64,
    transfers: &mut T,
) -> (r: Result<LoanFundedEvent, MicroLoanError>)
    requires
        old(loan).wf(),
        now > 0,
    ensures
        final(loan).wf(),
        r is Err ==> *final(loan) == *old(loan),
        !(old(loan).state is Created) ==> r == Err::<LoanFundedEvent, MicroLoanError>(
            MicroLoanError::LoanAlreadyActive,
        ),
        old(loan).state is Created && lender == old(loan).borrower ==> r == Err::<
            LoanFundedEvent,
            MicroLoanError,
        >(MicroLoanError::CannotFundOwnLoan),
        old(loan).state is Created && lender != old(loan).borrower && amount != old(loan).amount
            ==> r == Err::<LoanFundedEvent, MicroLoanError>(MicroLoanError::IncorrectAmount),
        fund_guard(*old(loan), lender, amount) is Ok ==> (r is Ok || r == Err::<
            LoanFundedEvent,
            MicroLoanError,
        >(MicroLoanError::TransferFailed)),
        r is Ok ==> fund_guard(*old(loan), lender, amount) is Ok && *final(loan) == funded_loan(
            *old(loan),
            lender,
            now,
        ) && r == Ok::<LoanFundedEvent, MicroLoanError>(
            LoanFundedEvent {
                loan_id: old(loan).id,
                lender: lender,
                amount: amount,
                timestamp: now,
            },
        ),
{
    let req = match check_fund(loan, lender, amount) {
        Ok(req) => req,
        Err(e) => {
            return Err(e);
        },
    };
    if !transfers.transfer(req.from, req.to, req.amount) {
        return Err(MicroLoanError::TransferFailed);
    }
    let ev = apply_fund(loan, lender, now);
    Ok(ev)
}

/// Validates a repayment without touching anything: the answer is
/// exactly [`repay_guard`], so on success the caller holds the one
/// transfer the host must perform before the repayment may be
/// committed. Only the loan's own borrower may repay; the host's signer
/// check enforces the `borrower` precondition.
pub fn check_repay(
    loan: &Loan,
    borrower: u64,
    amount: u64,
    is_platform_fee: bool,
    platform_account: u64,
) -> (r: Result<TransferRequest, MicroLoanError>)
    requires
        borrower == loan.borrower,
    ensures
        r == repay_guard(*loan, borrower, amount, is_platform_fee, platform_account),
{
    match loan.state {
        LoanState::Completed => Err(MicroLoanError::LoanAlreadyCompleted),
        LoanState::Active => {
            if amount > u64::MAX - loan.total_repaid {
                Err(MicroLoanError::ArithmeticOverflow)
            } else {
                let to = if is_platform_fee {
                    platform_account
                } else {
                    match loan.lender {
                        Some(l) => l,
                        None => 0,
                    }
                };
                Ok(TransferRequest { from: borrower, to, amount })
            }
        },
        _ => Err(MicroLoanError::LoanNotActive),
    }
}

/// Commits a repayment whose guard passed and whose transfer the host
/// has performed: grows the running total by `amount` and, exactly when
/// the total reaches everything owed, completes the loan and credits the
/// borrower's statistics. Returns whether the loan completed on this
/// call.
pub fn apply_repay(loan: &mut Loan, stats: &mut BorrowerStats, amount: u64) -> (completed: bool)
    requires
        old(loan).wf(),
        old(loan).state is Active,
        old(loan).total_repaid + amount <= u64::MAX,
        old(stats).borrower == old(loan).borrower,
        old(stats).credit_score < i64::MAX,
        old(stats).loans_repaid < u32::MAX,
    ensures
        completed == loan_completes(*old(loan), amount),
        *final(loan) == repaid_loan(*old(loan), amount),
        final(loan).wf(),
        completed ==> *final(stats) == credited_stats(*old(stats)),
        !completed ==> *final(stats) == *old(stats),
{
    loan.total_repaid = loan.total_repaid + amount;
    let completed = repaid_in_full(loan.amount, loan.interest_rate, loan.total_repaid);
    if completed {
        loan.state = LoanState::Completed;
        stats.credit_score = stats.credit_score + 1;
        stats.loans_repaid = stats.loans_repaid + 1;
    }
    completed
}

/// Repays part (or all) of an `Active` loan: after the guards pass,
/// `amount` is moved from the borrower to the lender — or to the
/// platform account for a fee repayment — through `transfers`, and only
/// on a successful transfer is the running total grown and completion
/// evaluated. Fail-atomic: on every error, including a declined
/// transfer, the loan and the statistics are left untouched.
pub fn repay_loan<T: TransferCapability>(
    loan: &mut Loan,
    stats: &mut BorrowerStats,
    borrower: u64,
    amount: u64,
    is_platform_fee: bool,
    platform_account: u64,
    now: i64,
    transfers: &mut T,
) -> (r: Result<RepaymentEvent, MicroLoanError>)
    requires
        old(loan).wf(),
        borrower == old(loan).borrower,
        old(stats).borrower == old(loan).borrower,
        old(stats).credit_score < i64::MAX,
        old(stats).loans_repaid < u32::MAX,
    ensures
        final(loan).wf(),
        r is Err ==> *final(loan) == *old(loan) && *final(stats) == *old(stats),
        old(loan).state is Completed ==> r == Err::<RepaymentEvent, MicroLoanError>(
            MicroLoanError::LoanAlreadyCompleted,
        ),
        old(loan).state is Created || old(loan).state is Defaulted ==> r == Err::<
            RepaymentEvent,
            MicroLoanError,
        >(MicroLoanError::LoanNotActive),
        old(loan).state is Active && old(loan).total_repaid + amount > u64::MAX ==> r == Err::<
            RepaymentEvent,
            MicroLoanError,
        >(MicroLoanError::ArithmeticOverflow),
        old(loan).state is Active && old(loan).total_repaid + amount <= u64::MAX ==> (r is Ok || r
            == Err::<RepaymentEvent, MicroLoanError>(MicroLoanError::TransferFailed)),
        r is Ok ==> old(loan).state is Active && *final(loan) == repaid_loan(*old(loan), amount)
            && (loan_completes(*old(loan), amount) ==> *final(stats) == credited_stats(
            *old(stats),
        )) && (!loan_completes(*old(loan), amount) ==> *final(stats) == *old(stats)) && r == Ok::<
            RepaymentEvent,
            MicroLoanError,
        >(
            RepaymentEvent {
                loan_id: old(loan).id,
                borrower: borrower,
                amount: amount,
                timestamp: now,
                is_platform_fee: is_platform_fee,
            },
        ),
{
    let req = match check_repay(loan, borrower, amount, is_platform_fee, platform_account) {
        Ok(req) => req,
        Err(e) => {
            return Err(e);
        },
    };
    if !transfers.transfer(req.from, req.to, req.amount) {
        return Err(MicroLoanError::TransferFailed);
    }
    let ev = RepaymentEvent {
        loan_id: loan.id,
        borrower,
        amount,
        timestamp: now,
        is_platform_fee,
    };
    apply_repay(loan, stats, amount);
    Ok(ev)
}

/// Closes an `Active` loan as defaulted. Only the registry authority may
/// trigger a default; the deadline judgement is the caller's, not the
/// machine's — no automatic expiry exists. The borrower's credit score
/// drops by two. No value moves: recovering capital for the lender would
/// take an escrow design this ledger does not prescribe.
pub fn handle_default(
    loan: &mut Loan,
    stats: &mut BorrowerStats,
    program_data: &ProgramData,
    caller: u64,
) -> (r: Result<(), MicroLoanError>)
    requires
        old(loan).wf(),
        old(stats).borrower == old(loan).borrower,
        old(stats).credit_score - 2 >= i64::MIN,
    ensures
        final(loan).wf(),
        r == default_guard(*old(loan), program_data.authority, caller),
        r is Err ==> *final(loan) == *old(loan) && *final(stats) == *old(stats),
        r is Ok ==> *final(loan) == defaulted_loan(*old(loan)) && *final(stats) == debited_stats(
            *old(stats),
        ),
{
    if caller != program_data.authority {
        return Err(MicroLoanError::Unauthorized);
    }
    match loan.state {
        LoanState::Active => {
            loan.state = LoanState::Defaulted;
            stats.credit_score = stats.credit_score - 2;
            Ok(())
        },
        _ => Err(MicroLoanError::LoanNotActive),
    }
}

/// The event describing a successful `create_loan`.
pub fn loan_created_event(loan: &Loan) -> (ev: LoanCreatedEvent)
    ensures
        ev == (LoanCreatedEvent {
            loan_id: loan.id,
            borrower: loan.borrower,
            amount: loan.amount,
            interest_rate: loan.interest_rate,
            duration: loan.duration,
        }),
{
    LoanCreatedEvent {
        loan_id: loan.id,
        borrower: loan.borrower,
        amount: loan.amount,
        interest_rate: loan.interest_rate,
        duration: loan.duration,
    }
}

} // verus!
