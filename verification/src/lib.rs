//! A peer-to-peer micro-lending ledger.
//!
//! Borrowers post loan requests, lenders fund them, borrowers repay with
//! interest, and a per-borrower credit score tracks repayment behaviour.
//! The crate holds the loan lifecycle state machine
//! (`Created -> Active -> Completed | Defaulted`), the registry that hands
//! out loan identifiers, and the interest arithmetic, each with a verified
//! contract. Moving actual value between accounts is the host's job: the
//! state machine asks for a transfer through the `TransferCapability`
//! trait and commits a transition only when the host reports success.

pub mod events;
pub mod laws;
pub mod machine;
pub mod state;
