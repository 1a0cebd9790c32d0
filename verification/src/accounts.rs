//! The kinds of account the ledger knows, as the importers and reports need them.

use vstd::prelude::*;

verus! {

/// What sort of thing an account is. Every question a source or a report has to answer about
/// an account's kind is an exhaustive match on this.
#[derive(Debug, Clone, Copy, PartialEq, Eq, Structural, Hash)]
pub enum AccountKind {
    Cash,
    Bank,
    Savings,
    CreditCard,
    RevolvingCredit,
    Mortgage,
    StudentLoan,
    Loan,
    Liability,
    Vehicle,
    RealEstate,
    Asset,
    SharesNz,
    SharesUs,
    SharesPrivate,
    Brokerage,
    Crypto,
}

} // verus!
