//! What the node reports of payments and invoices, and the two sums that a
//! status report shows of either: what is still pending and what is not yet
//! confirmed.

use crate::amount::{decimal_add, decimal_sub, Amount, AmountView};
use vstd::prelude::*;

verus! {

/// A total over a number of agreements.
#[derive(Debug, PartialEq, Eq, Hash)]
pub struct StatValue {
    pub total_amount: Amount,
    pub agreements_count: u64,
}

impl StatValue {
    /// The two totals taken together: the sum of the amounts, whatever its
    /// size, and the sum of the counts, or `None` where that leaves a `u64`.
    pub open spec fn plus(&self, other: &StatValue) -> Option<(AmountView, u64)> {
        if self.agreements_count + other.agreements_count <= u64::MAX {
            Some(
                (
                    self.total_amount@.sum(other.total_amount@),
                    (self.agreements_count + other.agreements_count) as u64,
                ),
            )
        } else {
            None
        }
    }

    /// What is left of this total once `other` is taken from it: the
    /// difference of the amounts, whatever its size or sign, and the difference
    /// of the counts, or `None` where that falls below zero.
    pub open spec fn minus(&self, other: &StatValue) -> Option<(AmountView, u64)> {
        if self.agreements_count >= other.agreements_count {
            Some(
                (
                    self.total_amount@.difference(other.total_amount@),
                    (self.agreements_count - other.agreements_count) as u64,
                ),
            )
        } else {
            None
        }
    }

    pub fn checked_add(&self, other: &StatValue) -> (total: Option<StatValue>)
        ensures
            match self.plus(other) {
                Some((amount, count)) => total is Some && total->0.total_amount@ == amount
                    && total->0.agreements_count == count,
                None => total is None,
            },
    {
        match self.agreements_count.checked_add(other.agreements_count) {
            Some(agreements_count) => Some(
                StatValue {
                    total_amount: decimal_add(&self.total_amount, &other.total_amount),
                    agreements_count,
                },
            ),
            None => None,
        }
    }

    pub fn checked_sub(&self, other: &StatValue) -> (rest: Option<StatValue>)
        ensures
            match self.minus(other) {
                Some((amount, count)) => rest is Some && rest->0.total_amount@ == amount
                    && rest->0.agreements_count == count,
                None => rest is None,
            },
    {
        match self.agreements_count.checked_sub(other.agreements_count) {
            Some(agreements_count) => Some(
                StatValue {
                    total_amount: decimal_sub(&self.total_amount, &other.total_amount),
                    agreements_count,
                },
            ),
            None => None,
        }
    }
}

/// Payments of one direction, by how far each has come.
#[derive(Debug, PartialEq, Eq, Hash)]
pub struct StatusNotes {
    pub requested: StatValue,
    pub accepted: StatValue,
    pub confirmed: StatValue,
}

/// Invoices of one role, by how far each has come.
#[derive(Debug, PartialEq, Eq, Hash)]
pub struct InvoiceStatusNotes {
    pub issued: StatValue,
    pub received: StatValue,
    pub accepted: StatValue,
}

/// The node's account on one payment platform: what it holds, and what goes
/// out of it and comes into it.
#[derive(Debug, PartialEq, Eq)]
pub struct StatusResult {
    pub amount: Amount,
    pub reserved: Amount,
    pub outgoing: StatusNotes,
    pub incoming: StatusNotes,
    pub driver: String,
    pub network: String,
    pub token: String,
}

/// The node's invoices, as the one who pays and as the one who is paid.
#[derive(Debug, PartialEq, Eq, Hash)]
pub struct InvoiceStats {
    pub requestor: InvoiceStatusNotes,
    pub provider: InvoiceStatusNotes,
}

/// The two sums that a report shows, each an amount and a number of agreements.
/// An amount is of any size; a sum is `None` only where its count leaves a
/// `u64`.
pub trait PaymentSummary {
    /// What was accepted and is not yet settled.
    spec fn pending(&self) -> Option<(AmountView, u64)>;

    /// What was asked for and is not yet accepted.
    spec fn outstanding(&self) -> Option<(AmountView, u64)>;

    fn total_pending(&self) -> (sum: Option<(Amount, u64)>)
        ensures
            match self.pending() {
                Some((amount, count)) => sum matches Some(pair) && pair.0@ == amount && pair.1
                    == count,
                None => sum is None,
            },
    ;

    fn unconfirmed(&self) -> (sum: Option<(Amount, u64)>)
        ensures
            match self.outstanding() {
                Some((amount, count)) => sum matches Some(pair) && pair.0@ == amount && pair.1
                    == count,
                None => sum is None,
            },
    ;
}

impl PaymentSummary for StatusNotes {
    /// Accepted less confirmed.
    open spec fn pending(&self) -> Option<(AmountView, u64)> {
        self.accepted.minus(&self.confirmed)
    }

    /// Requested less accepted.
    open spec fn outstanding(&self) -> Option<(AmountView, u64)> {
        self.requested.minus(&self.accepted)
    }

    fn total_pending(&self) -> (sum: Option<(Amount, u64)>) {
        match self.accepted.checked_sub(&self.confirmed) {
            Some(rest) => Some((rest.total_amount, rest.agreements_count)),
            None => None,
        }
    }

    fn unconfirmed(&self) -> (sum: Option<(Amount, u64)>) {
        match self.requested.checked_sub(&self.accepted) {
            Some(rest) => Some((rest.total_amount, rest.agreements_count)),
            None => None,
        }
    }
}

impl PaymentSummary for InvoiceStatusNotes {
    /// The accepted invoices as they stand.
    open spec fn pending(&self) -> Option<(AmountView, u64)> {
        Some((self.accepted.total_amount@, self.accepted.agreements_count))
    }

    /// Issued and received taken together.
    open spec fn outstanding(&self) -> Option<(AmountView, u64)> {
        self.issued.plus(&self.received)
    }

    fn total_pending(&self) -> (sum: Option<(Amount, u64)>)
        ensures
            sum matches Some(pair) && pair.0.negative == self.accepted.total_amount.negative
                && pair.0.magnitude@ == self.accepted.total_amount.magnitude@ && pair.0.scale
                == self.accepted.total_amount.scale,
    {
        Some((self.accepted.total_amount.duplicate(), self.accepted.agreements_count))
    }

    fn unconfirmed(&self) -> (sum: Option<(Amount, u64)>) {
        match self.issued.checked_add(&self.received) {
            Some(total) => Some((total.total_amount, total.agreements_count)),
            None => None,
        }
    }
}

/// Of invoices, what is pending is the accepted total as it stands, and what is
/// not confirmed is the issued and the received totals added up, whatever the
/// accepted total is; the sum is there whenever the two counts add up within a
/// `u64`.
pub proof fn lemma_invoice_sums(notes: InvoiceStatusNotes)
    ensures
        notes.pending() == Some((notes.accepted.total_amount@, notes.accepted.agreements_count)),
        notes.issued.agreements_count + notes.received.agreements_count <= u64::MAX
            ==> notes.outstanding() == Some(
            (
                notes.issued.total_amount@.sum(notes.received.total_amount@),
                (notes.issued.agreements_count + notes.received.agreements_count) as u64,
            ),
        ),
{
}

/// Of payments, what is pending is accepted less confirmed and what is not
/// confirmed is requested less accepted, amount by amount and count by count;
/// the sum is there whenever the count taken off is no larger than the count it
/// is taken from.
pub proof fn lemma_payment_sums(notes: StatusNotes)
    ensures
        notes.accepted.agreements_count >= notes.confirmed.agreements_count ==> notes.pending()
            == Some(
            (
                notes.accepted.total_amount@.difference(notes.confirmed.total_amount@),
                (notes.accepted.agreements_count - notes.confirmed.agreements_count) as u64,
            ),
        ),
        notes.requested.agreements_count >= notes.accepted.agreements_count
            ==> notes.outstanding() == Some(
            (
                notes.requested.total_amount@.difference(notes.accepted.total_amount@),
                (notes.requested.agreements_count - notes.accepted.agreements_count) as u64,
            ),
        ),
{
}

} // verus!
