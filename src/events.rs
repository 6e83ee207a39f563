use vstd::prelude::*;

verus! {

/// The kinds of event that the node service delivers to its listener, with the
/// fields that the console reads.
#[derive(Debug, Clone, PartialEq, Eq)]
pub enum NodeEvent {
    /// A new block was seen.
    NewBlock { block: u32 },
    /// An inbound payment to one of our invoices settled.
    InvoicePaid,
    /// The node finished synchronising.
    Synced,
    /// An outbound payment succeeded.
    PaymentSucceed,
    /// An outbound payment failed, for `error`.
    PaymentFailed { error: String },
    /// A backup started.
    BackupStarted,
    /// A backup finished.
    BackupSucceeded,
    /// A backup failed.
    BackupFailed,
}

/// What the listener does about an event.
#[derive(Debug, Clone, PartialEq, Eq)]
pub enum EventReaction {
    /// Raise the settlement signal.
    RaiseSettlement,
    /// Report that an outbound payment succeeded.
    ReportPaymentSucceeded,
    /// Report that an outbound payment failed, with its reason.
    ReportPaymentFailed { reason: String },
    /// Nothing.
    Ignore,
}

/// The reaction to an event.
pub open spec fn reaction_of(e: NodeEvent) -> EventReaction {
    match e {
        NodeEvent::InvoicePaid => EventReaction::RaiseSettlement,
        NodeEvent::PaymentSucceed => EventReaction::ReportPaymentSucceeded,
        NodeEvent::PaymentFailed { error } => EventReaction::ReportPaymentFailed { reason: error },
        _ => EventReaction::Ignore,
    }
}

/// Settlement raises the signal, outbound outcomes are reported, and every
/// other kind is ignored.
pub fn react(e: NodeEvent) -> (r: EventReaction)
    ensures
        r == reaction_of(e),
{
    match e {
        NodeEvent::InvoicePaid => EventReaction::RaiseSettlement,
        NodeEvent::PaymentSucceed => EventReaction::ReportPaymentSucceeded,
        NodeEvent::PaymentFailed { error } => EventReaction::ReportPaymentFailed { reason: error },
        NodeEvent::NewBlock { .. } => EventReaction::Ignore,
        NodeEvent::Synced => EventReaction::Ignore,
        NodeEvent::BackupStarted => EventReaction::Ignore,
        NodeEvent::BackupSucceeded => EventReaction::Ignore,
        NodeEvent::BackupFailed => EventReaction::Ignore,
    }
}

} // verus!
