use vstd::prelude::*;
use crate::identity::{bip39_accepts, fresh_mnemonic, space_count, FRESH_WORD_COUNT};
use crate::settings::optional_setting;

verus! {

/// Amount, in satoshis, of the invoice that a new or empty node asks to be paid.
pub const TEST_INVOICE_AMOUNT_SATS: u64 = 10000;

/// How the console begins, given the mnemonic setting.
#[derive(Debug, Clone, PartialEq, Eq)]
pub enum Launch {
    /// No mnemonic is set: show this fresh one, ask the operator to set it, and
    /// exit successfully without contacting the node service.
    ShowFreshMnemonic { phrase: String },
    /// Resolve the node identity from this phrase.
    Resolve { phrase: String },
}

/// Decides between first-run setup and a normal start. An absent or empty
/// mnemonic setting leads to setup with a fresh twelve-word phrase.
pub fn launch(mnemonic: Option<String>) -> (r: Launch)
    ensures
        (mnemonic is None || mnemonic->0@.len() == 0) <==> r is ShowFreshMnemonic,
        r matches Launch::ShowFreshMnemonic { phrase } ==> bip39_accepts(phrase@) && space_count(
            phrase@,
        ) + 1 == FRESH_WORD_COUNT,
        r matches Launch::Resolve { phrase } ==> mnemonic matches Some(m) && phrase@ == m@,
{
    match optional_setting(mnemonic) {
        Some(phrase) => Launch::Resolve { phrase },
        None => Launch::ShowFreshMnemonic { phrase: fresh_mnemonic() },
    }
}

/// Whether the node must be funded before invoices are relayed: it was just
/// created, or it cannot pay anything yet.
pub open spec fn must_fund(is_new_node: bool, max_payable_msat: u64) -> bool {
    is_new_node || max_payable_msat == 0
}

/// Whether to issue a test invoice and wait for its settlement.
pub fn needs_settlement_wait(is_new_node: bool, max_payable_msat: u64) -> (r: bool)
    ensures
        r == must_fund(is_new_node, max_payable_msat),
{
    is_new_node || max_payable_msat == 0
}

/// Where the startup sequence stands once the session credentials are known.
#[derive(Debug, Clone, Copy, PartialEq, Eq, Structural)]
pub enum Stage {
    /// The session is being started.
    Starting,
    /// Node information is being fetched.
    QueryingNode,
    /// A test invoice is being created.
    CreatingInvoice,
    /// Waiting for the test invoice to settle.
    AwaitingSettlement,
    /// Startup is over; invoices are relayed from now on.
    Dispatching,
    /// Startup stopped on a fatal error.
    Failed,
}

/// Which step of startup failed.
#[derive(Debug, Clone, Copy, PartialEq, Eq, Structural)]
pub enum StartupFailure {
    /// The session could not be started.
    SessionStart,
    /// Node information could not be fetched.
    NodeQuery,
    /// A started session reported no node information.
    NodeInfoMissing,
    /// The test invoice could not be created.
    InvoiceCreation,
}

/// What the service or the signal reported to the startup sequence.
#[derive(Debug, Clone, Copy, PartialEq, Eq, Structural)]
pub enum StartupEvent {
    /// The session is up.
    SessionStarted,
    /// The session could not be started.
    SessionFailed,
    /// Node information, with what the node can pay, in millisatoshis.
    NodeInfo { max_payable_msat: u64 },
    /// The session reported no node information.
    NodeInfoMissing,
    /// Fetching node information failed.
    NodeQueryFailed,
    /// The test invoice was created and shown.
    InvoiceCreated,
    /// The test invoice could not be created.
    InvoiceFailed,
    /// The settlement signal woke the waiting task.
    Settled,
}

/// What the caller must do next.
#[derive(Debug, Clone, Copy, PartialEq, Eq, Structural)]
pub enum StartupAction {
    /// Fetch node information.
    QueryNode,
    /// Create an invoice over this many satoshis and show it.
    CreateInvoice { amount_sats: u64 },
    /// Wait for the settlement signal.
    AwaitSettlement,
    /// Hand over to the dispatch loop.
    EnterDispatch,
    /// Stop with a fatal error.
    Abort { failure: StartupFailure },
    /// The event does not belong to the current stage: nothing to do.
    Nothing,
}

/// The startup sequence from session start to the dispatch loop.
#[derive(Debug, Clone, Copy, PartialEq, Eq, Structural)]
pub struct Startup {
    pub stage: Stage,
    pub is_new_node: bool,
}

/// The next stage and action after `ev` in `s`.
pub open spec fn startup_step(s: Startup, ev: StartupEvent) -> (Startup, StartupAction) {
    let at = |stage: Stage| Startup { stage, is_new_node: s.is_new_node };
    match (s.stage, ev) {
        (Stage::Starting, StartupEvent::SessionStarted) => (
            at(Stage::QueryingNode),
            StartupAction::QueryNode,
        ),
        (Stage::Starting, StartupEvent::SessionFailed) => (
            at(Stage::Failed),
            StartupAction::Abort { failure: StartupFailure::SessionStart },
        ),
        (Stage::QueryingNode, StartupEvent::NodeInfo { max_payable_msat }) => if must_fund(
            s.is_new_node,
            max_payable_msat,
        ) {
            (
                at(Stage::CreatingInvoice),
                StartupAction::CreateInvoice { amount_sats: TEST_INVOICE_AMOUNT_SATS },
            )
        } else {
            (at(Stage::Dispatching), StartupAction::EnterDispatch)
        },
        (Stage::QueryingNode, StartupEvent::NodeInfoMissing) => (
            at(Stage::Failed),
            StartupAction::Abort { failure: StartupFailure::NodeInfoMissing },
        ),
        (Stage::QueryingNode, StartupEvent::NodeQueryFailed) => (
            at(Stage::Failed),
            StartupAction::Abort { failure: StartupFailure::NodeQuery },
        ),
        (Stage::CreatingInvoice, StartupEvent::InvoiceCreated) => (
            at(Stage::AwaitingSettlement),
            StartupAction::AwaitSettlement,
        ),
        (Stage::CreatingInvoice, StartupEvent::InvoiceFailed) => (
            at(Stage::Failed),
            StartupAction::Abort { failure: StartupFailure::InvoiceCreation },
        ),
        (Stage::AwaitingSettlement, StartupEvent::Settled) => (
            at(Stage::Dispatching),
            StartupAction::EnterDispatch,
        ),
        _ => (s, StartupAction::Nothing),
    }
}

impl Startup {
    /// Startup for a node whose credentials are known; the caller starts the
    /// session first.
    pub fn new(is_new_node: bool) -> (r: Self)
        ensures
            r == (Startup { stage: Stage::Starting, is_new_node }),
    {
        Startup { stage: Stage::Starting, is_new_node }
    }

    /// Takes in an event and says what to do next.
    pub fn on_event(&mut self, ev: StartupEvent) -> (r: StartupAction)
        ensures
            (*final(self), r) == startup_step(*old(self), ev),
    {
        let is_new_node = self.is_new_node;
        let (stage, action) = match (self.stage, ev) {
            (Stage::Starting, StartupEvent::SessionStarted) => (
                Stage::QueryingNode,
                StartupAction::QueryNode,
            ),
            (Stage::Starting, StartupEvent::SessionFailed) => (
                Stage::Failed,
                StartupAction::Abort { failure: StartupFailure::SessionStart },
            ),
            (Stage::QueryingNode, StartupEvent::NodeInfo { max_payable_msat }) => {
                if needs_settlement_wait(is_new_node, max_payable_msat) {
                    (
                        Stage::CreatingInvoice,
                        StartupAction::CreateInvoice { amount_sats: TEST_INVOICE_AMOUNT_SATS },
                    )
                } else {
                    (Stage::Dispatching, StartupAction::EnterDispatch)
                }
            },
            (Stage::QueryingNode, StartupEvent::NodeInfoMissing) => (
                Stage::Failed,
                StartupAction::Abort { failure: StartupFailure::NodeInfoMissing },
            ),
            (Stage::QueryingNode, StartupEvent::NodeQueryFailed) => (
                Stage::Failed,
                StartupAction::Abort { failure: StartupFailure::NodeQuery },
            ),
            (Stage::CreatingInvoice, StartupEvent::InvoiceCreated) => (
                Stage::AwaitingSettlement,
                StartupAction::AwaitSettlement,
            ),
            (Stage::CreatingInvoice, StartupEvent::InvoiceFailed) => (
                Stage::Failed,
                StartupAction::Abort { failure: StartupFailure::InvoiceCreation },
            ),
            (Stage::AwaitingSettlement, StartupEvent::Settled) => (
                Stage::Dispatching,
                StartupAction::EnterDispatch,
            ),
            _ => (self.stage, StartupAction::Nothing),
        };
        self.stage = stage;
        action
    }
}

/// A node that was recovered and can already pay goes from session start
/// straight to the dispatch loop: no invoice is created and nothing is awaited.
pub proof fn lemma_funded_node_skips_settlement(max_payable_msat: u64)
    requires
        max_payable_msat > 0,
    ensures
        ({
            let (s1, a1) = startup_step(
                Startup { stage: Stage::Starting, is_new_node: false },
                StartupEvent::SessionStarted,
            );
            let (s2, a2) = startup_step(s1, StartupEvent::NodeInfo { max_payable_msat });
            &&& a1 == StartupAction::QueryNode
            &&& a2 == StartupAction::EnterDispatch
            &&& s2.stage == Stage::Dispatching
        }),
{
}

/// A new or empty node reaches the dispatch loop only through a created test
/// invoice and its settlement.
pub proof fn lemma_unfunded_node_waits(is_new_node: bool, max_payable_msat: u64)
    requires
        must_fund(is_new_node, max_payable_msat),
    ensures
        ({
            let (s1, a1) = startup_step(
                Startup { stage: Stage::QueryingNode, is_new_node },
                StartupEvent::NodeInfo { max_payable_msat },
            );
            let (s2, a2) = startup_step(s1, StartupEvent::InvoiceCreated);
            let (s3, a3) = startup_step(s2, StartupEvent::Settled);
            &&& a1 == (StartupAction::CreateInvoice { amount_sats: TEST_INVOICE_AMOUNT_SATS })
            &&& a2 == StartupAction::AwaitSettlement
            &&& s2.stage == Stage::AwaitingSettlement
            &&& startup_step(s2, StartupEvent::SessionStarted) == (s2, StartupAction::Nothing)
            &&& a3 == StartupAction::EnterDispatch
            &&& s3.stage == Stage::Dispatching
        }),
{
}

} // verus!
