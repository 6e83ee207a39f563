//! Decision logic of an operator console for a self-custodial Lightning node:
//! identity from a seed phrase, recover-or-register bootstrap, a broadcast
//! settlement signal, the startup sequence, and the invoice dispatch loop.

mod bootstrap;
mod dispatch;
mod events;
mod identity;
mod settings;
mod signal;
mod startup;

pub use bootstrap::{Bootstrap, BootstrapAction};
pub use dispatch::{dispatch, strip_line_terminator, Dispatch, ParsedInput};
pub use events::{react, EventReaction, NodeEvent};
pub use identity::{fresh_mnemonic, resolve_identity, IdentityError};
pub use settings::{optional_setting, required_setting, ConfigError};
pub use signal::SettlementSignal;
pub use startup::{
    launch, needs_settlement_wait, Launch, Stage, Startup, StartupAction, StartupEvent,
    StartupFailure, TEST_INVOICE_AMOUNT_SATS,
};
