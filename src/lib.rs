//! Building and checking blind-box transactions on a cell-model ledger.

pub mod codec;
pub mod script;
pub mod cell;
pub mod error;
pub mod workspace;
pub mod chain;
pub mod operation;
pub mod instruction;
pub mod blind_box;
pub mod deployment;
pub mod verification;
pub mod address;
pub mod command;

pub use blind_box::{
    build_open_blind_box, build_purchase_blind_box, AddBlindBoxCelldep, AddBlindBoxOutputCell,
    AddBlindBoxOutputCells, AddBlindBoxPurchaseInputCell, BLIND_BOX_NAME, BLIND_BOX_PRICE,
};
pub use command::{Cli, Commands};
pub use deployment::{DeploymentRecord, ListMode, Network, TypeIdMode};
