//! The commands of the deployment tool, as plain values.
use vstd::prelude::*;

verus! {

/// A command, and the network it goes to (`mainnet`, `testnet` or a URL).
#[derive(Debug, Clone, PartialEq, Eq)]
pub struct Cli {
    pub network: String,
    pub command: Commands,
}

/// What the deployment tool can do with a contract.
#[derive(Debug, Clone, PartialEq, Eq)]
pub enum Commands {
    /// Deploy a new contract cell.
    Deploy {
        contract_name: String,
        tag: String,
        payer_address: String,
        owner_address: Option<String>,
        type_id: bool,
    },
    /// Replace a deployed contract cell with a new version.
    Migrate {
        contract_name: String,
        from_tag: String,
        to_tag: String,
        payer_address: String,
        owner_address: Option<String>,
        type_id_mode: String,
    },
    /// Consume a contract cell and release its capacity.
    Consume {
        contract_name: String,
        tag: String,
        payer_address: String,
        receive_address: Option<String>,
    },
}

} // verus!
