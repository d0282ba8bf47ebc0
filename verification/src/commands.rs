//! The commands of the wallet, as plain values.

use vstd::prelude::*;

verus! {

/// One invocation: the command to carry out.
#[derive(Debug, Clone)]
pub struct Cli {
    pub command: Commands,
}

/// The three families of commands.
#[derive(Debug, Clone)]
#[allow(inconsistent_fields)]
pub enum Commands {
    Account { subcommand: AccountCommands },
    Network { subcommand: NetworkCommands },
    Tx { subcommand: TxCommands },
}

/// What can be asked about accounts.
#[derive(Debug, Clone)]
pub enum AccountCommands {
    Create { account_name: String },
    Login { account_name: String },
    List,
    Logout,
    Balance,
    BalanceToken { token_address: String },
    Info,
}

/// What can be asked about networks.
#[derive(Debug, Clone)]
#[allow(inconsistent_fields)]
pub enum NetworkCommands {
    Switch { network_name: String, url: Option<String> },
    List,
    Add { network_name: String, rpc_url: String, native_token: String, chain_id: u64 },
    SetUrl { network_name: String, url: String },
    Info,
}

/// What can be asked about transactions.
#[derive(Debug, Clone)]
pub enum TxCommands {
    Send {
        amount: String,
        destination_address: String,
        gas_price: Option<String>,
        gas_limit: Option<String>,
    },
    SendToken {
        amount: String,
        destination_address: String,
        token_address: String,
        gas_price: Option<String>,
        gas_limit: Option<String>,
    },
    History,
    Info { transaction_hash: String },
}

} // verus!
