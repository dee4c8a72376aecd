use vstd::prelude::*;

verus! {

/// `account group` subcommands: create a group, list or show groups, remove
/// one, add or remove member accounts, set the allocation strategy.
#[derive(Clone, Debug, PartialEq, Eq)]
pub enum AccountGroupCommands {
    /// Create an account group (`strategy`: equal | proportional | weighted | primary_first).
    Create { id: String, name: String, strategy: String },
    /// List account groups.
    List,
    /// Show one account group.
    Show { id: String },
    /// Remove an account group.
    Remove { id: String },
    /// Add an account to a group.
    AddAccount { group_id: String, account_id: String },
    /// Remove an account from a group.
    RemoveAccount { group_id: String, account_id: String },
    /// Set the allocation strategy of a group.
    SetStrategy { group_id: String, strategy: String, primary_account: Option<String> },
}

} // verus!
