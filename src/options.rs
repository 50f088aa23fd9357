//! Transaction options and the `START TRANSACTION` command they produce.
use vstd::prelude::*;

verus! {

/// Isolation level requested for a transaction.
#[derive(Clone, Copy, Debug, PartialEq, Eq, Structural)]
pub enum IsolationLevel {
    ReadUncommitted,
    ReadCommitted,
    RepeatableRead,
    Serializable,
}

/// Access mode requested for a transaction.
#[derive(Clone, Copy, Debug, PartialEq, Eq, Structural)]
pub enum ReadVariant {
    ReadOnly,
    ReadWrite,
}

/// SQL spelling of an isolation level.
pub open spec fn level_text(level: IsolationLevel) -> Seq<char> {
    match level {
        IsolationLevel::ReadUncommitted => "READ UNCOMMITTED"@,
        IsolationLevel::ReadCommitted => "READ COMMITTED"@,
        IsolationLevel::RepeatableRead => "REPEATABLE READ"@,
        IsolationLevel::Serializable => "SERIALIZABLE"@,
    }
}

/// The isolation clause, empty when no level is set.
pub open spec fn isolation_clause(level: Option<IsolationLevel>) -> Seq<char> {
    match level {
        Some(l) => " ISOLATION LEVEL "@ + level_text(l),
        None => Seq::empty(),
    }
}

/// The access-mode clause, empty when no mode is set.
pub open spec fn read_variant_clause(read_variant: Option<ReadVariant>) -> Seq<char> {
    match read_variant {
        Some(ReadVariant::ReadOnly) => " READ ONLY"@,
        Some(ReadVariant::ReadWrite) => " READ WRITE"@,
        None => Seq::empty(),
    }
}

/// The deferrable clause, empty when the flag is unset.
pub open spec fn deferable_clause(deferable: Option<bool>) -> Seq<char> {
    match deferable {
        Some(true) => " DEFERRABLE"@,
        Some(false) => " NOT DEFERRABLE"@,
        None => Seq::empty(),
    }
}

/// `START TRANSACTION` followed by the isolation, access-mode and deferrable
/// clauses, in that order, each left out when its option is unset.
pub open spec fn start_transaction_text(
    isolation_level: Option<IsolationLevel>,
    read_variant: Option<ReadVariant>,
    deferable: Option<bool>,
) -> Seq<char> {
    "START TRANSACTION"@ + isolation_clause(isolation_level) + read_variant_clause(read_variant)
        + deferable_clause(deferable)
}

impl IsolationLevel {
    /// The level as it is written in SQL, such as `REPEATABLE READ`.
    pub fn to_str_level(self) -> (r: String)
        ensures
            r@ == level_text(self),
    {
        match self {
            IsolationLevel::ReadUncommitted => String::from_str("READ UNCOMMITTED"),
            IsolationLevel::ReadCommitted => String::from_str("READ COMMITTED"),
            IsolationLevel::RepeatableRead => String::from_str("REPEATABLE READ"),
            IsolationLevel::Serializable => String::from_str("SERIALIZABLE"),
        }
    }
}

/// Builds the command that opens a transaction with the given options.
pub fn start_transaction_command(
    isolation_level: Option<IsolationLevel>,
    read_variant: Option<ReadVariant>,
    deferable: Option<bool>,
) -> (r: String)
    ensures
        r@ == start_transaction_text(isolation_level, read_variant, deferable),
{
    let mut querystring = String::from_str("START TRANSACTION");
    if let Some(level) = isolation_level {
        querystring.append(" ISOLATION LEVEL ");
        let level = level.to_str_level();
        querystring.append(level.as_str());
    }
    match read_variant {
        Some(ReadVariant::ReadOnly) => querystring.append(" READ ONLY"),
        Some(ReadVariant::ReadWrite) => querystring.append(" READ WRITE"),
        None => {},
    }
    match deferable {
        Some(true) => querystring.append(" DEFERRABLE"),
        Some(false) => querystring.append(" NOT DEFERRABLE"),
        None => {},
    }
    querystring
}

} // verus!
