//! The staging tables of the Eco-Movement import.
use vstd::prelude::*;

verus! {

/// A staging table that an import empties before it fills it again.
#[derive(Debug, Clone, Copy, PartialEq, Eq, Structural)]
pub enum Table {
    Location,
    ConnectorPrice,
    Price,
    Operator,
    Tariff,
}

/// The name of a staging table, as it prints.
pub open spec fn table_name(t: Table) -> Seq<char> {
    match t {
        Table::Location => "location"@,
        Table::ConnectorPrice => "connector_price"@,
        Table::Price => "price"@,
        Table::Operator => "operator"@,
        Table::Tariff => "tariff"@,
    }
}

impl Table {
    /// The name of the table.
    pub fn name(&self) -> (r: &'static str)
        ensures
            r@ == table_name(*self),
    {
        match self {
            Table::Location => "location",
            Table::ConnectorPrice => "connector_price",
            Table::Price => "price",
            Table::Operator => "operator",
            Table::Tariff => "tariff",
        }
    }
}

/// The staging tables that an import of the given endpoint empties first, in
/// the order it empties them.
pub open spec fn tables_to_empty(e: crate::eco_movement::client::Endpoint) -> Seq<Table> {
    match e {
        crate::eco_movement::client::Endpoint::Location => seq![Table::Operator, Table::Location],
        crate::eco_movement::client::Endpoint::Price => seq![Table::Tariff, Table::Price],
        crate::eco_movement::client::Endpoint::ConnectorPrice => seq![Table::ConnectorPrice],
    }
}

/// The staging tables that an import of the given endpoint empties first.
pub fn truncated_tables(e: crate::eco_movement::client::Endpoint) -> (r: Vec<Table>)
    ensures
        r@ == tables_to_empty(e),
{
    match e {
        crate::eco_movement::client::Endpoint::Location => vec![Table::Operator, Table::Location],
        crate::eco_movement::client::Endpoint::Price => vec![Table::Tariff, Table::Price],
        crate::eco_movement::client::Endpoint::ConnectorPrice => vec![Table::ConnectorPrice],
    }
}

} // verus!
