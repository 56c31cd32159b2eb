//! A builder of staged connectors of the charging-station feed.
use vstd::prelude::*;

use crate::eco_movement::response::{ConnectorType, PowerType};
use crate::text::{decimal, owned, u64_text};
use vstd::string::*;

verus! {

/// A staged connector as written: its id and the id of its charging point.
#[derive(Debug, Clone)]
pub struct EcoConnectorStaging {
    pub id: String,
    pub evse_uid: String,
}

/// Builds a staged connector; ids left open are numbered when it is written.
#[derive(Debug)]
pub struct EcoConnectorBuilder {
    id: Option<String>,
    evse_uid: Option<String>,
    power_type: PowerType,
    max_power: i32,
    connector_type: ConnectorType,
}

/// Everything a staged connector is written with.
#[derive(Debug)]
pub struct EcoConnectorRecord {
    pub id: String,
    pub evse_uid: String,
    pub power_type: PowerType,
    pub max_power: i32,
    pub connector_type: ConnectorType,
}

/// The id given to the `seq`-th connector written without one.
pub open spec fn numbered(prefix: Seq<char>, seq: u32) -> Seq<char> {
    prefix + decimal(seq as int)
}

impl EcoConnectorBuilder {
    /// The id chosen, if any.
    pub closed spec fn chosen_id(&self) -> Option<Seq<char>> {
        match self.id {
            Some(s) => Some(s@),
            None => None,
        }
    }

    /// The charging-point id chosen, if any.
    pub closed spec fn chosen_evse_uid(&self) -> Option<Seq<char>> {
        match self.evse_uid {
            Some(s) => Some(s@),
            None => None,
        }
    }

    /// The current chosen.
    pub closed spec fn chosen_power_type(&self) -> PowerType {
        self.power_type
    }

    /// The maximal power chosen.
    pub closed spec fn chosen_max_power(&self) -> i32 {
        self.max_power
    }

    /// The plug standard chosen.
    pub closed spec fn chosen_connector_type(&self) -> ConnectorType {
        self.connector_type
    }

    /// A builder with no ids, a DC current, 150 kW and a CCS plug.
    pub fn new() -> (r: Self)
        ensures
            r.chosen_id() is None,
            r.chosen_evse_uid() is None,
            r.chosen_power_type() == PowerType::Dc,
            r.chosen_max_power() == 150,
            r.chosen_connector_type() == ConnectorType::CCS,
    {
        EcoConnectorBuilder {
            id: None,
            evse_uid: None,
            power_type: PowerType::Dc,
            max_power: 150,
            connector_type: ConnectorType::CCS,
        }
    }

    /// The builder with the id `id`.
    pub fn id(self, id: &str) -> (r: Self)
        ensures
            r.chosen_id() == Some(id@),
            r.chosen_evse_uid() == self.chosen_evse_uid(),
            r.chosen_power_type() == self.chosen_power_type(),
            r.chosen_max_power() == self.chosen_max_power(),
            r.chosen_connector_type() == self.chosen_connector_type(),
    {
        EcoConnectorBuilder { id: Some(owned(id)), ..self }
    }

    /// The builder with the charging-point id `evse_uid`.
    pub fn evse_uid(self, evse_uid: &str) -> (r: Self)
        ensures
            r.chosen_id() == self.chosen_id(),
            r.chosen_evse_uid() == Some(evse_uid@),
            r.chosen_power_type() == self.chosen_power_type(),
            r.chosen_max_power() == self.chosen_max_power(),
            r.chosen_connector_type() == self.chosen_connector_type(),
    {
        EcoConnectorBuilder { evse_uid: Some(owned(evse_uid)), ..self }
    }

    /// The builder with the current `power_type`.
    pub fn power_type(self, power_type: PowerType) -> (r: Self)
        ensures
            r.chosen_id() == self.chosen_id(),
            r.chosen_evse_uid() == self.chosen_evse_uid(),
            r.chosen_power_type() == power_type,
            r.chosen_max_power() == self.chosen_max_power(),
            r.chosen_connector_type() == self.chosen_connector_type(),
    {
        EcoConnectorBuilder { power_type, ..self }
    }

    /// The builder with the maximal power `max_power`.
    pub fn max_power(self, max_power: i32) -> (r: Self)
        ensures
            r.chosen_id() == self.chosen_id(),
            r.chosen_evse_uid() == self.chosen_evse_uid(),
            r.chosen_power_type() == self.chosen_power_type(),
            r.chosen_max_power() == max_power,
            r.chosen_connector_type() == self.chosen_connector_type(),
    {
        EcoConnectorBuilder { max_power, ..self }
    }

    /// The builder with the plug standard `connector_type`.
    pub fn connector_type(self, connector_type: ConnectorType) -> (r: Self)
        ensures
            r.chosen_id() == self.chosen_id(),
            r.chosen_evse_uid() == self.chosen_evse_uid(),
            r.chosen_power_type() == self.chosen_power_type(),
            r.chosen_max_power() == self.chosen_max_power(),
            r.chosen_connector_type() == connector_type,
    {
        EcoConnectorBuilder { connector_type, ..self }
    }

    /// The record to write: the chosen values, with `connector-<id_seq>` and
    /// `evse-<evse_seq>` for ids left open.
    pub fn record(self, id_seq: u32, evse_seq: u32) -> (r: EcoConnectorRecord)
        ensures
            r.id@ == match self.chosen_id() {
                Some(s) => s,
                None => numbered("connector-"@, id_seq),
            },
            r.evse_uid@ == match self.chosen_evse_uid() {
                Some(s) => s,
                None => numbered("evse-"@, evse_seq),
            },
            r.power_type == self.chosen_power_type(),
            r.max_power == self.chosen_max_power(),
            r.connector_type == self.chosen_connector_type(),
    {
        let id = match self.id {
            Some(s) => s,
            None => {
                let mut s = String::from_str("connector-");
                let n = u64_text(id_seq as u64);
                s.append(n.as_str());
                s
            },
        };
        let evse_uid = match self.evse_uid {
            Some(s) => s,
            None => {
                let mut s = String::from_str("evse-");
                let n = u64_text(evse_seq as u64);
                s.append(n.as_str());
                s
            },
        };
        EcoConnectorRecord {
            id,
            evse_uid,
            power_type: self.power_type,
            max_power: self.max_power,
            connector_type: self.connector_type,
        }
    }
}

impl EcoConnectorRecord {
    /// The staged connector that the written record stands for.
    pub fn staging(&self) -> (r: EcoConnectorStaging)
        ensures
            r.id@ == self.id@,
            r.evse_uid@ == self.evse_uid@,
    {
        EcoConnectorStaging { id: self.id.clone(), evse_uid: self.evse_uid.clone() }
    }
}

} // verus!
