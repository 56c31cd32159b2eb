//! The records that the Eco-Movement API delivers, as far as the import logic
//! reads them. Prices are carried by the application; the library decides on
//! the fields below.
use vstd::prelude::*;

verus! {

/// A charge point operator as Eco-Movement describes it.
#[derive(Debug)]
pub struct Operator {
    pub id: uuid::Uuid,
    pub name: String,
    pub website: Option<String>,
    pub ema_id: Vec<String>,
}

/// An access restriction of a charging location.
#[derive(Debug, Clone, Copy, PartialEq, Eq, Structural)]
pub enum RestrictionType {
    Customers,
    TimeRestricted,
    Other,
}

/// Where a charging location lies.
#[derive(Debug, Clone, Copy, PartialEq, Eq, Structural)]
pub enum LocationType {
    OnStreet,
    ParkingGarage,
    UndergroundGarage,
    ParkingLot,
    Other,
}

/// One connector of an EVSE.
#[derive(Debug)]
pub struct Connector {
    pub id: String,
    pub power_type: PowerType,
    pub max_power: i32,
    pub connector_type: ConnectorType,
}

/// The plug standard of a connector.
#[derive(Debug, Clone, Copy, PartialEq, Eq, Structural)]
pub enum ConnectorType {
    Type2,
    CCS,
    Chademo,
    Other,
}

/// One charging point with its connectors.
#[derive(Debug)]
pub struct Evse {
    pub uid: String,
    pub connectors: Vec<Connector>,
}

/// The current that a connector delivers.
#[derive(Debug, Clone, Copy, PartialEq, Eq, Structural)]
pub enum PowerType {
    Ac3Phase,
    Ac1Phase,
    Dc,
    Other,
}

/// A charging location.
#[derive(Debug)]
pub struct LocationData {
    pub id: uuid::Uuid,
    pub evses: Vec<Evse>,
    pub country: String,
    pub operator: Option<Operator>,
    pub location_type: LocationType,
    pub restrictions: Option<Vec<RestrictionType>>,
}

/// The link between a connector and the prices that apply to it.
#[derive(Debug)]
pub struct ConnectorPrice {
    pub location_id: uuid::Uuid,
    pub evse_uid: String,
    pub connector_id: String,
    pub pricing_ids: Vec<String>,
}

/// A price of a provider for a tariff.
#[derive(Debug)]
pub struct PriceData {
    pub id: String,
    pub provider_name: String,
    pub tariff: Tariff,
    pub elements: Vec<Elements>,
}

/// One element of a price: its components and when they apply.
#[derive(Debug)]
pub struct Elements {
    pub price_components: Vec<Components>,
    pub restrictions: Option<Restrictions>,
}

/// When a price element applies. Durations are in seconds as delivered; the
/// power bounds are whole kilowatts.
#[derive(Debug)]
pub struct Restrictions {
    pub min_duration: Option<u32>,
    pub max_duration: Option<u32>,
    pub start_date: Option<String>,
    pub end_date: Option<String>,
    pub start_time: Option<String>,
    pub end_time: Option<String>,
    pub day_of_week: Option<Vec<String>>,
    pub min_power: Option<u32>,
    pub max_power: Option<u32>,
}

/// A price component. Its amount excluding VAT is a float, which the library
/// carries as its bit pattern (`f64::to_bits`) without reading it; the
/// library reads what kind of component it is.
#[derive(Debug)]
pub struct Components {
    pub price_excl_vat_bits: u64,
    pub vat: i32,
    pub step_size: u32,
    pub price_type: ComponentType,
}

/// What a price component charges for.
#[derive(Debug, Clone, Copy, PartialEq, Eq, Structural)]
pub enum ComponentType {
    Energy,
    Flat,
    ParkingTime,
    Other,
}

/// The product (tariff) that a price belongs to.
#[derive(Debug)]
pub struct Tariff {
    pub id: Option<uuid::Uuid>,
    pub name: String,
    pub description: String,
    pub subscription_type: String,
    pub subscription_fee_excl_vat: String,
    pub _type: TariffType,
    pub currency: String,
}

/// The kind of a tariff.
#[derive(Debug, Clone, Copy, PartialEq, Eq, Structural)]
pub enum TariffType {
    Msp,
    Adhoc,
    CpoSubscription,
    Other,
}

} // verus!
