//! The import of charging locations, tariffs and prices from Eco-Movement.
pub mod price;
pub mod response;
pub mod tariff;
pub mod location;
pub mod client;
pub mod connector_price;
pub mod db;
pub mod importer;
