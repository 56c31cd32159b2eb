//! The rules behind the backend's stored records: tariffs, operators, providers,
//! plugs, banners and prices.
pub mod tariff;
pub mod plug;
pub mod charging;
pub mod msp;
pub mod cpo;
pub mod operator;
pub mod banner;
pub mod image;
pub mod charge_price;
