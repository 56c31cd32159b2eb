//! Builders of test records: the values they hold and the defaults they fill
//! in before a record is written.
pub mod banner;
pub mod connector;
pub mod dynamic_price;
pub mod link;
