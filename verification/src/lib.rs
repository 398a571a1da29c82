//! A typed description of the public market-data REST API of the GDAX
//! exchange: routes, pagination cursors, request descriptors and the
//! endpoints that produce them.

pub mod currencies;
pub mod decimal;
pub mod error;
pub mod products;
pub mod rest_client;
pub mod time;
pub mod url;

pub use rest_client::{Cursor, Pagination};
