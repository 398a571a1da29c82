//! The endpoints under `/products`.

pub mod get_product_order_book;
pub mod get_product_ticker;
pub mod get_products;
pub mod get_trades;

pub use self::get_product_order_book::{GetProductOrderBook, Level, OrderBook, OrderInfo};
pub use self::get_product_ticker::GetProductTicker;
pub use self::get_products::GetProducts;
pub use self::get_trades::{GetTrades, Side};
