pub mod error;
pub mod order;
pub mod platform;
pub mod price;
pub mod price_category;
pub mod result;
pub mod task;
pub mod token;
pub mod traffic;
pub mod user;
