//! Verified core of a store-ordering backend.
pub mod cql;
pub mod http;
pub mod ids;
pub mod menu;
pub mod model;
pub mod rows;
pub mod stores;
pub mod tables;
pub mod text;
pub mod users;
