//! A car-rental administration store: staff sessions, entity tables with
//! referential integrity, and fixed-point rental prices.

pub mod crud;
pub mod error;
pub mod table;
pub mod price;
pub mod store;
pub mod car;
pub mod manufacturer;
pub mod car_model;
pub mod customer;
pub mod rental_cases;
pub mod staff;
pub mod auth;
pub mod laws;
