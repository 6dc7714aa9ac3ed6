//! Keeper logic that turns an attested price snapshot into a pool AUM update.

pub mod decimal;
pub mod fees;
pub mod pacer;
pub mod pipeline;
pub mod prices;
pub mod signature;
