//! Edge bookkeeping: ids, adding without duplicates, reconnecting.

pub mod general;
