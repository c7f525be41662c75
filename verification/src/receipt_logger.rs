//! The receipt logger: one receipt per payroll run, and the nonces that the
//! receipts have spent.

pub mod laws;
pub mod state;
pub mod store;
