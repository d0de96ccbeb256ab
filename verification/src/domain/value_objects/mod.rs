pub mod invoice_state;
pub mod money;
