//! Events of the Vero contract: which event each contract action emits,
//! under which topic symbol and with which data; and the contract's plain
//! data types with the codes of its operations and errors.

pub mod external;
pub mod symbol;
pub mod event;
pub mod events;
pub mod types;
