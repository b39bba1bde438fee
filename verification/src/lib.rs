//! Verified bindings over the `yrs` CRDT library.

pub mod yrs_types;
pub mod origin;
pub mod transfer;
pub mod text;
pub mod transfer_messages;
pub mod txn_calls;
pub mod transfer_run;
pub mod handle_calls;
pub mod values;
pub mod yrs_map;
pub mod yrs_array;
pub mod yrs_text;
pub mod yrs_doc;
pub mod undo_calls;
pub mod capture;
pub mod yrs_undo;
