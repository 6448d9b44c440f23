//! A verified client-side execution core for a call-level database
//! connectivity interface: handle lifecycle, statement execution states,
//! column-type dispatch, row decoding and textual rendering.

pub mod column;
pub mod decode;
pub mod diag;
pub mod dispatch;
pub mod handles;
pub mod listing;
pub mod render;
pub mod row;
pub mod statement;
pub mod value;
