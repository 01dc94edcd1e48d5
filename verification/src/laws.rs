//! What the operations of the library are for, stated of their inputs and results: what each
//! call asks of the host, in which order, what it returns for which replies, and how the
//! results of the smaller functions relate to what they are given.

pub mod android;
pub mod connect;
pub mod disconnect;
pub mod effects;
pub mod events;
pub mod replies;
pub mod scan;
pub mod services;
pub mod ui;
pub mod values;
