//! Verified core of a terminal dashboard that watches a publish/subscribe
//! network: per-view row navigation, tab cycling, and the tabular rendering
//! (sorting, cell formatting, column sizing) of the views, with the terminal
//! and the shared state store kept behind the caller's boundary.

pub mod nav;
pub mod tab_abnormality;
pub mod table;
pub mod ui;
