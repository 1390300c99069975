//! The decisions the agent service of alo OS makes about who is calling it,
//! which network a connection arrived on, what a machine description says
//! and whether it describes a machine at all, when a record is shortened, what
//! a turn is named, what the person's shell is answered, and in which order a
//! question or a choice is asked before anything leaves — each stated as a
//! contract and proved.

pub mod caller;
pub mod refusing;
pub mod arrived_on;
pub mod text;
pub mod describing;
pub mod decimal;
pub mod bounding;
pub mod ageing;
pub mod side;
pub mod lasting;
pub mod described;
pub mod answering;
pub mod corridor;
pub mod choosing_to_answer;
pub mod answering_discovery;
