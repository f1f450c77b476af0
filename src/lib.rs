//! Searching for a strong team: nine cards and nine accessories placed in
//! three groups of three, scored by simulating a song. This crate holds the
//! search state and its neighbor enumeration, the random construction of a
//! first state, the skill and target-mask model, card and song data, and
//! the integer statistics a simulation starts from.
pub mod acc_handle;
pub mod acct_info;
pub mod basic_data;
pub mod card;
pub mod cards_api;
pub mod glob;
pub mod masks;
pub mod random;
pub mod schedule;
pub mod sim;
pub mod skill;
pub mod song;
