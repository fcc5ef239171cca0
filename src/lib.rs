//! Downloads the cover artwork of every game a Steam account owns.
//!
//! The library holds the decisions of that work, each with a contract:
//! how the replies of the remote services are read, how a cover is
//! composed onto its padded canvas and encoded, and how a batch of games is
//! scheduled, resumed and reported. The network and the file system stay
//! with the program that drives it.

pub mod error;
pub mod text;
pub mod json;
pub mod game_list;
pub mod game_name;
pub mod artwork;
pub mod batch;
