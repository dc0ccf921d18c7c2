//! Turns the statistics that the game keeps of its players into a datapack
//! of scoreboard commands.
//!
//! A schema lists the statistics of a game version; [`scoreboards`] derives a
//! short objective name for each of them. [`whitelist`] and [`listing`] pick
//! the statistics files of the whitelisted players out of a directory, and
//! [`stats`] gathers what was read from those files, passing over the ones
//! that could not be parsed. [`datapack`] renders the commands and lays out
//! the files. Nothing here touches the file system: the caller reads and
//! writes, and hands over what it read.

pub mod category;
pub mod cli;
pub mod datapack;
pub mod diagnostics;
pub mod errors;
pub mod listing;
pub mod scoreboards;
pub mod seqs;
pub mod stat_map;
pub mod stats;
pub mod text;
pub mod versions;
pub mod whitelist;
