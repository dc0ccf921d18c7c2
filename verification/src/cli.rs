//! The options of a run.

use vstd::prelude::*;
use crate::errors::{Error, ErrorView};

verus! {

/// What the user asked for.
#[derive(Debug, Clone, PartialEq, Eq)]
pub struct Cli {
    /// The version of the game to generate the datapack for.
    pub game_version: String,
    /// The directory of the players' statistics files. Where it is given,
    /// the datapack also holds a function that sets the players' scores.
    pub stats_dir: Option<String>,
    /// The directory to put the datapack in.
    pub output_dir: String,
    /// The whitelist file; required with a statistics directory.
    pub whitelist_path: Option<String>,
}

/// The mathematical content of a [`Cli`].
pub struct CliView {
    pub game_version: Seq<char>,
    pub stats_dir: Option<Seq<char>>,
    pub output_dir: Seq<char>,
    pub whitelist_path: Option<Seq<char>>,
}

/// The statistics directory and the whitelist file to read from.
#[derive(Debug, Clone, PartialEq, Eq)]
pub struct StatsRequest {
    pub stats_dir: String,
    pub whitelist_path: String,
}

impl DeepView for Cli {
    type V = CliView;

    open spec fn deep_view(&self) -> CliView {
        CliView {
            game_version: self.game_version@,
            stats_dir: self.stats_dir.deep_view(),
            output_dir: self.output_dir@,
            whitelist_path: self.whitelist_path.deep_view(),
        }
    }
}

impl View for Cli {
    type V = CliView;

    open spec fn view(&self) -> CliView {
        self.deep_view()
    }
}

impl CliView {
    /// Whether statistics are asked for without a whitelist to go with
    /// them.
    pub open spec fn lacks_whitelist(self) -> bool {
        self.stats_dir is Some && self.whitelist_path is None
    }

    /// What is to be read for the players' scores: nothing without a
    /// statistics directory; else that directory and the whitelist, which
    /// must then be given.
    pub open spec fn stats_request(self) -> Result<Option<(Seq<char>, Seq<char>)>, ErrorView> {
        match self.stats_dir {
            None => Ok(None),
            Some(dir) => match self.whitelist_path {
                None => Err(ErrorView::MissingWhitelist),
                Some(whitelist) => Ok(Some((dir, whitelist))),
            },
        }
    }
}

impl Cli {
    /// Says what is to be read for the players' scores, if anything.
    pub fn stats_request(&self) -> (request: Result<Option<StatsRequest>, Error>)
        ensures
            match request {
                Ok(None) => self@.stats_request() == Ok::<
                    Option<(Seq<char>, Seq<char>)>,
                    ErrorView,
                >(None),
                Ok(Some(r)) => self@.stats_request() == Ok::<
                    Option<(Seq<char>, Seq<char>)>,
                    ErrorView,
                >(Some((r.stats_dir@, r.whitelist_path@))),
                Err(error) => self@.stats_request() == Err::<
                    Option<(Seq<char>, Seq<char>)>,
                    ErrorView,
                >(error@),
            },
    {
        match &self.stats_dir {
            None => Ok(None),
            Some(dir) => match &self.whitelist_path {
                None => Err(Error::MissingWhitelist),
                Some(whitelist) => Ok(
                    Some(StatsRequest { stats_dir: dir.clone(), whitelist_path: whitelist.clone() }),
                ),
            },
        }
    }
}

} // verus!
