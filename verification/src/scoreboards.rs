//! Scoreboard objectives and the names derived for them.

use vstd::prelude::*;
use crate::category::Category;
use crate::errors::{Error, ErrorView};
use crate::seqs::first_index_of;
use crate::text::{find_char, skip_chars, without_prefix};

verus! {

/// How many characters of an item key name its namespace, separator
/// included.
pub const NAMESPACE_LEN: usize = 10;

/// One scoreboard objective of a schema.
#[derive(Debug, Clone, PartialEq, Eq)]
pub struct MCScoreboard {
    /// The raw statistic key: a criterion name, a colon and an item key.
    pub stat: String,
    /// The text shown for the objective.
    pub translation: String,
    /// The objective's name, once derived from `stat`.
    pub name: Option<String>,
}

/// The mathematical content of an [`MCScoreboard`].
pub struct ScoreboardView {
    pub stat: Seq<char>,
    pub translation: Seq<char>,
    pub name: Option<Seq<char>>,
}

impl DeepView for MCScoreboard {
    type V = ScoreboardView;

    open spec fn deep_view(&self) -> ScoreboardView {
        ScoreboardView {
            stat: self.stat@,
            translation: self.translation@,
            name: self.name.deep_view(),
        }
    }
}

impl View for MCScoreboard {
    type V = ScoreboardView;

    open spec fn view(&self) -> ScoreboardView {
        self.deep_view()
    }
}

/// `s` abbreviated: the short code where `s` is a criterion name, else `s`
/// itself.
pub open spec fn short_type(s: Seq<char>) -> Seq<char> {
    match Category::of_criterion(s) {
        Some(c) => c.code(),
        None => s,
    }
}

/// An item key without its namespace.
pub open spec fn item_id(key: Seq<char>) -> Seq<char> {
    without_prefix(key, NAMESPACE_LEN as nat)
}

/// The criterion of a raw statistic key: what stands before its first
/// colon, or all of it where there is none.
pub open spec fn stat_criterion(stat: Seq<char>) -> Seq<char> {
    match first_index_of(stat, ':') {
        Some(i) => stat.take(i),
        None => stat,
    }
}

/// The item key of a raw statistic key: what follows its first colon.
pub open spec fn stat_item_key(stat: Seq<char>) -> Option<Seq<char>> {
    match first_index_of(stat, ':') {
        Some(i) => Some(stat.skip(i + 1)),
        None => None,
    }
}

/// The objective name for a raw statistic key: the abbreviated criterion,
/// a hyphen and the item. A key without a colon has none.
pub open spec fn derived_name(stat: Seq<char>) -> Option<Seq<char>> {
    match stat_item_key(stat) {
        Some(key) => Some(short_type(stat_criterion(stat)) + "-"@ + item_id(key)),
        None => None,
    }
}

/// A record with its name derived from its key.
pub open spec fn named(record: ScoreboardView) -> ScoreboardView {
    ScoreboardView {
        stat: record.stat,
        translation: record.translation,
        name: derived_name(record.stat),
    }
}

/// Abbreviates a criterion name to its short code; any other text is
/// returned unchanged.
pub fn shorten_scoreboard_type(s: &str) -> (short: String)
    ensures
        short@ == short_type(s@),
{
    match Category::from_criterion(s) {
        Some(c) => String::from_str(c.short_code()),
        None => String::from_str(s),
    }
}

/// The criterion of a raw statistic key.
pub fn criterion_of(stat: &str) -> (criterion: String)
    ensures
        criterion@ == stat_criterion(stat@),
{
    match find_char(stat, ':') {
        Some(i) => String::from_str(stat.substring_char(0, i)),
        None => String::from_str(stat),
    }
}

/// Derives the objective name for a raw statistic key.
pub fn derive_name(stat: &str) -> (name: Option<String>)
    ensures
        name.deep_view() == derived_name(stat@),
{
    match find_char(stat, ':') {
        Some(i) => {
            let len = stat.unicode_len();
            let mut name = shorten_scoreboard_type(stat.substring_char(0, i));
            let item = skip_chars(stat.substring_char(i + 1, len), NAMESPACE_LEN);
            name.append("-");
            name.append(item.as_str());
            Some(name)
        },
        None => None,
    }
}

/// Fills in the name of every record, in place and in order.
pub fn parse_scoreboards(records: Vec<MCScoreboard>) -> (named_records: Vec<MCScoreboard>)
    ensures
        named_records.deep_view() == records.deep_view().map_values(
            |r: ScoreboardView| named(r),
        ),
{
    let mut records = records;
    let ghost before = records.deep_view();
    let mut i: usize = 0;
    while i < records.len()
        invariant
            i <= records.len(),
            records.len() == before.len(),
            forall|j: int| 0 <= j < i ==> (#[trigger] records[j]).deep_view() == named(before[j]),
            forall|j: int| i <= j < records.len() ==> (#[trigger] records[j]).deep_view() == before[j],
        decreases records.len() - i,
    {
        let name = derive_name(records[i].stat.as_str());
        records[i].name = name;
        i += 1;
    }
    assert(records.deep_view() =~= before.map_values(|r: ScoreboardView| named(r)));
    records
}

/// What came of reading and decoding the schema of a version.
#[derive(Debug, Clone, PartialEq, Eq)]
pub enum SchemaSource {
    /// No schema could be read.
    Missing { cause: String },
    /// The schema's content is no list of records.
    Malformed { cause: String },
    /// The records in the order of the schema.
    Records(Vec<MCScoreboard>),
}

/// The mathematical content of a [`SchemaSource`].
pub enum SchemaSourceView {
    Missing { cause: Seq<char> },
    Malformed { cause: Seq<char> },
    Records(Seq<ScoreboardView>),
}

impl DeepView for SchemaSource {
    type V = SchemaSourceView;

    open spec fn deep_view(&self) -> SchemaSourceView {
        match *self {
            SchemaSource::Missing { cause } => SchemaSourceView::Missing { cause: cause@ },
            SchemaSource::Malformed { cause } => SchemaSourceView::Malformed { cause: cause@ },
            SchemaSource::Records(records) => SchemaSourceView::Records(records.deep_view()),
        }
    }
}

impl View for SchemaSource {
    type V = SchemaSourceView;

    open spec fn view(&self) -> SchemaSourceView {
        self.deep_view()
    }
}

/// Where the schema of a version is kept.
pub open spec fn schema_location(version: Seq<char>) -> Seq<char> {
    "assets/stats_"@ + version + ".json"@
}

/// The objectives that a schema source yields for a version: its records
/// with their names derived, or the error that the source amounts to.
pub open spec fn scoreboards_of(version: Seq<char>, source: SchemaSourceView) -> Result<
    Seq<ScoreboardView>,
    ErrorView,
> {
    match source {
        SchemaSourceView::Missing { cause } => Err(
            ErrorView::SchemaNotFound { path: schema_location(version), cause },
        ),
        SchemaSourceView::Malformed { cause } => Err(
            ErrorView::SchemaParseError { path: schema_location(version), cause },
        ),
        SchemaSourceView::Records(records) => Ok(
            records.map_values(|r: ScoreboardView| named(r)),
        ),
    }
}

/// The path of the schema file of a version.
pub fn schema_path(version: &str) -> (path: String)
    ensures
        path@ == schema_location(version@),
{
    let mut path = String::from_str("assets/stats_");
    path.append(version);
    path.append(".json");
    path
}

/// The objectives of a version, from what was read of its schema.
pub fn get_scoreboards_from_version(version: &str, source: SchemaSource) -> (result: Result<
    Vec<MCScoreboard>,
    Error,
>)
    ensures
        match result {
            Ok(records) => scoreboards_of(version@, source@) == Ok::<
                Seq<ScoreboardView>,
                ErrorView,
            >(records.deep_view()),
            Err(error) => scoreboards_of(version@, source@) == Err::<
                Seq<ScoreboardView>,
                ErrorView,
            >(error@),
        },
{
    match source {
        SchemaSource::Missing { cause } => Err(
            Error::SchemaNotFound { path: schema_path(version), cause },
        ),
        SchemaSource::Malformed { cause } => Err(
            Error::SchemaParseError { path: schema_path(version), cause },
        ),
        SchemaSource::Records(records) => Ok(parse_scoreboards(records)),
    }
}

/// A derived name is a code, a hyphen and an item, where the code is one
/// of the nine short codes or the key's own criterion.
pub proof fn lemma_derived_name_shape(stat: Seq<char>)
    ensures
        derived_name(stat) matches Some(name) ==> ({
            let code = short_type(stat_criterion(stat));
            &&& stat_item_key(stat) matches Some(key) && name == code + "-"@ + item_id(key)
            &&& (code == stat_criterion(stat) || exists|c: Category| code == c.code())
        }),
{
}

/// Naming keeps the number of records, their order, keys and texts; every
/// record then has the name derived from its key.
pub proof fn lemma_named_records(records: Seq<ScoreboardView>, index: int)
    requires
        0 <= index < records.len(),
    ensures
        records.map_values(|r: ScoreboardView| named(r)).len() == records.len(),
        records.map_values(|r: ScoreboardView| named(r))[index].stat == records[index].stat,
        records.map_values(|r: ScoreboardView| named(r))[index].translation
            == records[index].translation,
        records.map_values(|r: ScoreboardView| named(r))[index].name == derived_name(
            records[index].stat,
        ),
{
}

} // verus!
