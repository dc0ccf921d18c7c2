//! The files of a datapack and the commands in them.

use vstd::prelude::*;
use crate::category::Category;
use crate::cli::{Cli, CliView};
use crate::diagnostics::{Diagnostic, DiagnosticView};
use crate::errors::{Error, ErrorView};
use crate::scoreboards::{
    criterion_of, item_id, stat_criterion, MCScoreboard, ScoreboardView, NAMESPACE_LEN,
};
use crate::stat_map::StatMap;
use crate::stats::{MCStatsView, PlayerStats, PlayerStatsView};
use crate::text::{concat, decimal, skip_chars, u32_to_string};
use crate::versions::{check_version, get_datapack_version, is_supported, pack_format};

verus! {

/// `relative` below the directory `base`: one separator stands between
/// them unless `base` is empty or ends in one.
pub open spec fn joined(base: Seq<char>, relative: Seq<char>) -> Seq<char> {
    if base.len() == 0 {
        relative
    } else if base.last() == '/' {
        base + relative
    } else {
        base + "/"@ + relative
    }
}

/// The directory of the datapack for `version` below `custom_path`.
pub open spec fn base_dir(custom_path: Seq<char>, version: Seq<char>) -> Seq<char> {
    joined(custom_path, "datapacks/mc-scoreboards-"@ + version)
}

/// The directory of the datapack's functions.
pub open spec fn function_dir(custom_path: Seq<char>, version: Seq<char>) -> Seq<char> {
    joined(base_dir(custom_path, version), "data/mc-scoreboards/functions"@)
}

/// Puts `relative` below the directory `base`.
pub fn join_path(base: &str, relative: &str) -> (path: String)
    ensures
        path@ == joined(base@, relative@),
{
    let len = base.unicode_len();
    if len == 0 {
        String::from_str(relative)
    } else {
        let mut path = String::from_str(base);
        if base.get_char(len - 1) != '/' {
            path.append("/");
        }
        path.append(relative);
        path
    }
}

/// Where a datapack and its functions are put.
#[derive(Debug, Clone, PartialEq, Eq)]
pub struct DatapackPaths {
    pub base_path: String,
    pub function_path: String,
}

/// The mathematical content of a [`DatapackPaths`].
pub struct DatapackPathsView {
    pub base_path: Seq<char>,
    pub function_path: Seq<char>,
}

impl DeepView for DatapackPaths {
    type V = DatapackPathsView;

    open spec fn deep_view(&self) -> DatapackPathsView {
        DatapackPathsView { base_path: self.base_path@, function_path: self.function_path@ }
    }
}

impl View for DatapackPaths {
    type V = DatapackPathsView;

    open spec fn view(&self) -> DatapackPathsView {
        self.deep_view()
    }
}

impl DatapackPaths {
    /// The paths of the datapack for `version` below `custom_path`.
    pub fn new(custom_path: &str, version: &str) -> (paths: DatapackPaths)
        ensures
            paths.base_path@ == base_dir(custom_path@, version@),
            paths.function_path@ == function_dir(custom_path@, version@),
    {
        let mut name = String::from_str("datapacks/mc-scoreboards-");
        name.append(version);
        let base_path = join_path(custom_path, name.as_str());
        let function_path = join_path(base_path.as_str(), "data/mc-scoreboards/functions");
        DatapackPaths { base_path, function_path }
    }
}

/// One score of one player.
#[derive(Debug, Clone, PartialEq, Eq)]
pub struct MCStat {
    pub player_name: String,
    /// The category's short code and a hyphen.
    pub stat_type: String,
    /// The item, without its namespace.
    pub item: String,
    pub score: u32,
}

/// The mathematical content of an [`MCStat`].
pub struct MCStatView {
    pub player_name: Seq<char>,
    pub stat_type: Seq<char>,
    pub item: Seq<char>,
    pub score: u32,
}

impl DeepView for MCStat {
    type V = MCStatView;

    open spec fn deep_view(&self) -> MCStatView {
        MCStatView {
            player_name: self.player_name@,
            stat_type: self.stat_type@,
            item: self.item@,
            score: self.score,
        }
    }
}

impl View for MCStat {
    type V = MCStatView;

    open spec fn view(&self) -> MCStatView {
        self.deep_view()
    }
}

/// The score that one entry of a category stands for.
pub open spec fn score_of(
    player_name: Seq<char>,
    entry: (Seq<char>, u32),
    short_type: Seq<char>,
) -> MCStatView {
    MCStatView {
        player_name,
        stat_type: short_type + "-"@,
        item: item_id(entry.0),
        score: entry.1,
    }
}

/// The scores that the entries of one category stand for, in the order of
/// the entries.
pub open spec fn mapped(
    player_name: Seq<char>,
    entries: Seq<(Seq<char>, u32)>,
    short_type: Seq<char>,
) -> Seq<MCStatView> {
    entries.map_values(|entry: (Seq<char>, u32)| score_of(player_name, entry, short_type))
}

/// The scores of one category of a player.
pub open spec fn category_scores(record: PlayerStatsView, category: Category) -> Seq<MCStatView> {
    mapped(record.player_name, record.stats.category(category), category.code())
}

/// All scores of a player: category after category in the fixed order,
/// each category in the order of its entries.
pub open spec fn converted(record: PlayerStatsView) -> Seq<MCStatView> {
    category_scores(record, Category::Mined) + category_scores(record, Category::Crafted)
        + category_scores(record, Category::Used) + category_scores(record, Category::Broken)
        + category_scores(record, Category::Dropped) + category_scores(record, Category::PickedUp)
        + category_scores(record, Category::Killed) + category_scores(record, Category::KilledBy)
        + category_scores(record, Category::Custom)
}

/// Turns the entries of one category into scores of the player.
pub fn map_stat(player_name: &str, stats: &StatMap, short_type: &str) -> (scores: Vec<MCStat>)
    ensures
        scores.deep_view() == mapped(player_name@, stats.entries(), short_type@),
{
    let mut scores: Vec<MCStat> = Vec::new();
    let count = stats.len();
    let mut i: usize = 0;
    while i < count
        invariant
            i <= count,
            count == stats.entries().len(),
            scores.len() == i,
            forall|j: int|
                0 <= j < i ==> (#[trigger] scores[j]).deep_view() == score_of(
                    player_name@,
                    stats.entries()[j],
                    short_type@,
                ),
        decreases count - i,
    {
        let mut stat_type = String::from_str(short_type);
        stat_type.append("-");
        scores.push(
            MCStat {
                player_name: String::from_str(player_name),
                stat_type,
                item: skip_chars(stats.key_at(i), NAMESPACE_LEN),
                score: stats.count_at(i),
            },
        );
        i += 1;
    }
    assert(scores.deep_view() =~= mapped(player_name@, stats.entries(), short_type@));
    scores
}

/// Adds the scores of one category of a player to `all`.
fn append_category(all: &mut Vec<MCStat>, record: &PlayerStats, category: Category)
    ensures
        final(all).deep_view() == old(all).deep_view() + category_scores(record@, category),
{
    let mut scores = map_stat(
        record.player_name.as_str(),
        record.stats.category(category),
        category.short_code(),
    );
    let ghost added = scores.deep_view();
    all.append(&mut scores);
    assert(all.deep_view() =~= old(all).deep_view() + added);
}

/// Flattens the statistics of a player into scores: mined, crafted, used,
/// broken, dropped, picked up, killed, killed by, custom.
pub fn convert_stats(ps: PlayerStats) -> (all_stats: Vec<MCStat>)
    ensures
        all_stats.deep_view() == converted(ps@),
{
    let mut all_stats: Vec<MCStat> = Vec::new();
    assert(all_stats.deep_view() =~= Seq::<MCStatView>::empty());
    append_category(&mut all_stats, &ps, Category::Mined);
    append_category(&mut all_stats, &ps, Category::Crafted);
    append_category(&mut all_stats, &ps, Category::Used);
    append_category(&mut all_stats, &ps, Category::Broken);
    append_category(&mut all_stats, &ps, Category::Dropped);
    append_category(&mut all_stats, &ps, Category::PickedUp);
    append_category(&mut all_stats, &ps, Category::Killed);
    append_category(&mut all_stats, &ps, Category::KilledBy);
    append_category(&mut all_stats, &ps, Category::Custom);
    assert(all_stats.deep_view() =~= converted(ps@));
    all_stats
}

/// The command that sets one score.
pub open spec fn update_line(stat: MCStatView) -> Seq<char> {
    "scoreboard players set "@ + stat.player_name + " "@ + stat.stat_type + stat.item + " "@
        + decimal(stat.score as nat) + "\n"@
}

/// The commands that set the scores of all players: player after player,
/// each with all scores in the order of `converted`.
pub open spec fn update_lines(records: Seq<PlayerStatsView>) -> Seq<Seq<char>>
    decreases records.len(),
{
    if records.len() == 0 {
        Seq::empty()
    } else {
        update_lines(records.drop_last()) + converted(records.last()).map_values(
            |stat: MCStatView| update_line(stat),
        )
    }
}

/// The command that creates the objective `name`.
pub open spec fn create_line(name: Seq<char>, criterion: Seq<char>, text: Seq<char>) -> Seq<char> {
    "scoreboard objectives add "@ + name + " "@ + criterion + " \""@ + text + "\"\n"@
}

/// The command that removes the objective `name`.
pub open spec fn remove_line(name: Seq<char>) -> Seq<char> {
    "scoreboard objectives remove "@ + name + "\n"@
}

/// The commands that create the objectives: one for each record that has
/// a name, in the order of the records.
pub open spec fn create_lines(records: Seq<ScoreboardView>) -> Seq<Seq<char>>
    decreases records.len(),
{
    if records.len() == 0 {
        Seq::empty()
    } else {
        let record = records.last();
        match record.name {
            Some(name) => create_lines(records.drop_last()).push(
                create_line(name, stat_criterion(record.stat), record.translation),
            ),
            None => create_lines(records.drop_last()),
        }
    }
}

/// The commands that remove the objectives: one for each record that has
/// a name, in the order of the records.
pub open spec fn remove_lines(records: Seq<ScoreboardView>) -> Seq<Seq<char>>
    decreases records.len(),
{
    if records.len() == 0 {
        Seq::empty()
    } else {
        match records.last().name {
            Some(name) => remove_lines(records.drop_last()).push(remove_line(name)),
            None => remove_lines(records.drop_last()),
        }
    }
}

/// What is reported of the records without a name, in the order of the
/// records.
pub open spec fn unnamed(records: Seq<ScoreboardView>) -> Seq<DiagnosticView>
    decreases records.len(),
{
    if records.len() == 0 {
        Seq::empty()
    } else {
        let record = records.last();
        match record.name {
            Some(_) => unnamed(records.drop_last()),
            None => unnamed(records.drop_last()).push(
                DiagnosticView::UnparsedStat { stat: record.stat, translation: record.translation },
            ),
        }
    }
}

/// The text of the pack's description file.
pub open spec fn mcmeta(version: Seq<char>) -> Seq<char> {
    "{\n            \"pack\":{\n                \"pack_format\": "@ + decimal(
        pack_format(version) as nat,
    ) + ",\n                \"description\": \"All scoreboards for Minecraft "@ + version
        + "\"\n            }\n        }"@
}

/// Adds the command that sets one score to `text`.
fn push_update_line(text: &mut String, stat: &MCStat)
    ensures
        final(text)@ == old(text)@ + update_line(stat@),
{
    text.append("scoreboard players set ");
    text.append(stat.player_name.as_str());
    text.append(" ");
    text.append(stat.stat_type.as_str());
    text.append(stat.item.as_str());
    text.append(" ");
    text.append(u32_to_string(stat.score).as_str());
    text.append("\n");
    assert(text@ =~= old(text)@ + update_line(stat@));
}

/// Renders the commands that set the scores of all players.
pub fn render_updates(stats: Vec<PlayerStats>) -> (text: String)
    ensures
        text@ == concat(update_lines(stats.deep_view())),
{
    let mut text = String::new();
    let ghost views = stats.deep_view();
    assert(update_lines(views.take(0)) =~= Seq::<Seq<char>>::empty());
    for player_stats in it: stats
        invariant
            it.seq().len() == views.len(),
            forall|k: int| 0 <= k < views.len() ==> (#[trigger] it.seq()[k]).deep_view() == views[k],
            text@ == concat(update_lines(views.take(it.index() as int))),
    {
        let ghost index = it.index() as int;
        let ghost done = update_lines(views.take(index));
        proof {
            assert(views.take(index + 1).drop_last() =~= views.take(index));
            assert(views.take(index + 1).last() == views[index]);
            assert(player_stats.deep_view() == views[index]);
        }
        let mcstats = convert_stats(player_stats);
        let ghost scores = mcstats.deep_view();
        let ghost lines = scores.map_values(|stat: MCStatView| update_line(stat));
        let mut j: usize = 0;
        assert(done + lines.take(0) =~= done);
        while j < mcstats.len()
            invariant
                j <= mcstats.len(),
                scores == mcstats.deep_view(),
                lines == scores.map_values(|stat: MCStatView| update_line(stat)),
                text@ == concat(done + lines.take(j as int)),
            decreases mcstats.len() - j,
        {
            push_update_line(&mut text, &mcstats[j]);
            proof {
                let next = done + lines.take(j + 1);
                assert(next.drop_last() =~= done + lines.take(j as int));
                assert(next.last() == update_line(scores[j as int]));
            }
            j += 1;
        }
        assert(lines.take(mcstats.len() as int) =~= lines);
    }
    assert(views.take(views.len() as int) =~= views);
    text
}

/// The texts of the two functions that create and remove the objectives.
#[derive(Debug, Clone, PartialEq, Eq)]
pub struct BaseFunctions {
    pub create: String,
    pub remove: String,
}

/// Renders the commands that create and that remove the objectives. A
/// record without a name is reported to `log` and left out of both.
pub fn create_base_functions(scoreboards: &Vec<MCScoreboard>, log: &mut Vec<Diagnostic>) -> (functions:
    BaseFunctions)
    ensures
        functions.create@ == concat(create_lines(scoreboards.deep_view())),
        functions.remove@ == concat(remove_lines(scoreboards.deep_view())),
        final(log).deep_view() == old(log).deep_view() + unnamed(scoreboards.deep_view()),
{
    let mut create = String::new();
    let mut remove = String::new();
    let ghost views = scoreboards.deep_view();
    let mut i: usize = 0;
    assert(log.deep_view() =~= old(log).deep_view() + unnamed(views.take(0)));
    while i < scoreboards.len()
        invariant
            i <= scoreboards.len(),
            views == scoreboards.deep_view(),
            create@ == concat(create_lines(views.take(i as int))),
            remove@ == concat(remove_lines(views.take(i as int))),
            log.deep_view() == old(log).deep_view() + unnamed(views.take(i as int)),
        decreases scoreboards.len() - i,
    {
        let stat = &scoreboards[i];
        let ghost log_before = log.deep_view();
        proof {
            assert(views.take(i + 1).drop_last() =~= views.take(i as int));
            assert(views.take(i + 1).last() == views[i as int]);
        }
        match &stat.name {
            Some(name) => {
                let ghost create_before = create@;
                let ghost remove_before = remove@;
                create.append("scoreboard objectives add ");
                create.append(name.as_str());
                create.append(" ");
                create.append(criterion_of(stat.stat.as_str()).as_str());
                create.append(" \"");
                create.append(stat.translation.as_str());
                create.append("\"\n");
                remove.append("scoreboard objectives remove ");
                remove.append(name.as_str());
                remove.append("\n");
                proof {
                    let record = views[i as int];
                    assert(create@ =~= create_before + create_line(
                        name@,
                        stat_criterion(record.stat),
                        record.translation,
                    ));
                    assert(remove@ =~= remove_before + remove_line(name@));
                    assert(create_lines(views.take(i + 1)).drop_last() =~= create_lines(
                        views.take(i as int),
                    ));
                    assert(remove_lines(views.take(i + 1)).drop_last() =~= remove_lines(
                        views.take(i as int),
                    ));
                }
            },
            None => {
                let note = Diagnostic::UnparsedStat {
                    stat: stat.stat.clone(),
                    translation: stat.translation.clone(),
                };
                log.push(note);
                assert(log.deep_view() =~= log_before.push(note@));
            },
        }
        i += 1;
    }
    assert(views.take(scoreboards.len() as int) =~= views);
    BaseFunctions { create, remove }
}

/// Renders the pack's description file for a supported version.
pub fn create_mcmeta_file(version: &str) -> (content: String)
    requires
        is_supported(version@),
    ensures
        content@ == mcmeta(version@),
{
    let mut content = String::from_str("{\n            \"pack\":{\n                \"pack_format\": ");
    content.append(u32_to_string(get_datapack_version(version) as u32).as_str());
    content.append(",\n                \"description\": \"All scoreboards for Minecraft ");
    content.append(version);
    content.append("\"\n            }\n        }");
    content
}

/// One file of the datapack.
#[derive(Debug, Clone, PartialEq, Eq)]
pub struct OutputFile {
    pub path: String,
    pub content: String,
}

/// The mathematical content of an [`OutputFile`].
pub struct OutputFileView {
    pub path: Seq<char>,
    pub content: Seq<char>,
}

impl DeepView for OutputFile {
    type V = OutputFileView;

    open spec fn deep_view(&self) -> OutputFileView {
        OutputFileView { path: self.path@, content: self.content@ }
    }
}

impl View for OutputFile {
    type V = OutputFileView;

    open spec fn view(&self) -> OutputFileView {
        self.deep_view()
    }
}

/// A datapack ready to be written: its directories, and its files in the
/// order in which they are to be written.
#[derive(Debug, Clone, PartialEq, Eq)]
pub struct Datapack {
    pub paths: DatapackPaths,
    pub files: Vec<OutputFile>,
}

/// The mathematical content of a [`Datapack`].
pub struct DatapackView {
    pub paths: DatapackPathsView,
    pub files: Seq<OutputFileView>,
}

impl DeepView for Datapack {
    type V = DatapackView;

    open spec fn deep_view(&self) -> DatapackView {
        DatapackView { paths: self.paths@, files: self.files.deep_view() }
    }
}

impl View for Datapack {
    type V = DatapackView;

    open spec fn view(&self) -> DatapackView {
        self.deep_view()
    }
}

/// The files of a datapack: the description, the function that creates the
/// objectives, the one that removes them and, where players' statistics
/// are given, the one that sets their scores.
pub open spec fn files_of(
    scoreboards: Seq<ScoreboardView>,
    options: CliView,
    stats: Option<Seq<PlayerStatsView>>,
) -> Seq<OutputFileView> {
    let base = base_dir(options.output_dir, options.game_version);
    let functions = function_dir(options.output_dir, options.game_version);
    let fixed = seq![
        OutputFileView { path: joined(base, "pack.mcmeta"@), content: mcmeta(options.game_version) },
        OutputFileView {
            path: joined(functions, "create.mcfunction"@),
            content: concat(create_lines(scoreboards)),
        },
        OutputFileView {
            path: joined(functions, "remove.mcfunction"@),
            content: concat(remove_lines(scoreboards)),
        },
    ];
    match stats {
        Some(records) => fixed.push(
            OutputFileView {
                path: joined(functions, "update.mcfunction"@),
                content: concat(update_lines(records)),
            },
        ),
        None => fixed,
    }
}

/// The datapack for the given schema, options and statistics, or the error
/// that keeps it from being made: a version that is not supported, or a
/// statistics directory without a whitelist.
pub open spec fn datapack_of(
    scoreboards: Seq<ScoreboardView>,
    options: CliView,
    stats: Option<Seq<PlayerStatsView>>,
) -> Result<DatapackView, ErrorView> {
    if !is_supported(options.game_version) {
        Err(ErrorView::UnsupportedVersion { version: options.game_version })
    } else if options.lacks_whitelist() {
        Err(ErrorView::MissingWhitelist)
    } else {
        Ok(
            DatapackView {
                paths: DatapackPathsView {
                    base_path: base_dir(options.output_dir, options.game_version),
                    function_path: function_dir(options.output_dir, options.game_version),
                },
                files: files_of(scoreboards, options, stats),
            },
        )
    }
}

/// Makes the datapack for the given schema and options, with the function
/// that sets the players' scores where `stats` are given. Nothing is made
/// and nothing reported where the options cannot be met; else the records
/// without a name are reported to `log`.
pub fn generate_datapack(
    scoreboards: Vec<MCScoreboard>,
    options: &Cli,
    stats: Option<Vec<PlayerStats>>,
    log: &mut Vec<Diagnostic>,
) -> (result: Result<Datapack, Error>)
    ensures
        match result {
            Ok(datapack) => {
                &&& datapack_of(scoreboards.deep_view(), options@, stats.deep_view()) == Ok::<
                    DatapackView,
                    ErrorView,
                >(datapack@)
                &&& final(log).deep_view() == old(log).deep_view() + unnamed(
                    scoreboards.deep_view(),
                )
            },
            Err(error) => {
                &&& datapack_of(scoreboards.deep_view(), options@, stats.deep_view()) == Err::<
                    DatapackView,
                    ErrorView,
                >(error@)
                &&& final(log).deep_view() == old(log).deep_view()
            },
        },
{
    let version = options.game_version.as_str();
    if !check_version(version) {
        return Err(Error::UnsupportedVersion { version: options.game_version.clone() });
    }
    if options.stats_dir.is_some() && options.whitelist_path.is_none() {
        return Err(Error::MissingWhitelist);
    }
    let paths = DatapackPaths::new(options.output_dir.as_str(), version);
    let functions = create_base_functions(&scoreboards, log);
    let mut files: Vec<OutputFile> = Vec::new();
    files.push(
        OutputFile {
            path: join_path(paths.base_path.as_str(), "pack.mcmeta"),
            content: create_mcmeta_file(version),
        },
    );
    files.push(
        OutputFile {
            path: join_path(paths.function_path.as_str(), "create.mcfunction"),
            content: functions.create,
        },
    );
    files.push(
        OutputFile {
            path: join_path(paths.function_path.as_str(), "remove.mcfunction"),
            content: functions.remove,
        },
    );
    match stats {
        Some(records) => {
            files.push(
                OutputFile {
                    path: join_path(paths.function_path.as_str(), "update.mcfunction"),
                    content: render_updates(records),
                },
            );
        },
        None => {},
    }
    let datapack = Datapack { paths, files };
    assert(datapack@.files =~= files_of(scoreboards.deep_view(), options@, stats.deep_view()));
    Ok(datapack)
}

/// How many entries stand before those of `category` in the fixed order.
pub open spec fn offset(stats: MCStatsView, category: Category) -> nat {
    match category {
        Category::Mined => 0,
        Category::Crafted => stats.mined.len(),
        Category::Used => stats.mined.len() + stats.crafted.len(),
        Category::Broken => stats.mined.len() + stats.crafted.len() + stats.used.len(),
        Category::Dropped => stats.mined.len() + stats.crafted.len() + stats.used.len()
            + stats.broken.len(),
        Category::PickedUp => stats.mined.len() + stats.crafted.len() + stats.used.len()
            + stats.broken.len() + stats.dropped.len(),
        Category::Killed => stats.mined.len() + stats.crafted.len() + stats.used.len()
            + stats.broken.len() + stats.dropped.len() + stats.picked_up.len(),
        Category::KilledBy => stats.mined.len() + stats.crafted.len() + stats.used.len()
            + stats.broken.len() + stats.dropped.len() + stats.picked_up.len()
            + stats.killed.len(),
        Category::Custom => stats.mined.len() + stats.crafted.len() + stats.used.len()
            + stats.broken.len() + stats.dropped.len() + stats.picked_up.len()
            + stats.killed.len() + stats.killed_by.len(),
    }
}

/// How many entries the records hold together.
pub open spec fn total_entries(records: Seq<PlayerStatsView>) -> nat
    decreases records.len(),
{
    if records.len() == 0 {
        0
    } else {
        total_entries(records.drop_last()) + records.last().stats.total()
    }
}

/// Flattening loses and adds nothing: a player has as many scores as the
/// nine categories hold entries, and the entry at `index` of `category`
/// gives the score at its place behind the categories before it, under the
/// player's name and the category's short code.
pub proof fn lemma_conversion_complete(record: PlayerStatsView, category: Category, index: int)
    requires
        0 <= index < record.stats.category(category).len(),
    ensures
        converted(record).len() == record.stats.total(),
        offset(record.stats, category) + index < converted(record).len(),
        converted(record)[offset(record.stats, category) + index] == score_of(
            record.player_name,
            record.stats.category(category)[index],
            category.code(),
        ),
        converted(record)[offset(record.stats, category) + index].stat_type == category.code()
            + "-"@,
{
}

/// Every entry of every player gives exactly one command.
pub proof fn lemma_one_line_per_entry(records: Seq<PlayerStatsView>)
    ensures
        update_lines(records).len() == total_entries(records),
    decreases records.len(),
{
    if records.len() > 0 {
        lemma_one_line_per_entry(records.drop_last());
        lemma_conversion_total(records.last());
    }
}

/// A player has as many scores as the nine categories hold entries.
pub proof fn lemma_conversion_total(record: PlayerStatsView)
    ensures
        converted(record).len() == record.stats.total(),
{
}

/// Every record with a name gives one command in each of the two
/// functions, and every record without one a diagnostic.
pub proof fn lemma_one_objective_per_name(records: Seq<ScoreboardView>)
    ensures
        create_lines(records).len() == remove_lines(records).len(),
        create_lines(records).len() + unnamed(records).len() == records.len(),
    decreases records.len(),
{
    if records.len() > 0 {
        lemma_one_objective_per_name(records.drop_last());
    }
}

/// The datapack is a function of what the schema, the options and the
/// statistics hold: two runs on equal input give the same paths, the same
/// files with the same bytes, and the same diagnostics.
pub proof fn lemma_same_input_same_datapack(
    first_schema: Vec<MCScoreboard>,
    first_options: Cli,
    first_stats: Option<Vec<PlayerStats>>,
    second_schema: Vec<MCScoreboard>,
    second_options: Cli,
    second_stats: Option<Vec<PlayerStats>>,
)
    requires
        first_schema.deep_view() == second_schema.deep_view(),
        first_options@ == second_options@,
        first_stats.deep_view() == second_stats.deep_view(),
    ensures
        datapack_of(first_schema.deep_view(), first_options@, first_stats.deep_view())
            == datapack_of(second_schema.deep_view(), second_options@, second_stats.deep_view()),
        unnamed(first_schema.deep_view()) == unnamed(second_schema.deep_view()),
{
}

} // verus!
