//! The statistics of the players and how they are gathered from the files
//! that were read.

use vstd::prelude::*;
use crate::category::Category;
use crate::diagnostics::{Diagnostic, DiagnosticView};
use crate::listing::{PlayerFile, PlayerFileView};
use crate::stat_map::StatMap;

verus! {

/// The counts of one player, by category.
#[derive(Debug, Clone, PartialEq, Eq)]
pub struct MCStats {
    pub mined: StatMap,
    pub crafted: StatMap,
    pub used: StatMap,
    pub broken: StatMap,
    pub dropped: StatMap,
    pub picked_up: StatMap,
    pub killed: StatMap,
    pub killed_by: StatMap,
    pub custom: StatMap,
}

/// The mathematical content of an [`MCStats`]: for each category its
/// entries in order.
pub struct MCStatsView {
    pub mined: Seq<(Seq<char>, u32)>,
    pub crafted: Seq<(Seq<char>, u32)>,
    pub used: Seq<(Seq<char>, u32)>,
    pub broken: Seq<(Seq<char>, u32)>,
    pub dropped: Seq<(Seq<char>, u32)>,
    pub picked_up: Seq<(Seq<char>, u32)>,
    pub killed: Seq<(Seq<char>, u32)>,
    pub killed_by: Seq<(Seq<char>, u32)>,
    pub custom: Seq<(Seq<char>, u32)>,
}

impl MCStatsView {
    /// The entries of one category.
    pub open spec fn category(self, category: Category) -> Seq<(Seq<char>, u32)> {
        match category {
            Category::Mined => self.mined,
            Category::Crafted => self.crafted,
            Category::Used => self.used,
            Category::Broken => self.broken,
            Category::Dropped => self.dropped,
            Category::PickedUp => self.picked_up,
            Category::Killed => self.killed,
            Category::KilledBy => self.killed_by,
            Category::Custom => self.custom,
        }
    }

    /// How many entries the nine categories hold together.
    pub open spec fn total(self) -> nat {
        self.mined.len() + self.crafted.len() + self.used.len() + self.broken.len()
            + self.dropped.len() + self.picked_up.len() + self.killed.len() + self.killed_by.len()
            + self.custom.len()
    }
}

impl DeepView for MCStats {
    type V = MCStatsView;

    open spec fn deep_view(&self) -> MCStatsView {
        MCStatsView {
            mined: self.mined.entries(),
            crafted: self.crafted.entries(),
            used: self.used.entries(),
            broken: self.broken.entries(),
            dropped: self.dropped.entries(),
            picked_up: self.picked_up.entries(),
            killed: self.killed.entries(),
            killed_by: self.killed_by.entries(),
            custom: self.custom.entries(),
        }
    }
}

impl View for MCStats {
    type V = MCStatsView;

    open spec fn view(&self) -> MCStatsView {
        self.deep_view()
    }
}

impl MCStats {
    /// In no category does a key occur twice.
    pub open spec fn wf(&self) -> bool {
        &&& self.mined.wf()
        &&& self.crafted.wf()
        &&& self.used.wf()
        &&& self.broken.wf()
        &&& self.dropped.wf()
        &&& self.picked_up.wf()
        &&& self.killed.wf()
        &&& self.killed_by.wf()
        &&& self.custom.wf()
    }

    /// Statistics without any entry: what a file gives that names no
    /// category.
    pub fn new() -> (stats: MCStats)
        ensures
            stats.wf(),
            stats@.total() == 0,
            forall|c: Category| stats@.category(c) == Seq::<(Seq<char>, u32)>::empty(),
    {
        MCStats {
            mined: StatMap::new(),
            crafted: StatMap::new(),
            used: StatMap::new(),
            broken: StatMap::new(),
            dropped: StatMap::new(),
            picked_up: StatMap::new(),
            killed: StatMap::new(),
            killed_by: StatMap::new(),
            custom: StatMap::new(),
        }
    }

    /// The counts of one category.
    pub fn category(&self, category: Category) -> (map: &StatMap)
        ensures
            map.entries() == self@.category(category),
    {
        match category {
            Category::Mined => &self.mined,
            Category::Crafted => &self.crafted,
            Category::Used => &self.used,
            Category::Broken => &self.broken,
            Category::Dropped => &self.dropped,
            Category::PickedUp => &self.picked_up,
            Category::Killed => &self.killed,
            Category::KilledBy => &self.killed_by,
            Category::Custom => &self.custom,
        }
    }
}

/// The statistics of one whitelisted player.
#[derive(Debug, Clone, PartialEq, Eq)]
pub struct PlayerStats {
    pub stats: MCStats,
    pub player_name: String,
}

/// The mathematical content of a [`PlayerStats`].
pub struct PlayerStatsView {
    pub stats: MCStatsView,
    pub player_name: Seq<char>,
}

impl DeepView for PlayerStats {
    type V = PlayerStatsView;

    open spec fn deep_view(&self) -> PlayerStatsView {
        PlayerStatsView { stats: self.stats@, player_name: self.player_name@ }
    }
}

impl View for PlayerStats {
    type V = PlayerStatsView;

    open spec fn view(&self) -> PlayerStatsView {
        self.deep_view()
    }
}

/// What came of reading and decoding one player's statistics file.
#[derive(Debug, Clone, PartialEq, Eq)]
pub enum StatFileRead {
    /// The statistics that the file holds.
    Parsed(MCStats),
    /// The file could not be read or decoded: the reason, and the file's
    /// text where it could be read after all.
    Failed { error: String, content: Option<String> },
}

/// The mathematical content of a [`StatFileRead`].
pub enum StatFileReadView {
    Parsed(MCStatsView),
    Failed { error: Seq<char>, content: Option<Seq<char>> },
}

impl DeepView for StatFileRead {
    type V = StatFileReadView;

    open spec fn deep_view(&self) -> StatFileReadView {
        match *self {
            StatFileRead::Parsed(stats) => StatFileReadView::Parsed(stats@),
            StatFileRead::Failed { error, content } => StatFileReadView::Failed {
                error: error@,
                content: content.deep_view(),
            },
        }
    }
}

/// A selected file with what was read from it.
#[derive(Debug, Clone, PartialEq, Eq)]
pub struct LoadedFile {
    pub file: PlayerFile,
    pub read: StatFileRead,
}

/// The mathematical content of a [`LoadedFile`].
pub struct LoadedFileView {
    pub file: PlayerFileView,
    pub read: StatFileReadView,
}

impl DeepView for LoadedFile {
    type V = LoadedFileView;

    open spec fn deep_view(&self) -> LoadedFileView {
        LoadedFileView { file: self.file@, read: self.read.deep_view() }
    }
}

impl View for LoadedFile {
    type V = LoadedFileView;

    open spec fn view(&self) -> LoadedFileView {
        self.deep_view()
    }
}

/// Where in a file's text the marker of the old format stands.
pub const LEGACY_MARKER_START: usize = 2;

/// Where the marker of the old format ends.
pub const LEGACY_MARKER_END: usize = 6;

/// Whether a file's text carries the marker of the old statistics format:
/// the word `stat` as its third to sixth character.
pub open spec fn is_legacy(content: Seq<char>) -> bool {
    content.len() >= LEGACY_MARKER_END && content.subrange(
        LEGACY_MARKER_START as int,
        LEGACY_MARKER_END as int,
    ) == "stat"@
}

/// Tells whether a file's text carries the marker of the old format.
pub fn is_legacy_format(content: &str) -> (legacy: bool)
    ensures
        legacy == is_legacy(content@),
{
    proof {
        reveal_strlit("stat");
    }
    if content.unicode_len() < LEGACY_MARKER_END {
        false
    } else {
        let start = LEGACY_MARKER_START;
        let legacy = content.get_char(start) == 's' && content.get_char(start + 1) == 't'
            && content.get_char(start + 2) == 'a' && content.get_char(start + 3) == 't';
        proof {
            let marker = content@.subrange(LEGACY_MARKER_START as int, LEGACY_MARKER_END as int);
            if legacy {
                assert(marker =~= "stat"@);
            } else {
                assert(marker[0] == content@[2]);
                assert(marker[1] == content@[3]);
                assert(marker[2] == content@[4]);
                assert(marker[3] == content@[5]);
            }
        }
        legacy
    }
}

/// The record that a loaded file yields: that of its player, where the
/// file was parsed.
pub open spec fn record_of(loaded: LoadedFileView) -> Option<PlayerStatsView> {
    match loaded.read {
        StatFileReadView::Parsed(stats) => Some(
            PlayerStatsView { stats, player_name: loaded.file.player_name },
        ),
        StatFileReadView::Failed { .. } => None,
    }
}

/// What is reported of a loaded file: nothing where it was parsed; else
/// the failure, and after it the old format where the text shows it.
pub open spec fn notes_of(loaded: LoadedFileView) -> Seq<DiagnosticView> {
    match loaded.read {
        StatFileReadView::Parsed(_) => Seq::empty(),
        StatFileReadView::Failed { error, content } => {
            let failure = DiagnosticView::ParseFailed {
                player_name: loaded.file.player_name,
                player_uuid: loaded.file.player_uuid,
                error,
            };
            match content {
                Some(text) => if is_legacy(text) {
                    seq![failure, DiagnosticView::LegacyFormat { player_name: loaded.file.player_name }]
                } else {
                    seq![failure]
                },
                None => seq![failure],
            }
        },
    }
}

/// The records of the files that were parsed, in the order of the files.
pub open spec fn records_of(loaded: Seq<LoadedFileView>) -> Seq<PlayerStatsView>
    decreases loaded.len(),
{
    if loaded.len() == 0 {
        Seq::empty()
    } else {
        match record_of(loaded.last()) {
            Some(record) => records_of(loaded.drop_last()).push(record),
            None => records_of(loaded.drop_last()),
        }
    }
}

/// What is reported of the files, in the order of the files.
pub open spec fn notes(loaded: Seq<LoadedFileView>) -> Seq<DiagnosticView>
    decreases loaded.len(),
{
    if loaded.len() == 0 {
        Seq::empty()
    } else {
        notes(loaded.drop_last()) + notes_of(loaded.last())
    }
}

/// Reports a file that could not be parsed.
fn report_failure(file: &PlayerFile, error: String, content: &Option<String>, log: &mut Vec<Diagnostic>)
    ensures
        final(log).deep_view() == old(log).deep_view() + notes_of(
            LoadedFileView {
                file: file@,
                read: StatFileReadView::Failed { error: error@, content: content.deep_view() },
            },
        ),
{
    let ghost before = log.deep_view();
    let failure = Diagnostic::ParseFailed {
        player_name: file.player_name.clone(),
        player_uuid: file.player_uuid,
        error,
    };
    log.push(failure);
    assert(log.deep_view() =~= before.push(failure@));
    let legacy = match content {
        Some(text) => is_legacy_format(text.as_str()),
        None => false,
    };
    if legacy {
        let ghost with_failure = log.deep_view();
        let marker = Diagnostic::LegacyFormat { player_name: file.player_name.clone() };
        log.push(marker);
        assert(log.deep_view() =~= with_failure.push(marker@));
        assert(log.deep_view() =~= before + seq![failure@, marker@]);
    } else {
        assert(log.deep_view() =~= before + seq![failure@]);
    }
}

/// Gathers the records of the players whose files were parsed, in the
/// order of the files. A file that failed is reported to `log` and leaves
/// no record; it never affects the files around it.
pub fn get_stats(loaded: Vec<LoadedFile>, log: &mut Vec<Diagnostic>) -> (records: Vec<PlayerStats>)
    ensures
        records.deep_view() == records_of(loaded.deep_view()),
        final(log).deep_view() == old(log).deep_view() + notes(loaded.deep_view()),
{
    let mut records: Vec<PlayerStats> = Vec::new();
    let ghost views = loaded.deep_view();
    assert(records.deep_view() =~= records_of(views.take(0)));
    assert(log.deep_view() =~= old(log).deep_view() + notes(views.take(0)));
    for item in it: loaded
        invariant
            it.seq().len() == views.len(),
            forall|k: int| 0 <= k < views.len() ==> (#[trigger] it.seq()[k]).deep_view() == views[k],
            records.deep_view() == records_of(views.take(it.index() as int)),
            log.deep_view() == old(log).deep_view() + notes(views.take(it.index() as int)),
    {
        let ghost index = it.index() as int;
        let ghost records_before = records.deep_view();
        let ghost log_before = log.deep_view();
        proof {
            assert(views.take(index + 1).drop_last() =~= views.take(index));
            assert(views.take(index + 1).last() == views[index]);
            assert(item.deep_view() == views[index]);
        }
        let LoadedFile { file, read } = item;
        match read {
            StatFileRead::Parsed(stats) => {
                let record = PlayerStats { stats, player_name: file.player_name };
                records.push(record);
                assert(records.deep_view() =~= records_before.push(record@));
                assert(log.deep_view() =~= log_before + notes_of(views[index]));
            },
            StatFileRead::Failed { error, content } => {
                report_failure(&file, error, &content, log);
            },
        }
    }
    assert(views.take(views.len() as int) =~= views);
    records
}

/// The records of two runs of files are those of the first run followed
/// by those of the second.
pub proof fn lemma_records_concat(first: Seq<LoadedFileView>, second: Seq<LoadedFileView>)
    ensures
        records_of(first + second) == records_of(first) + records_of(second),
    decreases second.len(),
{
    if second.len() == 0 {
        assert(first + second =~= first);
        assert(records_of(first) + records_of(second) =~= records_of(first));
    } else {
        let all = first + second;
        assert(all.drop_last() =~= first + second.drop_last());
        assert(all.last() == second.last());
        lemma_records_concat(first, second.drop_last());
        match record_of(second.last()) {
            Some(record) => {
                assert(records_of(all) =~= records_of(first) + records_of(second));
            },
            None => {},
        }
    }
}

/// A file that failed leaves no record and does not touch the records of
/// the files before and after it.
pub proof fn lemma_failed_file_dropped(
    before: Seq<LoadedFileView>,
    failed: LoadedFileView,
    after: Seq<LoadedFileView>,
)
    requires
        failed.read is Failed,
    ensures
        records_of(before + seq![failed] + after) == records_of(before + after),
{
    lemma_records_concat(before + seq![failed], after);
    lemma_records_concat(before, seq![failed]);
    lemma_records_concat(before, after);
    let single = seq![failed];
    assert(single.drop_last() =~= Seq::<LoadedFileView>::empty());
    assert(single.last() == failed);
    assert(records_of(single.drop_last()) =~= Seq::<PlayerStatsView>::empty());
    assert(records_of(single) =~= Seq::<PlayerStatsView>::empty());
    assert(records_of(before) + Seq::<PlayerStatsView>::empty() =~= records_of(before));
}

/// Where every file was parsed there is one record for each file, in
/// order.
pub proof fn lemma_all_parsed(loaded: Seq<LoadedFileView>)
    requires
        forall|i: int| 0 <= i < loaded.len() ==> (#[trigger] loaded[i]).read is Parsed,
    ensures
        records_of(loaded).len() == loaded.len(),
        forall|i: int|
            0 <= i < loaded.len() ==> Some(#[trigger] records_of(loaded)[i]) == record_of(
                loaded[i],
            ),
    decreases loaded.len(),
{
    if loaded.len() > 0 {
        let front = loaded.drop_last();
        assert forall|i: int| 0 <= i < front.len() implies (#[trigger] front[i]).read is Parsed by {
            assert(front[i] == loaded[i]);
        }
        lemma_all_parsed(front);
        assert(loaded.last() == loaded[loaded.len() - 1]);
        assert forall|i: int| 0 <= i < loaded.len() implies Some(#[trigger] records_of(loaded)[i])
            == record_of(loaded[i]) by {
            if i < front.len() {
                assert(front[i] == loaded[i]);
                assert(records_of(loaded)[i] == records_of(front)[i]);
            }
        }
    }
}

/// There are never more records than files.
pub proof fn lemma_records_bounded(loaded: Seq<LoadedFileView>)
    ensures
        records_of(loaded).len() <= loaded.len(),
    decreases loaded.len(),
{
    if loaded.len() > 0 {
        lemma_records_bounded(loaded.drop_last());
    }
}

/// Every record is that of a file that was parsed: it carries the name
/// under which that file was selected and the statistics read from it.
pub proof fn lemma_record_has_file(loaded: Seq<LoadedFileView>, index: int) -> (source: int)
    requires
        0 <= index < records_of(loaded).len(),
    ensures
        0 <= source < loaded.len(),
        record_of(loaded[source]) == Some(records_of(loaded)[index]),
    decreases loaded.len(),
{
    let front = loaded.drop_last();
    if index < records_of(front).len() {
        let source = lemma_record_has_file(front, index);
        assert(front[source] == loaded[source]);
        source
    } else {
        loaded.len() - 1
    }
}

} // verus!
