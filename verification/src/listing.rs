//! Picking the players' statistics files out of a directory listing.

use vstd::prelude::*;
use uuid::Uuid;
use crate::diagnostics::{Diagnostic, DiagnosticView};
use crate::errors::{Error, ErrorView};
use crate::seqs::last_index_of;
use crate::text::{rfind_char, str_eq};
use crate::whitelist::PlayerProfiles;

verus! {

/// The UUID that a text spells, as the parser of the `uuid` crate reads it:
/// `None` where the text is no UUID in any spelling that the parser knows.
pub uninterp spec fn uuid_of_text(text: Seq<char>) -> Option<u128>;

/// Calls `<uuid::Uuid as FromStr>::from_str` and hands out what it returns
/// as a plain value: the number that `Uuid::as_u128` gives where the text
/// was parsed, `None` where the parser gave an error. The body is not
/// verified. The contract claims that the parser's answer depends on the
/// text alone, which is what `uuid_of_text` names; it claims nothing about
/// which texts are UUIDs.
#[verifier::external_body]
fn parse_uuid(text: &str) -> (uuid: Option<u128>)
    ensures
        uuid == uuid_of_text(text@),
{
    match <Uuid as std::str::FromStr>::from_str(text) {
        Ok(uuid) => Some(uuid.as_u128()),
        Err(_) => None,
    }
}

/// Where the dot stands that splits a file name into stem and extension:
/// the last dot, unless it is the name's first character.
pub open spec fn extension_dot(name: Seq<char>) -> Option<int> {
    match last_index_of(name, '.') {
        Some(i) => if i > 0 {
            Some(i)
        } else {
            None
        },
        None => None,
    }
}

/// A file name without its extension.
pub open spec fn file_stem(name: Seq<char>) -> Seq<char> {
    match extension_dot(name) {
        Some(i) => name.take(i),
        None => name,
    }
}

/// The extension of a file name, without the dot.
pub open spec fn extension(name: Seq<char>) -> Option<Seq<char>> {
    match extension_dot(name) {
        Some(i) => Some(name.skip(i + 1)),
        None => None,
    }
}

/// Splits a file name into its stem and its extension.
pub fn split_file_name(name: &str) -> (parts: (String, Option<String>))
    ensures
        parts.0@ == file_stem(name@),
        parts.1.deep_view() == extension(name@),
{
    match rfind_char(name, '.') {
        Some(i) => {
            if i > 0 {
                let len = name.unicode_len();
                let stem = String::from_str(name.substring_char(0, i));
                let ext = String::from_str(name.substring_char(i + 1, len));
                (stem, Some(ext))
            } else {
                (String::from_str(name), None)
            }
        },
        None => (String::from_str(name), None),
    }
}

/// One entry of the statistics directory, as far as the selection reads it.
#[derive(Debug, Clone, PartialEq, Eq)]
pub enum DirEntry {
    /// The entry could not be read.
    Unreadable { cause: String },
    /// An entry with its full path and its file name. `unicode_name` says
    /// whether the file name is valid Unicode; where it is not, `path` and
    /// `file_name` hold it with replacement characters.
    Found { path: String, file_name: String, unicode_name: bool, is_file: bool },
}

/// The mathematical content of a [`DirEntry`].
pub enum DirEntryView {
    Unreadable { cause: Seq<char> },
    Found { path: Seq<char>, file_name: Seq<char>, unicode_name: bool, is_file: bool },
}

impl DeepView for DirEntry {
    type V = DirEntryView;

    open spec fn deep_view(&self) -> DirEntryView {
        match *self {
            DirEntry::Unreadable { cause } => DirEntryView::Unreadable { cause: cause@ },
            DirEntry::Found { path, file_name, unicode_name, is_file } => DirEntryView::Found {
                path: path@,
                file_name: file_name@,
                unicode_name,
                is_file,
            },
        }
    }
}

impl View for DirEntry {
    type V = DirEntryView;

    open spec fn view(&self) -> DirEntryView {
        self.deep_view()
    }
}

/// What came of listing the statistics directory.
#[derive(Debug, Clone, PartialEq, Eq)]
pub enum DirListing {
    /// The directory could not be listed.
    Unreadable { cause: String },
    /// The entries in the order in which the file system gave them.
    Entries(Vec<DirEntry>),
}

/// The mathematical content of a [`DirListing`].
pub enum DirListingView {
    Unreadable { cause: Seq<char> },
    Entries(Seq<DirEntryView>),
}

impl DeepView for DirListing {
    type V = DirListingView;

    open spec fn deep_view(&self) -> DirListingView {
        match *self {
            DirListing::Unreadable { cause } => DirListingView::Unreadable { cause: cause@ },
            DirListing::Entries(entries) => DirListingView::Entries(entries.deep_view()),
        }
    }
}

impl View for DirListing {
    type V = DirListingView;

    open spec fn view(&self) -> DirListingView {
        self.deep_view()
    }
}

/// The statistics file of a whitelisted player.
#[derive(Debug, Clone, PartialEq, Eq)]
pub struct PlayerFile {
    pub path: String,
    pub player_name: String,
    pub player_uuid: u128,
}

/// The mathematical content of a [`PlayerFile`].
pub struct PlayerFileView {
    pub path: Seq<char>,
    pub player_name: Seq<char>,
    pub player_uuid: u128,
}

impl DeepView for PlayerFile {
    type V = PlayerFileView;

    open spec fn deep_view(&self) -> PlayerFileView {
        PlayerFileView {
            path: self.path@,
            player_name: self.player_name@,
            player_uuid: self.player_uuid,
        }
    }
}

impl View for PlayerFile {
    type V = PlayerFileView;

    open spec fn view(&self) -> PlayerFileView {
        self.deep_view()
    }
}

/// What the selection makes of one directory entry.
#[derive(Debug, Clone, PartialEq, Eq)]
pub enum Selection {
    /// Passed over, with the reason.
    Rejected(Diagnostic),
    /// A well-named file of a player who is not whitelisted: passed over in
    /// silence.
    NotWhitelisted,
    /// The statistics file of a whitelisted player.
    Selected(PlayerFile),
}

/// The mathematical content of a [`Selection`].
pub enum SelectionView {
    Rejected(DiagnosticView),
    NotWhitelisted,
    Selected(PlayerFileView),
}

impl DeepView for Selection {
    type V = SelectionView;

    open spec fn deep_view(&self) -> SelectionView {
        match *self {
            Selection::Rejected(diagnostic) => SelectionView::Rejected(diagnostic@),
            Selection::NotWhitelisted => SelectionView::NotWhitelisted,
            Selection::Selected(file) => SelectionView::Selected(file@),
        }
    }
}

/// Whether the file at `index` belongs to the player `uuid`.
pub open spec fn holds_uuid(files: Seq<PlayerFileView>, uuid: u128, index: int) -> bool {
    0 <= index < files.len() && files[index].player_uuid == uuid
}

/// Whether one of `files` belongs to the player `uuid`.
pub open spec fn has_uuid(files: Seq<PlayerFileView>, uuid: u128) -> bool {
    exists|i: int| holds_uuid(files, uuid, i)
}

/// What becomes of a statistics file once its stem has been parsed as a
/// UUID: a stem that spells none is reported; a player who is not
/// whitelisted is passed over; a player whose file was chosen before is
/// skipped; any other file is selected under the whitelisted name.
pub open spec fn resolve(
    path: Seq<char>,
    stem: Seq<char>,
    uuid: Option<u128>,
    names: Map<u128, Seq<char>>,
    chosen: Seq<PlayerFileView>,
) -> SelectionView {
    match uuid {
        None => SelectionView::Rejected(DiagnosticView::InvalidUuid { stem }),
        Some(u) => if !names.contains_key(u) {
            SelectionView::NotWhitelisted
        } else if has_uuid(chosen, u) {
            SelectionView::Rejected(DiagnosticView::Skipped { path })
        } else {
            SelectionView::Selected(
                PlayerFileView { path, player_name: names[u], player_uuid: u },
            )
        },
    }
}

/// What becomes of a directory entry, given the whitelist and the files
/// chosen from the entries before it.
pub open spec fn classify(
    entry: DirEntryView,
    names: Map<u128, Seq<char>>,
    chosen: Seq<PlayerFileView>,
) -> SelectionView {
    match entry {
        DirEntryView::Unreadable { cause } => SelectionView::Rejected(
            DiagnosticView::UnreadableEntry { error: cause },
        ),
        DirEntryView::Found { path, file_name, unicode_name, is_file } => if !is_file
            || extension(file_name) != Some("json"@) {
            SelectionView::Rejected(DiagnosticView::Skipped { path })
        } else if !unicode_name {
            SelectionView::Rejected(
                DiagnosticView::UndecodableStem { stem: file_stem(file_name) },
            )
        } else {
            resolve(
                path,
                file_stem(file_name),
                uuid_of_text(file_stem(file_name)),
                names,
                chosen,
            )
        },
    }
}

/// The files selected from `entries`, in the order of the entries.
pub open spec fn selected(entries: Seq<DirEntryView>, names: Map<u128, Seq<char>>) -> Seq<
    PlayerFileView,
>
    decreases entries.len(),
{
    if entries.len() == 0 {
        Seq::empty()
    } else {
        let chosen = selected(entries.drop_last(), names);
        match classify(entries.last(), names, chosen) {
            SelectionView::Selected(file) => chosen.push(file),
            _ => chosen,
        }
    }
}

/// The diagnostics for the entries passed over, in the order of the
/// entries.
pub open spec fn rejections(entries: Seq<DirEntryView>, names: Map<u128, Seq<char>>) -> Seq<
    DiagnosticView,
>
    decreases entries.len(),
{
    if entries.len() == 0 {
        Seq::empty()
    } else {
        let front = entries.drop_last();
        match classify(entries.last(), names, selected(front, names)) {
            SelectionView::Rejected(diagnostic) => rejections(front, names).push(diagnostic),
            _ => rejections(front, names),
        }
    }
}

/// The players' files that a listing yields: an error where the directory
/// could not be listed or no file is selected.
pub open spec fn player_files_of(listing: DirListingView, names: Map<u128, Seq<char>>) -> Result<
    Seq<PlayerFileView>,
    ErrorView,
> {
    match listing {
        DirListingView::Unreadable { cause } => Err(ErrorView::StatsDirUnreadable { cause }),
        DirListingView::Entries(entries) => {
            let files = selected(entries, names);
            if files.len() == 0 {
                Err(ErrorView::NoStatsFilesFound)
            } else {
                Ok(files)
            }
        },
    }
}

/// The diagnostics that a listing gives rise to.
pub open spec fn listing_diagnostics(listing: DirListingView, names: Map<u128, Seq<char>>) -> Seq<
    DiagnosticView,
> {
    match listing {
        DirListingView::Unreadable { .. } => Seq::empty(),
        DirListingView::Entries(entries) => rejections(entries, names),
    }
}

/// Whether one of `files` belongs to the player `uuid`.
pub fn contains_player(files: &Vec<PlayerFile>, uuid: u128) -> (found: bool)
    ensures
        found == has_uuid(files.deep_view(), uuid),
{
    let mut i: usize = 0;
    while i < files.len()
        invariant
            i <= files.len(),
            forall|j: int| 0 <= j < i ==> !holds_uuid(files.deep_view(), uuid, j),
        decreases files.len() - i,
    {
        if files[i].player_uuid == uuid {
            assert(holds_uuid(files.deep_view(), uuid, i as int));
            return true;
        }
        i += 1;
    }
    false
}

/// Decides about a statistics file whose stem was parsed as `uuid`.
pub fn resolve_player(
    path: &str,
    stem: &str,
    uuid: Option<u128>,
    profiles: &PlayerProfiles,
    chosen: &Vec<PlayerFile>,
) -> (selection: Selection)
    ensures
        selection.deep_view() == resolve(
            path@,
            stem@,
            uuid,
            profiles.names(),
            chosen.deep_view(),
        ),
{
    match uuid {
        None => Selection::Rejected(Diagnostic::InvalidUuid { stem: String::from_str(stem) }),
        Some(u) => match profiles.name_of(u) {
            None => Selection::NotWhitelisted,
            Some(name) => {
                if contains_player(chosen, u) {
                    Selection::Rejected(Diagnostic::Skipped { path: String::from_str(path) })
                } else {
                    Selection::Selected(
                        PlayerFile {
                            path: String::from_str(path),
                            player_name: name.clone(),
                            player_uuid: u,
                        },
                    )
                }
            },
        },
    }
}

/// Decides about one directory entry.
pub fn classify_entry(entry: &DirEntry, profiles: &PlayerProfiles, chosen: &Vec<PlayerFile>) -> (selection:
    Selection)
    ensures
        selection.deep_view() == classify(entry.deep_view(), profiles.names(), chosen.deep_view()),
{
    match entry {
        DirEntry::Unreadable { cause } => Selection::Rejected(
            Diagnostic::UnreadableEntry { error: cause.clone() },
        ),
        DirEntry::Found { path, file_name, unicode_name, is_file } => {
            let (stem, ext) = split_file_name(file_name.as_str());
            let is_stats = match &ext {
                Some(e) => str_eq(e.as_str(), "json"),
                None => false,
            };
            if !*is_file || !is_stats {
                Selection::Rejected(Diagnostic::Skipped { path: path.clone() })
            } else if !*unicode_name {
                Selection::Rejected(Diagnostic::UndecodableStem { stem })
            } else {
                let uuid = parse_uuid(stem.as_str());
                resolve_player(path.as_str(), stem.as_str(), uuid, profiles, chosen)
            }
        },
    }
}

/// Selects the statistics files of the whitelisted players from a
/// directory listing, one per player, in the order of the listing. The
/// entries passed over are reported to `log`. It is an error if the
/// directory could not be listed or no file is selected.
pub fn get_player_files(
    listing: &DirListing,
    profiles: &PlayerProfiles,
    log: &mut Vec<Diagnostic>,
) -> (result: Result<Vec<PlayerFile>, Error>)
    ensures
        final(log).deep_view() == old(log).deep_view() + listing_diagnostics(
            listing@,
            profiles.names(),
        ),
        match result {
            Ok(files) => player_files_of(listing@, profiles.names()) == Ok::<
                Seq<PlayerFileView>,
                ErrorView,
            >(files.deep_view()),
            Err(error) => player_files_of(listing@, profiles.names()) == Err::<
                Seq<PlayerFileView>,
                ErrorView,
            >(error@),
        },
{
    match listing {
        DirListing::Unreadable { cause } => {
            assert(log.deep_view() =~= old(log).deep_view() + Seq::<DiagnosticView>::empty());
            Err(Error::StatsDirUnreadable { cause: cause.clone() })
        },
        DirListing::Entries(entries) => {
            let mut player_files: Vec<PlayerFile> = Vec::new();
            let ghost names = profiles.names();
            let ghost views = entries.deep_view();
            let mut i: usize = 0;
            assert(player_files.deep_view() =~= selected(views.take(0), names));
            assert(log.deep_view() =~= old(log).deep_view() + rejections(views.take(0), names));
            while i < entries.len()
                invariant
                    i <= entries.len(),
                    names == profiles.names(),
                    views == entries.deep_view(),
                    player_files.deep_view() == selected(views.take(i as int), names),
                    log.deep_view() == old(log).deep_view() + rejections(
                        views.take(i as int),
                        names,
                    ),
                decreases entries.len() - i,
            {
                let ghost files_before = player_files.deep_view();
                let ghost log_before = log.deep_view();
                proof {
                    assert(views.take(i + 1).drop_last() =~= views.take(i as int));
                    assert(views.take(i + 1).last() == views[i as int]);
                }
                match classify_entry(&entries[i], profiles, &player_files) {
                    Selection::Rejected(diagnostic) => {
                        log.push(diagnostic);
                        assert(log.deep_view() =~= log_before.push(diagnostic@));
                    },
                    Selection::NotWhitelisted => {},
                    Selection::Selected(file) => {
                        player_files.push(file);
                        assert(player_files.deep_view() =~= files_before.push(file@));
                    },
                }
                i += 1;
            }
            assert(views.take(entries.len() as int) =~= views);
            if player_files.is_empty() {
                Err(Error::NoStatsFilesFound)
            } else {
                Ok(player_files)
            }
        },
    }
}

/// Every selected file belongs to a whitelisted player and carries the
/// name that the whitelist gives that player.
pub proof fn lemma_selected_whitelisted(
    entries: Seq<DirEntryView>,
    names: Map<u128, Seq<char>>,
    index: int,
)
    requires
        0 <= index < selected(entries, names).len(),
    ensures
        names.contains_key(selected(entries, names)[index].player_uuid),
        selected(entries, names)[index].player_name == names[selected(
            entries,
            names,
        )[index].player_uuid],
    decreases entries.len(),
{
    if entries.len() > 0 {
        let chosen = selected(entries.drop_last(), names);
        if index < chosen.len() {
            lemma_selected_whitelisted(entries.drop_last(), names, index);
        }
    }
}

/// No two selected files belong to the same player.
pub proof fn lemma_selected_distinct(
    entries: Seq<DirEntryView>,
    names: Map<u128, Seq<char>>,
    i: int,
    j: int,
)
    requires
        0 <= i < j < selected(entries, names).len(),
    ensures
        selected(entries, names)[i].player_uuid != selected(entries, names)[j].player_uuid,
    decreases entries.len(),
{
    if entries.len() > 0 {
        let chosen = selected(entries.drop_last(), names);
        if j < chosen.len() {
            lemma_selected_distinct(entries.drop_last(), names, i, j);
        } else {
            let file = selected(entries, names)[j];
            if chosen[i].player_uuid == file.player_uuid {
                assert(holds_uuid(chosen, file.player_uuid, i));
            }
        }
    }
}

/// A file whose name spells the UUID of a player who is not whitelisted is
/// never selected, whatever else the entry holds.
pub proof fn lemma_unlisted_never_selected(
    entry: DirEntryView,
    names: Map<u128, Seq<char>>,
    chosen: Seq<PlayerFileView>,
)
    requires
        (entry matches DirEntryView::Found { file_name, .. } && (uuid_of_text(
            file_stem(file_name),
        ) matches Some(uuid) && !names.contains_key(uuid))),
    ensures
        !(classify(entry, names, chosen) is Selected),
{
}

/// The entries passed over and the files selected never outnumber the
/// entries.
pub proof fn lemma_selection_bounded(entries: Seq<DirEntryView>, names: Map<u128, Seq<char>>)
    ensures
        selected(entries, names).len() + rejections(entries, names).len() <= entries.len(),
    decreases entries.len(),
{
    if entries.len() > 0 {
        lemma_selection_bounded(entries.drop_last(), names);
    }
}

} // verus!
