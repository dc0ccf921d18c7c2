//! What the library reports about input it passed over.

use vstd::prelude::*;
use crate::text::{hex, to_hex};

verus! {

/// A note about one piece of input that was left out of the result. None of
/// them is fatal.
#[derive(Debug, Clone, PartialEq, Eq)]
pub enum Diagnostic {
    /// A directory entry could not be read.
    UnreadableEntry { error: String },
    /// A directory entry is no statistics file, or its player has a file
    /// already.
    Skipped { path: String },
    /// The file's name, without extension, is not valid Unicode.
    UndecodableStem { stem: String },
    /// The file's name, without extension, does not spell a UUID.
    InvalidUuid { stem: String },
    /// A player's statistics file could not be parsed.
    ParseFailed { player_name: String, player_uuid: u128, error: String },
    /// A player's statistics file is written in the old format.
    LegacyFormat { player_name: String },
    /// A schema record has no objective name.
    UnparsedStat { stat: String, translation: String },
}

/// The mathematical content of a [`Diagnostic`].
pub enum DiagnosticView {
    UnreadableEntry { error: Seq<char> },
    Skipped { path: Seq<char> },
    UndecodableStem { stem: Seq<char> },
    InvalidUuid { stem: Seq<char> },
    ParseFailed { player_name: Seq<char>, player_uuid: u128, error: Seq<char> },
    LegacyFormat { player_name: Seq<char> },
    UnparsedStat { stat: Seq<char>, translation: Seq<char> },
}

impl DeepView for Diagnostic {
    type V = DiagnosticView;

    open spec fn deep_view(&self) -> DiagnosticView {
        match *self {
            Diagnostic::UnreadableEntry { error } => DiagnosticView::UnreadableEntry {
                error: error@,
            },
            Diagnostic::Skipped { path } => DiagnosticView::Skipped { path: path@ },
            Diagnostic::UndecodableStem { stem } => DiagnosticView::UndecodableStem {
                stem: stem@,
            },
            Diagnostic::InvalidUuid { stem } => DiagnosticView::InvalidUuid { stem: stem@ },
            Diagnostic::ParseFailed {
                player_name,
                player_uuid,
                error,
            } => DiagnosticView::ParseFailed {
                player_name: player_name@,
                player_uuid,
                error: error@,
            },
            Diagnostic::LegacyFormat { player_name } => DiagnosticView::LegacyFormat {
                player_name: player_name@,
            },
            Diagnostic::UnparsedStat { stat, translation } => DiagnosticView::UnparsedStat {
                stat: stat@,
                translation: translation@,
            },
        }
    }
}

impl View for Diagnostic {
    type V = DiagnosticView;

    open spec fn view(&self) -> DiagnosticView {
        self.deep_view()
    }
}

/// A UUID in its usual spelling: thirty-two hexadecimal digits in lower
/// case, in groups of eight, four, four, four and twelve with hyphens
/// between them.
pub open spec fn uuid_text(uuid: u128) -> Seq<char> {
    hex(uuid as nat / 0x1_0000_0000_0000_0000_0000_0000, 8) + "-"@ + hex(
        uuid as nat / 0x1_0000_0000_0000_0000_0000,
        4,
    ) + "-"@ + hex(uuid as nat / 0x1_0000_0000_0000_0000, 4) + "-"@ + hex(
        uuid as nat / 0x1_0000_0000_0000,
        4,
    ) + "-"@ + hex(uuid as nat, 12)
}

/// Spells a UUID in the usual way.
pub fn format_uuid(uuid: u128) -> (text: String)
    ensures
        text@ == uuid_text(uuid),
{
    let mut text = to_hex(uuid / 0x1_0000_0000_0000_0000_0000_0000, 8);
    text.append("-");
    text.append(to_hex(uuid / 0x1_0000_0000_0000_0000_0000, 4).as_str());
    text.append("-");
    text.append(to_hex(uuid / 0x1_0000_0000_0000_0000, 4).as_str());
    text.append("-");
    text.append(to_hex(uuid / 0x1_0000_0000_0000, 4).as_str());
    text.append("-");
    text.append(to_hex(uuid, 12).as_str());
    text
}

impl DiagnosticView {
    /// The line that tells the user of the diagnostic.
    pub open spec fn message(self) -> Seq<char> {
        match self {
            DiagnosticView::UnreadableEntry { error } => "Failed to get file from stats directory: "@
                + error,
            DiagnosticView::Skipped { path } => "Skipping "@ + path,
            DiagnosticView::UndecodableStem { stem } => "Failed to convert filestem "@ + stem
                + " into string"@,
            DiagnosticView::InvalidUuid { stem } => "Failed to get uuid from "@ + stem,
            DiagnosticView::ParseFailed { player_name, player_uuid, error } =>
                "Error parsing stats file for "@ + player_name + " ("@ + uuid_text(player_uuid)
                    + "): "@ + error,
            DiagnosticView::LegacyFormat { player_name } => player_name
                + " still has the old stat format. Skipping..."@,
            DiagnosticView::UnparsedStat { stat, translation } => "Could not parse stat: "@ + stat
                + " ("@ + translation + ")"@,
        }
    }
}

impl Diagnostic {
    /// The line that tells the user of the diagnostic.
    pub fn message(&self) -> (text: String)
        ensures
            text@ == self@.message(),
    {
        match self {
            Diagnostic::UnreadableEntry { error } => {
                let mut text = String::from_str("Failed to get file from stats directory: ");
                text.append(error.as_str());
                text
            },
            Diagnostic::Skipped { path } => {
                let mut text = String::from_str("Skipping ");
                text.append(path.as_str());
                text
            },
            Diagnostic::UndecodableStem { stem } => {
                let mut text = String::from_str("Failed to convert filestem ");
                text.append(stem.as_str());
                text.append(" into string");
                text
            },
            Diagnostic::InvalidUuid { stem } => {
                let mut text = String::from_str("Failed to get uuid from ");
                text.append(stem.as_str());
                text
            },
            Diagnostic::ParseFailed { player_name, player_uuid, error } => {
                let mut text = String::from_str("Error parsing stats file for ");
                text.append(player_name.as_str());
                text.append(" (");
                text.append(format_uuid(*player_uuid).as_str());
                text.append("): ");
                text.append(error.as_str());
                text
            },
            Diagnostic::LegacyFormat { player_name } => {
                let mut text = player_name.clone();
                text.append(" still has the old stat format. Skipping...");
                text
            },
            Diagnostic::UnparsedStat { stat, translation } => {
                let mut text = String::from_str("Could not parse stat: ");
                text.append(stat.as_str());
                text.append(" (");
                text.append(translation.as_str());
                text.append(")");
                text
            },
        }
    }
}

} // verus!
