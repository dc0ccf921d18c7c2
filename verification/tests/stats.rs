use mc_scoreboards::category::Category;
use mc_scoreboards::datapack::{convert_stats, map_stat, render_updates, MCStat};
use mc_scoreboards::diagnostics::Diagnostic;
use mc_scoreboards::errors::{Error, ErrorKind};
use mc_scoreboards::listing::{
    classify_entry, contains_player, get_player_files, resolve_player, split_file_name, DirEntry,
    DirListing, PlayerFile, Selection,
};
use mc_scoreboards::stat_map::StatMap;
use mc_scoreboards::stats::{
    get_stats, is_legacy_format, LoadedFile, MCStats, PlayerStats, StatFileRead,
};
use mc_scoreboards::whitelist::{PlayerProfile, PlayerProfiles, WhitelistSource};

const ALICE: u128 = 0x11111111_1111_1111_1111_111111111111;
const BOB: u128 = 0x22222222_2222_2222_2222_222222222222;
const ALICE_FILE: &str = "11111111-1111-1111-1111-111111111111.json";
const BOB_FILE: &str = "22222222-2222-2222-2222-222222222222.json";
const CAROL_FILE: &str = "33333333-3333-3333-3333-333333333333.json";

fn profile(name: &str, uuid: u128) -> PlayerProfile {
    PlayerProfile { name: name.to_string(), uuid }
}

fn whitelist(profiles: Vec<PlayerProfile>) -> PlayerProfiles {
    PlayerProfiles::try_from(WhitelistSource::Profiles(profiles)).unwrap()
}

fn alice_and_bob() -> PlayerProfiles {
    whitelist(vec![profile("Alice", ALICE), profile("Bob", BOB)])
}

fn file_entry(name: &str) -> DirEntry {
    DirEntry::Found {
        path: format!("stats/{}", name),
        file_name: name.to_string(),
        unicode_name: true,
        is_file: true,
    }
}

fn player_file(name: &str, player: &str, uuid: u128) -> PlayerFile {
    PlayerFile {
        path: format!("stats/{}", name),
        player_name: player.to_string(),
        player_uuid: uuid,
    }
}

fn map_of(entries: &[(&str, u32)]) -> StatMap {
    let mut map = StatMap::new();
    for (key, count) in entries {
        map.insert(key.to_string(), *count);
    }
    map
}

fn mined(entries: &[(&str, u32)]) -> MCStats {
    let mut stats = MCStats::new();
    stats.mined = map_of(entries);
    stats
}

fn stat(player: &str, stat_type: &str, item: &str, score: u32) -> MCStat {
    MCStat {
        player_name: player.to_string(),
        stat_type: stat_type.to_string(),
        item: item.to_string(),
        score,
    }
}

#[test]
fn empty_whitelist_is_a_whitelist_error() {
    let error = PlayerProfiles::try_from(WhitelistSource::Profiles(Vec::new())).unwrap_err();
    assert_eq!(error, Error::NoWhitelistEntries);
    assert_eq!(error.kind(), ErrorKind::Whitelist);
    assert_eq!(error.message(), "No player profiles found in the file.");
}

#[test]
fn unreadable_whitelist_is_a_whitelist_error() {
    let source = WhitelistSource::Unreadable { cause: "permission denied".to_string() };
    let error = PlayerProfiles::try_from(source).unwrap_err();
    assert_eq!(error, Error::WhitelistUnreadable { cause: "permission denied".to_string() });
    assert_eq!(error.kind(), ErrorKind::Whitelist);
    assert_eq!(error.message(), "permission denied");
}

#[test]
fn malformed_whitelist_is_a_whitelist_error() {
    let source = WhitelistSource::Malformed { cause: "expected `,`".to_string() };
    let error = PlayerProfiles::try_from(source).unwrap_err();
    assert_eq!(error, Error::WhitelistMalformed { cause: "expected `,`".to_string() });
    assert_eq!(error.kind(), ErrorKind::Whitelist);
    assert_eq!(error.message(), "expected `,`");
}

#[test]
fn whitelist_maps_uuid_to_name() {
    let profiles = alice_and_bob();
    assert_eq!(profiles.len(), 2);
    assert_eq!(profiles.name_of(ALICE), Some(&"Alice".to_string()));
    assert_eq!(profiles.name_of(BOB), Some(&"Bob".to_string()));
    assert_eq!(profiles.name_of(3), None);
}

#[test]
fn whitelist_keeps_the_last_name_of_a_uuid() {
    let profiles = whitelist(vec![
        profile("Alice", ALICE),
        profile("Bob", BOB),
        profile("Alicia", ALICE),
    ]);
    assert_eq!(profiles.len(), 2);
    assert_eq!(profiles.name_of(ALICE), Some(&"Alicia".to_string()));
}

#[test]
fn file_names_split_at_the_last_dot() {
    assert_eq!(split_file_name("a.json"), ("a".to_string(), Some("json".to_string())));
    assert_eq!(split_file_name("a.b.json"), ("a.b".to_string(), Some("json".to_string())));
    assert_eq!(split_file_name("json"), ("json".to_string(), None));
    assert_eq!(split_file_name(".json"), (".json".to_string(), None));
    assert_eq!(split_file_name("a."), ("a".to_string(), Some(String::new())));
    assert_eq!(split_file_name(""), (String::new(), None));
}

#[test]
fn file_names_split_as_std_splits_them() {
    for name in ["a.json", "a.b.json", "json", ".json", "a.", ".a.json", "x.JSON", "é.json"] {
        let path = std::path::Path::new(name);
        let (stem, extension) = split_file_name(name);
        assert_eq!(Some(stem.as_str()), path.file_stem().and_then(|s| s.to_str()));
        assert_eq!(extension.as_deref(), path.extension().and_then(|s| s.to_str()));
    }
}

#[test]
fn a_whitelisted_players_file_is_selected() {
    let selection = classify_entry(&file_entry(ALICE_FILE), &alice_and_bob(), &Vec::new());
    assert_eq!(selection, Selection::Selected(player_file(ALICE_FILE, "Alice", ALICE)));
}

#[test]
fn uuids_are_read_in_every_spelling() {
    let profiles = alice_and_bob();
    for name in [
        "11111111111111111111111111111111.json",
        "{11111111-1111-1111-1111-111111111111}.json",
        "urn:uuid:11111111-1111-1111-1111-111111111111.json",
    ] {
        let selection = classify_entry(&file_entry(name), &profiles, &Vec::new());
        assert_eq!(selection, Selection::Selected(player_file(name, "Alice", ALICE)));
    }
    let upper = whitelist(vec![profile("Hex", 0xabcdef00_0000_0000_0000_0000000000ff)]);
    let name = "ABCDEF00-0000-0000-0000-0000000000FF.json";
    assert_eq!(
        classify_entry(&file_entry(name), &upper, &Vec::new()),
        Selection::Selected(player_file(name, "Hex", 0xabcdef00_0000_0000_0000_0000000000ff))
    );
}

#[test]
fn a_stem_that_spells_no_uuid_is_reported() {
    let profiles = alice_and_bob();
    for stem in ["notes", "11111111-1111-1111-1111-11111111111", "1111111g-1111-1111-1111-111111111111"] {
        let name = format!("{}.json", stem);
        assert_eq!(
            classify_entry(&file_entry(&name), &profiles, &Vec::new()),
            Selection::Rejected(Diagnostic::InvalidUuid { stem: stem.to_string() })
        );
    }
}

#[test]
fn other_entries_are_skipped() {
    let profiles = alice_and_bob();
    let directory = DirEntry::Found {
        path: format!("stats/{}", ALICE_FILE),
        file_name: ALICE_FILE.to_string(),
        unicode_name: true,
        is_file: false,
    };
    assert_eq!(
        classify_entry(&directory, &profiles, &Vec::new()),
        Selection::Rejected(Diagnostic::Skipped { path: format!("stats/{}", ALICE_FILE) })
    );
    for name in ["11111111-1111-1111-1111-111111111111.txt", "11111111-1111-1111-1111-111111111111", ".json", "a.JSON"] {
        assert_eq!(
            classify_entry(&file_entry(name), &profiles, &Vec::new()),
            Selection::Rejected(Diagnostic::Skipped { path: format!("stats/{}", name) })
        );
    }
}

#[test]
fn an_unreadable_entry_is_reported() {
    let entry = DirEntry::Unreadable { cause: "input/output error".to_string() };
    assert_eq!(
        classify_entry(&entry, &alice_and_bob(), &Vec::new()),
        Selection::Rejected(Diagnostic::UnreadableEntry { error: "input/output error".to_string() })
    );
}

#[test]
fn a_name_that_is_not_unicode_is_reported() {
    let entry = DirEntry::Found {
        path: "stats/1111\u{fffd}.json".to_string(),
        file_name: "1111\u{fffd}.json".to_string(),
        unicode_name: false,
        is_file: true,
    };
    assert_eq!(
        classify_entry(&entry, &alice_and_bob(), &Vec::new()),
        Selection::Rejected(Diagnostic::UndecodableStem { stem: "1111\u{fffd}".to_string() })
    );
}

#[test]
fn a_file_of_a_player_not_whitelisted_is_passed_over() {
    assert_eq!(
        classify_entry(&file_entry(CAROL_FILE), &alice_and_bob(), &Vec::new()),
        Selection::NotWhitelisted
    );
}

#[test]
fn resolve_player_for_each_outcome() {
    let profiles = alice_and_bob();
    let chosen = vec![player_file(BOB_FILE, "Bob", BOB)];
    assert_eq!(
        resolve_player("p", "s", None, &profiles, &chosen),
        Selection::Rejected(Diagnostic::InvalidUuid { stem: "s".to_string() })
    );
    assert_eq!(resolve_player("p", "s", Some(7), &profiles, &chosen), Selection::NotWhitelisted);
    assert_eq!(
        resolve_player("p", "s", Some(BOB), &profiles, &chosen),
        Selection::Rejected(Diagnostic::Skipped { path: "p".to_string() })
    );
    assert_eq!(
        resolve_player("p", "s", Some(ALICE), &profiles, &chosen),
        Selection::Selected(PlayerFile {
            path: "p".to_string(),
            player_name: "Alice".to_string(),
            player_uuid: ALICE,
        })
    );
}

#[test]
fn contains_player_looks_at_the_uuids() {
    let files = vec![player_file(ALICE_FILE, "Alice", ALICE)];
    assert!(contains_player(&files, ALICE));
    assert!(!contains_player(&files, BOB));
    assert!(!contains_player(&Vec::new(), ALICE));
}

#[test]
fn player_files_come_in_listing_order_with_diagnostics() {
    let listing = DirListing::Entries(vec![
        file_entry("readme.txt"),
        file_entry(BOB_FILE),
        DirEntry::Unreadable { cause: "busy".to_string() },
        file_entry(CAROL_FILE),
        file_entry("nobody.json"),
        file_entry(ALICE_FILE),
    ]);
    let mut log = Vec::new();
    let files = get_player_files(&listing, &alice_and_bob(), &mut log).unwrap();
    assert_eq!(
        files,
        vec![player_file(BOB_FILE, "Bob", BOB), player_file(ALICE_FILE, "Alice", ALICE)]
    );
    assert_eq!(
        log,
        vec![
            Diagnostic::Skipped { path: "stats/readme.txt".to_string() },
            Diagnostic::UnreadableEntry { error: "busy".to_string() },
            Diagnostic::InvalidUuid { stem: "nobody".to_string() },
        ]
    );
}

#[test]
fn a_second_file_of_the_same_player_is_skipped() {
    let simple = "11111111111111111111111111111111.json";
    let listing = DirListing::Entries(vec![file_entry(ALICE_FILE), file_entry(simple)]);
    let mut log = Vec::new();
    let files = get_player_files(&listing, &alice_and_bob(), &mut log).unwrap();
    assert_eq!(files, vec![player_file(ALICE_FILE, "Alice", ALICE)]);
    assert_eq!(log, vec![Diagnostic::Skipped { path: format!("stats/{}", simple) }]);
}

#[test]
fn files_outside_the_whitelist_never_appear() {
    let listing = DirListing::Entries(vec![file_entry(CAROL_FILE), file_entry(ALICE_FILE)]);
    let mut log = Vec::new();
    let only_alice = whitelist(vec![profile("Alice", ALICE)]);
    let files = get_player_files(&listing, &only_alice, &mut log).unwrap();
    assert_eq!(files, vec![player_file(ALICE_FILE, "Alice", ALICE)]);
    assert!(log.is_empty());
    let loaded = vec![LoadedFile {
        file: files[0].clone(),
        read: StatFileRead::Parsed(mined(&[("minecraft:stone", 1)])),
    }];
    let records = get_stats(loaded, &mut log);
    assert_eq!(records.len(), 1);
    assert_eq!(records[0].player_name, "Alice");
}

#[test]
fn no_matching_file_is_a_stats_directory_error() {
    let mut log = Vec::new();
    let listing = DirListing::Entries(vec![file_entry(CAROL_FILE), file_entry("a.txt")]);
    let error = get_player_files(&listing, &alice_and_bob(), &mut log).unwrap_err();
    assert_eq!(error, Error::NoStatsFilesFound);
    assert_eq!(error.kind(), ErrorKind::StatsDirectory);
    assert_eq!(error.message(), "No JSON files found in the directory.");
    assert_eq!(log, vec![Diagnostic::Skipped { path: "stats/a.txt".to_string() }]);

    let empty = DirListing::Entries(Vec::new());
    assert_eq!(
        get_player_files(&empty, &alice_and_bob(), &mut Vec::new()),
        Err(Error::NoStatsFilesFound)
    );
}

#[test]
fn an_unreadable_directory_is_a_stats_directory_error() {
    let mut log = Vec::new();
    let listing = DirListing::Unreadable { cause: "No such file or directory".to_string() };
    let error = get_player_files(&listing, &alice_and_bob(), &mut log).unwrap_err();
    assert_eq!(error, Error::StatsDirUnreadable { cause: "No such file or directory".to_string() });
    assert_eq!(error.kind(), ErrorKind::StatsDirectory);
    assert_eq!(error.message(), "No such file or directory");
    assert!(log.is_empty());
}

#[test]
fn legacy_marker() {
    assert!(is_legacy_format("{\"stat.useItem.minecraft.stone\":5}"));
    assert!(is_legacy_format("xxstat"));
    assert!(!is_legacy_format("{\"stats\":{}}x"[..5].as_ref()));
    assert!(!is_legacy_format("{\"stbt.x\":1}"));
    assert!(!is_legacy_format("{ \"stat.x\":1}"));
    assert!(!is_legacy_format(""));
    assert!(!is_legacy_format("{\"sta"));
    assert!(is_legacy_format("éästat"));
}

#[test]
fn a_malformed_file_does_not_affect_other_players() {
    let loaded = vec![
        LoadedFile {
            file: player_file(ALICE_FILE, "Alice", ALICE),
            read: StatFileRead::Parsed(mined(&[("minecraft:stone", 5)])),
        },
        LoadedFile {
            file: player_file(CAROL_FILE, "Carol", 3),
            read: StatFileRead::Failed {
                error: "expected value at line 1 column 1".to_string(),
                content: Some("not json".to_string()),
            },
        },
        LoadedFile {
            file: player_file(BOB_FILE, "Bob", BOB),
            read: StatFileRead::Parsed(mined(&[("minecraft:dirt", 2)])),
        },
    ];
    let mut log = Vec::new();
    let records = get_stats(loaded, &mut log);
    assert_eq!(
        records,
        vec![
            PlayerStats {
                stats: mined(&[("minecraft:stone", 5)]),
                player_name: "Alice".to_string(),
            },
            PlayerStats { stats: mined(&[("minecraft:dirt", 2)]), player_name: "Bob".to_string() },
        ]
    );
    assert_eq!(
        log,
        vec![Diagnostic::ParseFailed {
            player_name: "Carol".to_string(),
            player_uuid: 3,
            error: "expected value at line 1 column 1".to_string(),
        }]
    );
}

#[test]
fn a_legacy_file_is_reported_as_such() {
    let loaded = vec![
        LoadedFile {
            file: player_file(ALICE_FILE, "Alice", ALICE),
            read: StatFileRead::Failed {
                error: "missing field `stats`".to_string(),
                content: Some("{\"stat.jump\":3}".to_string()),
            },
        },
        LoadedFile {
            file: player_file(BOB_FILE, "Bob", BOB),
            read: StatFileRead::Failed { error: "gone".to_string(), content: None },
        },
    ];
    let mut log = vec![Diagnostic::Skipped { path: "x".to_string() }];
    let records = get_stats(loaded, &mut log);
    assert!(records.is_empty());
    assert_eq!(
        log,
        vec![
            Diagnostic::Skipped { path: "x".to_string() },
            Diagnostic::ParseFailed {
                player_name: "Alice".to_string(),
                player_uuid: ALICE,
                error: "missing field `stats`".to_string(),
            },
            Diagnostic::LegacyFormat { player_name: "Alice".to_string() },
            Diagnostic::ParseFailed {
                player_name: "Bob".to_string(),
                player_uuid: BOB,
                error: "gone".to_string(),
            },
        ]
    );
}

#[test]
fn no_files_give_no_records() {
    let mut log = Vec::new();
    assert!(get_stats(Vec::new(), &mut log).is_empty());
    assert!(log.is_empty());
}

#[test]
fn new_statistics_are_empty() {
    let stats = MCStats::new();
    for category in [
        Category::Mined,
        Category::Crafted,
        Category::Used,
        Category::Broken,
        Category::Dropped,
        Category::PickedUp,
        Category::Killed,
        Category::KilledBy,
        Category::Custom,
    ] {
        assert_eq!(stats.category(category).len(), 0);
    }
}

#[test]
fn category_picks_the_field() {
    let mut stats = MCStats::new();
    stats.killed_by = map_of(&[("minecraft:zombie", 4)]);
    stats.picked_up = map_of(&[("minecraft:stick", 1), ("minecraft:apple", 2)]);
    assert_eq!(stats.category(Category::KilledBy).get("minecraft:zombie"), Some(4));
    assert_eq!(stats.category(Category::PickedUp).len(), 2);
    assert_eq!(stats.category(Category::Killed).len(), 0);
}

#[test]
fn map_stat_strips_the_namespace() {
    let map = map_of(&[("minecraft:stone", 5), ("minecraft:oak_log", 12), ("tiny", 1)]);
    assert_eq!(
        map_stat("Alice", &map, "m"),
        vec![
            stat("Alice", "m-", "stone", 5),
            stat("Alice", "m-", "oak_log", 12),
            stat("Alice", "m-", "", 1),
        ]
    );
    assert_eq!(map_stat("Alice", &StatMap::new(), "m"), Vec::new());
}

#[test]
fn all_nine_categories_are_flattened_in_order() {
    let stats = MCStats {
        mined: map_of(&[("minecraft:stone", 1)]),
        crafted: map_of(&[("minecraft:torch", 2)]),
        used: map_of(&[("minecraft:bow", 3)]),
        broken: map_of(&[("minecraft:shears", 4)]),
        dropped: map_of(&[("minecraft:dirt", 5)]),
        picked_up: map_of(&[("minecraft:apple", 6)]),
        killed: map_of(&[("minecraft:pig", 7)]),
        killed_by: map_of(&[("minecraft:zombie", 8)]),
        custom: map_of(&[("minecraft:jump", 9)]),
    };
    let converted = convert_stats(PlayerStats { stats, player_name: "Alice".to_string() });
    assert_eq!(
        converted,
        vec![
            stat("Alice", "m-", "stone", 1),
            stat("Alice", "c-", "torch", 2),
            stat("Alice", "u-", "bow", 3),
            stat("Alice", "b-", "shears", 4),
            stat("Alice", "d-", "dirt", 5),
            stat("Alice", "p-", "apple", 6),
            stat("Alice", "k-", "pig", 7),
            stat("Alice", "kb-", "zombie", 8),
            stat("Alice", "z-", "jump", 9),
        ]
    );
}

#[test]
fn every_entry_gives_one_update_line() {
    let stats = MCStats {
        mined: map_of(&[("minecraft:stone", 1), ("minecraft:dirt", 10)]),
        crafted: map_of(&[("minecraft:torch", 2)]),
        used: map_of(&[("minecraft:bow", 3)]),
        broken: map_of(&[("minecraft:shears", 4)]),
        dropped: map_of(&[("minecraft:dirt", 5)]),
        picked_up: map_of(&[("minecraft:apple", 6)]),
        killed: map_of(&[("minecraft:pig", 7), ("minecraft:cow", 70), ("minecraft:bat", 700)]),
        killed_by: map_of(&[("minecraft:zombie", 8)]),
        custom: map_of(&[("minecraft:jump", 4294967295)]),
    };
    let text = render_updates(vec![PlayerStats { stats, player_name: "Alice".to_string() }]);
    let lines: Vec<&str> = text.lines().collect();
    assert_eq!(
        lines,
        vec![
            "scoreboard players set Alice m-stone 1",
            "scoreboard players set Alice m-dirt 10",
            "scoreboard players set Alice c-torch 2",
            "scoreboard players set Alice u-bow 3",
            "scoreboard players set Alice b-shears 4",
            "scoreboard players set Alice d-dirt 5",
            "scoreboard players set Alice p-apple 6",
            "scoreboard players set Alice k-pig 7",
            "scoreboard players set Alice k-cow 70",
            "scoreboard players set Alice k-bat 700",
            "scoreboard players set Alice kb-zombie 8",
            "scoreboard players set Alice z-jump 4294967295",
        ]
    );
    assert!(text.ends_with('\n'));
}

#[test]
fn players_are_rendered_in_the_order_given() {
    let records = vec![
        PlayerStats { stats: mined(&[("minecraft:dirt", 2)]), player_name: "Bob".to_string() },
        PlayerStats { stats: MCStats::new(), player_name: "Nobody".to_string() },
        PlayerStats { stats: mined(&[("minecraft:stone", 5)]), player_name: "Alice".to_string() },
    ];
    assert_eq!(
        render_updates(records),
        "scoreboard players set Bob m-dirt 2\nscoreboard players set Alice m-stone 5\n"
    );
    assert_eq!(render_updates(Vec::new()), "");
}

fn stats_from_json(text: &str) -> MCStats {
    let value: serde_json::Value = serde_json::from_str(text).unwrap();
    let mut stats = MCStats::new();
    let categories = value.get("stats").and_then(|s| s.as_object()).unwrap();
    for (category, items) in categories {
        let mut map = StatMap::new();
        for (key, count) in items.as_object().unwrap() {
            map.insert(key.clone(), count.as_u64().unwrap() as u32);
        }
        match category.as_str() {
            "minecraft:mined" => stats.mined = map,
            "minecraft:crafted" => stats.crafted = map,
            "minecraft:used" => stats.used = map,
            "minecraft:broken" => stats.broken = map,
            "minecraft:dropped" => stats.dropped = map,
            "minecraft:picked_up" => stats.picked_up = map,
            "minecraft:killed" => stats.killed = map,
            "minecraft:killed_by" => stats.killed_by = map,
            "minecraft:custom" => stats.custom = map,
            _ => {}
        }
    }
    stats
}

#[test]
fn whitelist_and_stats_file_to_update_line() {
    let profiles = whitelist(vec![profile("Alice", ALICE)]);
    let listing = DirListing::Entries(vec![file_entry(ALICE_FILE)]);
    let mut log = Vec::new();
    let files = get_player_files(&listing, &profiles, &mut log).unwrap();
    assert_eq!(files.len(), 1);
    let loaded: Vec<LoadedFile> = files
        .into_iter()
        .map(|file| LoadedFile {
            file,
            read: StatFileRead::Parsed(stats_from_json(
                "{\"stats\":{\"minecraft:mined\":{\"minecraft:stone\":5}}}",
            )),
        })
        .collect();
    let records = get_stats(loaded, &mut log);
    assert_eq!(render_updates(records), "scoreboard players set Alice m-stone 5\n");
    assert!(log.is_empty());
}
