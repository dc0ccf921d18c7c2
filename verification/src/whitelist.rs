//! The players whose statistics are processed.

use vstd::prelude::*;
use std::collections::HashMap;
use crate::errors::{Error, ErrorView};

verus! {

broadcast use vstd::std_specs::hash::group_hash_axioms;

/// One record of a whitelist.
#[derive(Debug, Clone, PartialEq, Eq)]
pub struct PlayerProfile {
    pub name: String,
    pub uuid: u128,
}

/// The mathematical content of a [`PlayerProfile`].
pub struct ProfileView {
    pub name: Seq<char>,
    pub uuid: u128,
}

impl DeepView for PlayerProfile {
    type V = ProfileView;

    open spec fn deep_view(&self) -> ProfileView {
        ProfileView { name: self.name@, uuid: self.uuid }
    }
}

impl View for PlayerProfile {
    type V = ProfileView;

    open spec fn view(&self) -> ProfileView {
        self.deep_view()
    }
}

/// What came of reading and decoding the whitelist file.
#[derive(Debug, Clone, PartialEq, Eq)]
pub enum WhitelistSource {
    /// The file could not be read.
    Unreadable { cause: String },
    /// The file's content is no list of profiles.
    Malformed { cause: String },
    /// The profiles in the order of the file.
    Profiles(Vec<PlayerProfile>),
}

/// The mathematical content of a [`WhitelistSource`].
pub enum WhitelistSourceView {
    Unreadable { cause: Seq<char> },
    Malformed { cause: Seq<char> },
    Profiles(Seq<ProfileView>),
}

impl DeepView for WhitelistSource {
    type V = WhitelistSourceView;

    open spec fn deep_view(&self) -> WhitelistSourceView {
        match *self {
            WhitelistSource::Unreadable { cause } => WhitelistSourceView::Unreadable {
                cause: cause@,
            },
            WhitelistSource::Malformed { cause } => WhitelistSourceView::Malformed {
                cause: cause@,
            },
            WhitelistSource::Profiles(profiles) => WhitelistSourceView::Profiles(
                profiles.deep_view(),
            ),
        }
    }
}

impl View for WhitelistSource {
    type V = WhitelistSourceView;

    open spec fn view(&self) -> WhitelistSourceView {
        self.deep_view()
    }
}

/// The names by UUID that a list of profiles gives: a UUID listed twice
/// has the name listed last.
pub open spec fn profile_map(profiles: Seq<ProfileView>) -> Map<u128, Seq<char>>
    decreases profiles.len(),
{
    if profiles.len() == 0 {
        Map::empty()
    } else {
        profile_map(profiles.drop_last()).insert(profiles.last().uuid, profiles.last().name)
    }
}

/// What `PlayerProfiles::try_from` makes of a source: the names by UUID,
/// or the error that the source amounts to.
pub open spec fn whitelist_of(source: WhitelistSourceView) -> Result<
    Map<u128, Seq<char>>,
    ErrorView,
> {
    match source {
        WhitelistSourceView::Unreadable { cause } => Err(ErrorView::WhitelistUnreadable { cause }),
        WhitelistSourceView::Malformed { cause } => Err(ErrorView::WhitelistMalformed { cause }),
        WhitelistSourceView::Profiles(profiles) => if profiles.len() == 0 {
            Err(ErrorView::NoWhitelistEntries)
        } else {
            Ok(profile_map(profiles))
        },
    }
}

/// The display names of the whitelisted players by UUID. It is never empty.
#[derive(Debug, Clone, PartialEq, Eq)]
pub struct PlayerProfiles {
    map: HashMap<u128, String>,
}

impl PlayerProfiles {
    /// The names by UUID.
    pub closed spec fn names(&self) -> Map<u128, Seq<char>> {
        Map::new(|uuid: u128| self.map@.contains_key(uuid), |uuid: u128| self.map@[uuid]@)
    }

    /// Builds the whitelist from what was read. A source without any
    /// profile is an error, as is one that could not be read or decoded.
    pub fn try_from(source: WhitelistSource) -> (result: Result<PlayerProfiles, Error>)
        ensures
            match result {
                Ok(profiles) => whitelist_of(source@) == Ok::<Map<u128, Seq<char>>, ErrorView>(
                    profiles.names(),
                ),
                Err(error) => whitelist_of(source@) == Err::<Map<u128, Seq<char>>, ErrorView>(
                    error@,
                ),
            },
    {
        match source {
            WhitelistSource::Unreadable { cause } => Err(Error::WhitelistUnreadable { cause }),
            WhitelistSource::Malformed { cause } => Err(Error::WhitelistMalformed { cause }),
            WhitelistSource::Profiles(parsed) => {
                let mut profiles = PlayerProfiles { map: HashMap::new() };
                assert(profiles.names() =~= profile_map(parsed.deep_view().take(0)));
                let mut i: usize = 0;
                while i < parsed.len()
                    invariant
                        i <= parsed.len(),
                        profiles.names() == profile_map(parsed.deep_view().take(i as int)),
                    decreases parsed.len() - i,
                {
                    let ghost before = profiles.names();
                    profiles.map.insert(parsed[i].uuid, parsed[i].name.clone());
                    proof {
                        let views = parsed.deep_view();
                        assert(views.take(i + 1).drop_last() =~= views.take(i as int));
                        assert(profiles.names() =~= before.insert(views[i as int].uuid, views[i as int].name));
                    }
                    i += 1;
                }
                assert(parsed.deep_view().take(parsed.len() as int) =~= parsed.deep_view());
                if profiles.map.is_empty() {
                    proof {
                        if parsed.len() > 0 {
                            let views = parsed.deep_view();
                            assert(profiles.names().contains_key(views.last().uuid));
                            assert(profiles.map@.contains_key(views.last().uuid));
                        }
                    }
                    Err(Error::NoWhitelistEntries)
                } else {
                    proof {
                        if parsed.len() == 0 {
                            assert(profiles.names() =~= Map::empty());
                            assert(profiles.map@.dom() =~= profiles.names().dom());
                            assert(profiles.map@ =~= Map::empty());
                        }
                    }
                    Ok(profiles)
                }
            },
        }
    }

    /// The display name of the player with this UUID, if whitelisted.
    pub fn name_of(&self, uuid: u128) -> (name: Option<&String>)
        ensures
            match name {
                Some(n) => self.names().contains_key(uuid) && self.names()[uuid] == n@,
                None => !self.names().contains_key(uuid),
            },
    {
        self.map.get(&uuid)
    }

    /// How many players are whitelisted.
    pub fn len(&self) -> (n: usize)
        ensures
            n == self.names().dom().len(),
    {
        assert(self.map@.dom() =~= self.names().dom());
        self.map.len()
    }
}

/// Whether the profile at `index` is that of `uuid`.
pub open spec fn lists(profiles: Seq<ProfileView>, uuid: u128, index: int) -> bool {
    0 <= index < profiles.len() && profiles[index].uuid == uuid
}

/// A UUID is whitelisted exactly if some profile has it.
pub proof fn lemma_whitelisted_iff_listed(profiles: Seq<ProfileView>, uuid: u128)
    ensures
        profile_map(profiles).contains_key(uuid) <==> exists|i: int| lists(profiles, uuid, i),
    decreases profiles.len(),
{
    if profiles.len() > 0 {
        let front = profiles.drop_last();
        lemma_whitelisted_iff_listed(front, uuid);
        if profiles.last().uuid == uuid {
            assert(lists(profiles, uuid, profiles.len() - 1));
        } else {
            if profile_map(front).contains_key(uuid) {
                let i = choose|i: int| lists(front, uuid, i);
                assert(lists(profiles, uuid, i));
            }
            if exists|i: int| lists(profiles, uuid, i) {
                let i = choose|i: int| lists(profiles, uuid, i);
                assert(lists(front, uuid, i));
            }
        }
    } else {
        assert forall|i: int| !lists(profiles, uuid, i) by {}
    }
}

/// A whitelisted player has the name of the last profile with the
/// player's UUID.
pub proof fn lemma_last_profile_names(profiles: Seq<ProfileView>, index: int)
    requires
        0 <= index < profiles.len(),
        forall|j: int| index < j < profiles.len() ==> !lists(profiles, profiles[index].uuid, j),
    ensures
        profile_map(profiles).contains_key(profiles[index].uuid),
        profile_map(profiles)[profiles[index].uuid] == profiles[index].name,
    decreases profiles.len(),
{
    if index < profiles.len() - 1 {
        let front = profiles.drop_last();
        assert(!lists(profiles, profiles[index].uuid, profiles.len() - 1));
        assert forall|j: int| index < j < front.len() implies !lists(
            front,
            front[index].uuid,
            j,
        ) by {
            assert(!lists(profiles, profiles[index].uuid, j));
        }
        lemma_last_profile_names(front, index);
    }
}

} // verus!
