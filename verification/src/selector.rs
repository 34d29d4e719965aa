//! Configuration selectors: the fallback hierarchy that picks the most
//! specific enabled visual profile for an actor.

use vstd::prelude::*;

verus! {

/// A selector, from most specific (team relation and visibility) to most
/// general (any player). Each selector has a fixed parent consulted when it
/// is disabled or has no profile.
#[derive(Clone, Copy, Debug, PartialEq, Eq, Structural)]
pub enum EspSelector {
    Player,
    PlayerTeam { enemy: bool },
    PlayerTeamVisibility { enemy: bool, visible: bool },
}

/// The derived key under which a selector's enabled flag and profile are
/// stored in the configuration store.
#[derive(Clone, Copy, Debug, PartialEq, Eq, Structural)]
pub enum ConfigKey {
    Player,
    PlayerTeam { enemy: bool },
    PlayerTeamVisibility { enemy: bool, visible: bool },
}

impl EspSelector {
    /// How specific this selector is: the number of fallback steps below it.
    pub open spec fn depth(self) -> nat {
        match self {
            EspSelector::Player => 0,
            EspSelector::PlayerTeam { .. } => 1,
            EspSelector::PlayerTeamVisibility { .. } => 2,
        }
    }

    pub open spec fn spec_config_key(self) -> ConfigKey {
        match self {
            EspSelector::Player => ConfigKey::Player,
            EspSelector::PlayerTeam { enemy } => ConfigKey::PlayerTeam { enemy },
            EspSelector::PlayerTeamVisibility { enemy, visible } => ConfigKey::PlayerTeamVisibility {
                enemy,
                visible,
            },
        }
    }

    pub fn config_key(&self) -> (k: ConfigKey)
        ensures
            k == self.spec_config_key(),
    {
        match self {
            EspSelector::Player => ConfigKey::Player,
            EspSelector::PlayerTeam { enemy } => ConfigKey::PlayerTeam { enemy: *enemy },
            EspSelector::PlayerTeamVisibility { enemy, visible } => ConfigKey::PlayerTeamVisibility {
                enemy: *enemy,
                visible: *visible,
            },
        }
    }

    /// The fixed fallback parent: team-and-visibility falls back to the team
    /// selector, the team selector to the generic player selector.
    pub open spec fn spec_parent(self) -> Option<EspSelector> {
        match self {
            EspSelector::Player => Option::None,
            EspSelector::PlayerTeam { .. } => Option::Some(EspSelector::Player),
            EspSelector::PlayerTeamVisibility { enemy, .. } => Option::Some(
                EspSelector::PlayerTeam { enemy },
            ),
        }
    }

    pub fn parent(&self) -> (r: Option<EspSelector>)
        ensures
            r == self.spec_parent(),
    {
        match self {
            EspSelector::Player => Option::None,
            EspSelector::PlayerTeam { .. } => Option::Some(EspSelector::Player),
            EspSelector::PlayerTeamVisibility { enemy, .. } => Option::Some(
                EspSelector::PlayerTeam { enemy: *enemy },
            ),
        }
    }
}

/// The full fallback chain starting at `s`, ending at the generic selector.
pub open spec fn chain(s: EspSelector) -> Seq<EspSelector>
    decreases s.depth(),
{
    match s.spec_parent() {
        Option::Some(p) => seq![s] + chain(p),
        Option::None => seq![s],
    }
}

/// The selector fallback terminates: from any starting selector the parent
/// chain is cycle-free, has at most three nodes, and ends at the generic
/// player selector.
pub proof fn lemma_fallback_terminates(s: EspSelector)
    ensures
        1 <= chain(s).len() <= 3,
        chain(s).first() == s,
        chain(s).last() == EspSelector::Player,
        forall|i: int, j: int|
            0 <= i < j < chain(s).len() ==> chain(s)[i] != chain(s)[j],
        forall|i: int|
            0 <= i < chain(s).len() - 1 ==> chain(s)[i].spec_parent() == Option::Some(
                chain(s)[i + 1],
            ),
{
    reveal_with_fuel(chain, 4);
    match s {
        EspSelector::Player => {
            assert(chain(s) =~= seq![EspSelector::Player]);
        },
        EspSelector::PlayerTeam { enemy } => {
            assert(chain(s) =~= seq![s, EspSelector::Player]);
        },
        EspSelector::PlayerTeamVisibility { enemy, visible } => {
            assert(chain(s) =~= seq![s, EspSelector::PlayerTeam { enemy }, EspSelector::Player]);
        },
    }
}

} // verus!
