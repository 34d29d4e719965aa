//! The per-tick state: the enable toggle, the snapshot of actor records,
//! and the viewer's team — with the snapshot builder and the visual-profile
//! resolver.

use vstd::prelude::*;
use crate::actor::{EntityClass, EntityGraph, EspError, GraphEntity, PawnInfo, PawnState,
    PlayerESPInfo};
use crate::config::{config_of, enabled_of, AppSettings, EspConfig, EspPlayerSettings};
use crate::selector::EspSelector;
use crate::toggle::{toggle_step, KeyToggle, KeyToggleMode};

verus! {

/// Emitted at most once per tick, exactly when the enable toggle changed
/// state; the telemetry sink receives it outside this crate.
#[derive(Clone, Copy, Debug, PartialEq, Eq, Structural)]
pub struct TelemetryEvent {
    pub enabled: bool,
    pub mode: KeyToggleMode,
}

pub struct PlayerESP {
    pub toggle: KeyToggle,
    pub players: Vec<PlayerESPInfo>,
    pub local_team_id: u8,
}

/// The most specific selector for an actor: its team relation to the viewer,
/// crossed with visibility. Visibility detection is a placeholder that
/// always reports visible.
pub open spec fn start_selector(local_team: u8, target: PawnInfo) -> EspSelector {
    EspSelector::PlayerTeamVisibility { enemy: target.team_id != local_team, visible: true }
}

/// Walk the fallback chain from `sel`: the first selector that is enabled
/// and stores a player profile wins, most specific first.
pub open spec fn spec_resolve(settings: AppSettings, sel: EspSelector) -> Option<EspPlayerSettings>
    decreases sel.depth(),
{
    let key = sel.spec_config_key();
    let hit = if enabled_of(settings.esp_settings_enabled@, key) {
        match config_of(settings.esp_settings@, key) {
            Option::Some(EspConfig::Player(p)) => Option::Some(p),
            _ => Option::None,
        }
    } else {
        Option::None
    };
    if hit is Some {
        hit
    } else {
        match sel.spec_parent() {
            Option::Some(par) => spec_resolve(settings, par),
            Option::None => Option::None,
        }
    }
}

/// Specificity wins: when a selector itself is enabled and stores a player
/// profile, resolution returns that profile, whatever any ancestor stores.
pub proof fn lemma_specificity(settings: AppSettings, sel: EspSelector, p: EspPlayerSettings)
    requires
        enabled_of(settings.esp_settings_enabled@, sel.spec_config_key()),
        config_of(settings.esp_settings@, sel.spec_config_key()) == Option::Some(
            EspConfig::Player(p),
        ),
    ensures
        spec_resolve(settings, sel) == Option::Some(p),
{
}

/// Whether an entity survives the per-tick filter: not the viewer's own
/// camera target, a player pawn, alive, with positive health and a resolved
/// name.
pub open spec fn keep_entity(e: GraphEntity, view_target: u64) -> bool {
    &&& e.entity_index != view_target
    &&& e.class == Option::Some(EntityClass::PlayerPawn)
    &&& e.pawn_state == PawnState::Alive
    &&& e.pawn_info.player_health > 0
    &&& e.pawn_info.player_name is Some
}

pub open spec fn record_of(e: GraphEntity) -> PlayerESPInfo {
    PlayerESPInfo { pawn_info: e.pawn_info, pawn_model: e.pawn_model }
}

/// The snapshot a graph yields: the records of the surviving entities, in
/// graph order.
pub open spec fn snapshot_of(entities: Seq<GraphEntity>, view_target: u64) -> Seq<PlayerESPInfo>
    decreases entities.len(),
{
    if entities.len() == 0 {
        Seq::empty()
    } else {
        let rest = snapshot_of(entities.drop_last(), view_target);
        if keep_entity(entities.last(), view_target) {
            rest.push(record_of(entities.last()))
        } else {
            rest
        }
    }
}

/// The index of the first entity whose resolution hits a transient read
/// error, if any; such an error aborts the whole tick's build.
pub open spec fn first_fault(entities: Seq<GraphEntity>) -> Option<u64>
    decreases entities.len(),
{
    if entities.len() == 0 {
        Option::None
    } else if entities[0].read_fault {
        Option::Some(entities[0].entity_index)
    } else {
        first_fault(entities.drop_first())
    }
}

proof fn lemma_first_fault_skip(entities: Seq<GraphEntity>, i: int)
    requires
        0 <= i <= entities.len(),
        forall|j: int| 0 <= j < i ==> !(#[trigger] entities[j]).read_fault,
    ensures
        first_fault(entities) == first_fault(entities.skip(i)),
    decreases i,
{
    if i > 0 {
        lemma_first_fault_skip(entities, i - 1);
        assert(entities.skip(i - 1).drop_first() =~= entities.skip(i));
        assert(entities.skip(i - 1)[0] == entities[i - 1]);
    } else {
        assert(entities.skip(0) =~= entities);
    }
}

/// No record is ever stored for a filtered-out entity: every record of the
/// snapshot comes from some entity that is not the viewer's camera target
/// and has positive health and a resolved name.
pub proof fn lemma_snapshot_sound(entities: Seq<GraphEntity>, view_target: u64)
    ensures
        forall|k: int|
            #![trigger snapshot_of(entities, view_target)[k]]
            0 <= k < snapshot_of(entities, view_target).len() ==> exists|j: int|
                0 <= j < entities.len() && keep_entity(#[trigger] entities[j], view_target)
                    && snapshot_of(entities, view_target)[k] == record_of(entities[j]),
    decreases entities.len(),
{
    if entities.len() > 0 {
        let rest = entities.drop_last();
        lemma_snapshot_sound(rest, view_target);
        let snap = snapshot_of(entities, view_target);
        let snap_rest = snapshot_of(rest, view_target);
        assert forall|k: int|
            #![trigger snapshot_of(entities, view_target)[k]]
            0 <= k < snap.len() implies exists|j: int|
            0 <= j < entities.len() && keep_entity(#[trigger] entities[j], view_target)
                && snapshot_of(entities, view_target)[k] == record_of(entities[j]) by {
            if k < snap_rest.len() {
                let j = choose|j: int|
                    0 <= j < rest.len() && keep_entity(#[trigger] rest[j], view_target)
                        && snap_rest[k] == record_of(rest[j]);
                assert(entities[j] == rest[j]);
                assert(keep_entity(entities[j], view_target) && snap[k] == record_of(entities[j]));
            } else {
                let j = entities.len() - 1;
                assert(keep_entity(entities[j], view_target) && snap[k] == record_of(entities[j]));
            }
        }
    }
}

impl PlayerESP {
    pub fn new() -> (r: PlayerESP)
        ensures
            r.toggle == (KeyToggle { enabled: false, key_down: false }),
            r.players@ == Seq::<PlayerESPInfo>::empty(),
            r.local_team_id == 0,
    {
        PlayerESP { toggle: KeyToggle::new(), players: Vec::new(), local_team_id: 0 }
    }

    /// The profile used to draw `target`, found by walking the selector
    /// fallback chain from the most specific selector for the actor.
    pub fn resolve_esp_player_config<'a>(&self, settings: &'a AppSettings, target: &PawnInfo) -> (r:
        Option<&'a EspPlayerSettings>)
        ensures
            match r {
                Option::Some(p) => spec_resolve(*settings, start_selector(self.local_team_id, *target))
                    == Option::Some(*p),
                Option::None => spec_resolve(*settings, start_selector(self.local_team_id, *target))
                    is None,
            },
    {
        let ghost start = start_selector(self.local_team_id, *target);
        let mut sel = EspSelector::PlayerTeamVisibility {
            enemy: target.team_id != self.local_team_id,
            visible: true,
        };
        loop
            invariant
                start == start_selector(self.local_team_id, *target),
                spec_resolve(*settings, start) == spec_resolve(*settings, sel),
            decreases sel.depth(),
        {
            let key = sel.config_key();
            if settings.is_enabled(key) {
                match settings.lookup_config(key) {
                    Option::Some(cfg) => match cfg {
                        EspConfig::Player(p) => {
                            return Option::Some(p);
                        },
                        _ => {},
                    },
                    Option::None => {},
                }
            }
            match sel.parent() {
                Option::Some(par) => {
                    sel = par;
                },
                Option::None => {
                    return Option::None;
                },
            }
        }
    }

    /// One update tick: advance the enable toggle (emitting at most one
    /// telemetry event, exactly on a state change), then rebuild the
    /// snapshot from the graph — or leave it empty when the feature is off
    /// or no viewpoint exists, or abort on the first transient read error.
    pub fn update(&mut self, settings: &AppSettings, pressed: bool, controller_team: Option<u8>,
        view_target: Option<u64>, graph: EntityGraph) -> (r: (Option<TelemetryEvent>, Result<
        (),
        EspError,
    >))
        ensures
            final(self).toggle == toggle_step(old(self).toggle, settings.esp_mode, pressed),
            r.0 == (if final(self).toggle.enabled != old(self).toggle.enabled {
                Option::Some(
                    (TelemetryEvent { enabled: final(self).toggle.enabled, mode: settings.esp_mode }),
                )
            } else {
                Option::None::<TelemetryEvent>
            }),
            !final(self).toggle.enabled ==> final(self).players@ == Seq::<PlayerESPInfo>::empty()
                && r.1 == Ok::<(), EspError>(())
                && final(self).local_team_id == old(self).local_team_id,
            final(self).toggle.enabled && controller_team is None ==> final(self).players@
                == Seq::<PlayerESPInfo>::empty() && r.1 == Ok::<(), EspError>(())
                && final(self).local_team_id == old(self).local_team_id,
            final(self).toggle.enabled && controller_team is Some ==> final(self).local_team_id
                == controller_team.unwrap(),
            final(self).toggle.enabled && controller_team is Some && view_target is None
                ==> final(self).players@ == Seq::<PlayerESPInfo>::empty() && r.1 == Ok::<(),
                EspError>(()),
            final(self).toggle.enabled && controller_team is Some && view_target is Some ==> match
                first_fault(graph.entities@) {
                Option::Some(idx) => r.1 == Err::<(), EspError>(
                    EspError::EntityRead { entity_index: idx },
                ) && final(self).players@ == Seq::<PlayerESPInfo>::empty(),
                Option::None => r.1 == Ok::<(), EspError>(()) && final(self).players@ == snapshot_of(
                    graph.entities@,
                    view_target.unwrap(),
                ),
            },
    {
        let changed = self.toggle.update(settings.esp_mode, pressed);
        let event = if changed {
            Option::Some(TelemetryEvent { enabled: self.toggle.enabled, mode: settings.esp_mode })
        } else {
            Option::None
        };

        self.players = Vec::new();
        if !self.toggle.enabled {
            return (event, Ok(()));
        }

        let team = match controller_team {
            Option::Some(t) => t,
            Option::None => {
                return (event, Ok(()));
            },
        };
        self.local_team_id = team;

        let vt = match view_target {
            Option::Some(v) => v,
            Option::None => {
                return (event, Ok(()));
            },
        };

        let ghost g0 = graph.entities@;
        let ghost pre_toggle = old(self).toggle;
        let mut entities = graph.entities;
        let ghost mut i: int = 0;
        proof {
            assert(g0.skip(0) =~= g0);
            assert(g0.take(0) =~= Seq::<GraphEntity>::empty());
        }
        while entities.len() > 0
            invariant
                0 <= i <= g0.len(),
                entities@ == g0.skip(i),
                forall|j: int| 0 <= j < i ==> !(#[trigger] g0[j]).read_fault,
                self.players@ == snapshot_of(g0.take(i), vt),
                g0 == graph.entities@,
                pre_toggle == old(self).toggle,
                self.toggle == toggle_step(pre_toggle, settings.esp_mode, pressed),
                self.toggle.enabled,
                event == (if self.toggle.enabled != pre_toggle.enabled {
                    Option::Some(
                        (TelemetryEvent { enabled: self.toggle.enabled, mode: settings.esp_mode }),
                    )
                } else {
                    Option::None::<TelemetryEvent>
                }),
                controller_team == Option::Some(team),
                view_target == Option::Some(vt),
                self.local_team_id == team,
            decreases entities@.len(),
        {
            proof {
                assert(g0.skip(i)[0] == g0[i]);
            }
            let e = entities.remove(0);
            proof {
                assert(entities@ =~= g0.skip(i + 1));
            }
            if e.read_fault {
                proof {
                    lemma_first_fault_skip(g0, i);
                }
                let idx = e.entity_index;
                self.players = Vec::new();
                return (event, Err(EspError::EntityRead { entity_index: idx }));
            }
            let class_ok = match e.class {
                Option::Some(EntityClass::PlayerPawn) => true,
                _ => false,
            };
            let alive = match e.pawn_state {
                PawnState::Alive => true,
                _ => false,
            };
            let keep = e.entity_index != vt && class_ok && alive && e.pawn_info.player_health > 0
                && e.pawn_info.player_name.is_some();
            proof {
                assert(keep == keep_entity(g0[i], vt));
                assert(g0.take(i + 1).drop_last() =~= g0.take(i));
                assert(g0.take(i + 1).last() == g0[i]);
            }
            if keep {
                let GraphEntity { pawn_info, pawn_model, .. } = e;
                self.players.push(PlayerESPInfo { pawn_info, pawn_model });
            }
            proof {
                i = i + 1;
            }
        }
        proof {
            assert(i == g0.len());
            lemma_first_fault_skip(g0, i);
            assert(first_fault(g0) is None);
            assert(g0.take(i) =~= g0);
        }
        (event, Ok(()))
    }
}

} // verus!
