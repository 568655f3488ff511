//! A small plugin on top of the library: mages that cast abilities on each
//! other. It shows a value of the plugin's own that is returned to a
//! script through a cell.
use std::collections::HashMap;
use vstd::prelude::*;

use crate::amx::{Amx, AmxView};
use crate::cell::repr::AmxCell;
use crate::error::{AmxError, AmxResult};
use crate::plugin::{PluginEvent, SampPlugin};

verus! {

broadcast use vstd::std_specs::hash::group_hash_axioms;

/// A mage.
#[derive(Debug, Clone, Copy, PartialEq, Eq, Structural)]
pub struct Player {
    pub mana: usize,
    pub health: usize,
}

/// Something that a mage can cast.
#[derive(Debug)]
pub struct Ability {
    pub mana_cost: usize,
    pub name: String,
    pub damage: usize,
}

/// How a cast went. A script is handed the damage that was done, zero for
/// a target that died, and a negative number for a cast that failed.
#[derive(Debug, Clone, Copy, PartialEq, Eq, Structural)]
pub enum CastResult {
    Success(i32),
    TargetDead,
    NoMana,
    NoTarget,
    NoCaster,
    NoAbility,
    NotEnoughMoney,
}

impl AmxCell for CastResult {
    /// A script never hands a cast result to the plugin.
    open spec fn from_raw_spec(amx: AmxView, cell: i32) -> AmxResult<CastResult> {
        Err(AmxError::General)
    }

    open spec fn as_cell_spec(&self) -> i32 {
        match self {
            CastResult::Success(damage) => *damage,
            CastResult::TargetDead => 0i32,
            CastResult::NoMana => -1i32,
            CastResult::NoTarget => -2i32,
            CastResult::NoCaster => -3i32,
            CastResult::NoAbility => -4i32,
            CastResult::NotEnoughMoney => -5i32,
        }
    }

    fn from_raw(amx: &Amx, cell: i32) -> (value: AmxResult<CastResult>) {
        Err(AmxError::General)
    }

    fn as_cell(&self) -> (cell: i32) {
        match self {
            CastResult::Success(damage) => *damage,
            CastResult::TargetDead => 0,
            CastResult::NoMana => -1,
            CastResult::NoTarget => -2,
            CastResult::NoCaster => -3,
            CastResult::NoAbility => -4,
            CastResult::NotEnoughMoney => -5,
        }
    }
}

impl Ability {
    /// What a cast of the ability by `caster` on `target` comes to: the
    /// result, the caster and the target afterwards. A caster without the
    /// mana casts nothing. Otherwise the caster pays the mana, and the
    /// target is left with as much health as it has mana beyond the damage.
    pub open spec fn cast_spec(self, caster: Player, target: Player) -> (
        CastResult,
        Player,
        Player,
    ) {
        if caster.mana < self.mana_cost {
            (CastResult::NoMana, caster, target)
        } else {
            let health = (target.mana - self.damage) as usize;
            (
                if health == 0 {
                    CastResult::TargetDead
                } else {
                    CastResult::Success(self.damage as i32)
                },
                Player { mana: (caster.mana - self.mana_cost) as usize, ..caster },
                Player { health, ..target },
            )
        }
    }

    /// Casts the ability on another mage. The target has to have as much
    /// mana as the ability does damage.
    pub fn cast(&self, caster: &mut Player, target: &mut Player) -> (result: CastResult)
        requires
            old(caster).mana >= self.mana_cost ==> old(target).mana >= self.damage,
        ensures
            (result, *final(caster), *final(target)) == self.cast_spec(*old(caster), *old(target)),
    {
        if caster.mana < self.mana_cost {
            return CastResult::NoMana;
        }
        caster.mana = caster.mana - self.mana_cost;
        target.health = target.mana - self.damage;

        if target.health == 0 {
            CastResult::TargetDead
        } else {
            CastResult::Success(
                #[verifier::truncate]
                (self.damage as i32),
            )
        }
    }
}

/// The plugin: the abilities that each mage has made, and the mages.
pub struct MagePlugin {
    abilities: HashMap<usize, Vec<Ability>>,
    mages: HashMap<usize, Player>,
}

/// What a `MagePlugin` is to a specification.
pub struct MageView {
    pub abilities: Map<usize, Vec<Ability>>,
    pub mages: Map<usize, Player>,
}

impl View for MagePlugin {
    type V = MageView;

    closed spec fn view(&self) -> MageView {
        MageView { abilities: self.abilities@, mages: self.mages@ }
    }
}

impl MageView {
    /// The abilities that the mage `id` has made.
    pub open spec fn abilities_of(self, id: usize) -> Seq<Ability> {
        if self.abilities.contains_key(id) {
            self.abilities[id]@
        } else {
            Seq::empty()
        }
    }
}

impl MagePlugin {
    /// A plugin without mages and abilities.
    pub fn new() -> (plugin: MagePlugin)
        ensures
            plugin@ == (MageView { abilities: Map::empty(), mages: Map::empty() }),
    {
        MagePlugin { abilities: HashMap::new(), mages: HashMap::new() }
    }

    /// Takes `player` in as the mage `id`.
    pub fn add_mage(&mut self, id: usize, player: Player)
        ensures
            final(self)@ == (MageView { mages: old(self)@.mages.insert(id, player), ..old(self)@ }),
    {
        self.mages.insert(id, player);
    }

    /// The mage `id`.
    pub fn mage(&self, id: usize) -> (player: Option<Player>)
        ensures
            player == if self@.mages.contains_key(id) {
                Some(self@.mages[id])
            } else {
                None
            },
    {
        match self.mages.get(&id) {
            Some(player) => Some(*player),
            None => None,
        }
    }

    /// Adds an ability to those that the mage `creater_id` has made.
    pub fn create_ability(
        &mut self,
        creater_id: usize,
        ability_name: String,
        damage: usize,
        mana_cost: usize,
    ) -> (result: AmxResult<bool>)
        ensures
            result == Ok::<bool, AmxError>(true),
            final(self)@.mages == old(self)@.mages,
            final(self)@.abilities.dom() == old(self)@.abilities.dom().insert(creater_id),
            final(self)@.abilities_of(creater_id) == old(self)@.abilities_of(creater_id).push(
                Ability { mana_cost, name: ability_name, damage },
            ),
            forall|id: usize|
                id != creater_id ==> final(self)@.abilities_of(id) == old(self)@.abilities_of(id),
    {
        let mut list: Vec<Ability> = match self.abilities.remove(&creater_id) {
            Some(list) => list,
            None => Vec::new(),
        };
        list.push(Ability { mana_cost, damage, name: ability_name });
        self.abilities.insert(creater_id, list);
        assert(final(self)@.abilities.dom() =~= old(self)@.abilities.dom().insert(creater_id));
        Ok(true)
    }

    /// Lets the mage `caster_id` cast its ability number `ability_idx` on
    /// another mage, `target_id`. A mage or an ability that is not there
    /// is reported as the result, and nothing changes.
    pub fn cast_ability(&mut self, caster_id: usize, ability_idx: usize, target_id: usize) -> (result:
        AmxResult<CastResult>)
        requires
            caster_id != target_id,
            old(self)@.mages.contains_key(caster_id) && old(self)@.mages.contains_key(target_id)
                && ability_idx < old(self)@.abilities_of(caster_id).len() ==> {
                let ability = old(self)@.abilities_of(caster_id)[ability_idx as int];
                old(self)@.mages[caster_id].mana >= ability.mana_cost ==> old(
                    self,
                )@.mages[target_id].mana >= ability.damage
            },
        ensures
            final(self)@.abilities == old(self)@.abilities,
            !old(self)@.mages.contains_key(caster_id) ==> result == Ok::<CastResult, AmxError>(
                CastResult::NoCaster,
            ) && final(self)@ == old(self)@,
            old(self)@.mages.contains_key(caster_id) && !old(self)@.mages.contains_key(target_id)
                ==> result == Ok::<CastResult, AmxError>(CastResult::NoTarget) && final(self)@
                == old(self)@,
            old(self)@.mages.contains_key(caster_id) && old(self)@.mages.contains_key(target_id)
                && ability_idx >= old(self)@.abilities_of(caster_id).len() ==> result == Ok::<
                CastResult,
                AmxError,
            >(CastResult::NoAbility) && final(self)@ == old(self)@,
            old(self)@.mages.contains_key(caster_id) && old(self)@.mages.contains_key(target_id)
                && ability_idx < old(self)@.abilities_of(caster_id).len() ==> {
                let outcome = old(self)@.abilities_of(caster_id)[ability_idx as int].cast_spec(
                    old(self)@.mages[caster_id],
                    old(self)@.mages[target_id],
                );
                &&& result == Ok::<CastResult, AmxError>(outcome.0)
                &&& final(self)@.mages == old(self)@.mages.insert(caster_id, outcome.1).insert(
                    target_id,
                    outcome.2,
                )
            },
    {
        let mut caster: Player = match self.mages.get(&caster_id) {
            Some(caster) => *caster,
            None => {
                return Ok(CastResult::NoCaster);
            },
        };
        let mut target: Player = match self.mages.get(&target_id) {
            Some(target) => *target,
            None => {
                return Ok(CastResult::NoTarget);
            },
        };
        let result: CastResult = match self.abilities.get(&caster_id) {
            Some(list) => {
                if ability_idx >= list.len() {
                    return Ok(CastResult::NoAbility);
                }
                list[ability_idx].cast(&mut caster, &mut target)
            },
            None => {
                return Ok(CastResult::NoAbility);
            },
        };
        self.mages.insert(caster_id, caster);
        self.mages.insert(target_id, target);
        Ok(result)
    }
}

impl SampPlugin for MagePlugin {
    /// The mages take no notice of the server: no notification changes
    /// the plugin.
    open spec fn told(self, event: PluginEvent, after: MagePlugin) -> bool {
        after == self
    }

    fn on_load(&mut self) {
    }

    fn on_unload(&mut self) {
    }

    fn on_amx_load(&mut self, amx: &Amx) {
    }

    fn on_amx_unload(&mut self, amx: &Amx) {
    }

    fn process_tick(&mut self) {
    }
}

} // verus!
