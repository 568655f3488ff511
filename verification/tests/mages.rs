use samp_sdk::cell::repr::AmxCell;
use samp_sdk::error::AmxError;
use samp_sdk::mage::{Ability, CastResult, MagePlugin, Player};
use samp_sdk::interlayer;
use samp_sdk::plugin::native_return;
use samp_sdk::runtime::Runtime;

fn fireball() -> Ability {
    Ability { mana_cost: 30, name: String::from("Fireball"), damage: 40 }
}

#[test]
fn cast_pays_mana_and_hurts_the_target() {
    let mut caster = Player { mana: 50, health: 100 };
    let mut target = Player { mana: 60, health: 100 };
    let result = fireball().cast(&mut caster, &mut target);
    assert_eq!(result, CastResult::Success(40));
    assert_eq!(caster, Player { mana: 20, health: 100 });
    assert_eq!(target, Player { mana: 60, health: 20 });
}

#[test]
fn cast_without_mana_changes_nothing() {
    let mut caster = Player { mana: 29, health: 100 };
    let mut target = Player { mana: 0, health: 100 };
    assert_eq!(fireball().cast(&mut caster, &mut target), CastResult::NoMana);
    assert_eq!(caster, Player { mana: 29, health: 100 });
    assert_eq!(target, Player { mana: 0, health: 100 });
}

#[test]
fn cast_that_leaves_no_health_kills() {
    let mut caster = Player { mana: 30, health: 100 };
    let mut target = Player { mana: 40, health: 100 };
    assert_eq!(fireball().cast(&mut caster, &mut target), CastResult::TargetDead);
    assert_eq!(caster.mana, 0);
    assert_eq!(target.health, 0);
}

#[test]
fn cast_results_as_cells() {
    assert_eq!(CastResult::Success(40).as_cell(), 40);
    assert_eq!(CastResult::TargetDead.as_cell(), 0);
    assert_eq!(CastResult::NoMana.as_cell(), -1);
    assert_eq!(CastResult::NoTarget.as_cell(), -2);
    assert_eq!(CastResult::NoCaster.as_cell(), -3);
    assert_eq!(CastResult::NoAbility.as_cell(), -4);
    assert_eq!(CastResult::NotEnoughMoney.as_cell(), -5);
    assert_eq!(native_return(Ok(CastResult::NoTarget)), -2);
    assert_eq!(native_return::<CastResult>(Err(AmxError::General)), 0);
}

#[test]
fn plugin_casts_between_its_mages() {
    let mut plugin = MagePlugin::new();
    assert_eq!(plugin.cast_ability(1, 0, 2), Ok(CastResult::NoCaster));
    plugin.add_mage(1, Player { mana: 100, health: 100 });
    assert_eq!(plugin.cast_ability(1, 0, 2), Ok(CastResult::NoTarget));
    plugin.add_mage(2, Player { mana: 50, health: 100 });
    assert_eq!(plugin.cast_ability(1, 0, 2), Ok(CastResult::NoAbility));
    assert_eq!(plugin.create_ability(1, String::from("Fireball"), 40, 30), Ok(true));
    assert_eq!(plugin.create_ability(1, String::from("Spark"), 10, 80), Ok(true));
    assert_eq!(plugin.cast_ability(1, 2, 2), Ok(CastResult::NoAbility));
    assert_eq!(plugin.cast_ability(2, 0, 1), Ok(CastResult::NoAbility));
    assert_eq!(plugin.cast_ability(1, 0, 2), Ok(CastResult::Success(40)));
    assert_eq!(plugin.mage(1), Some(Player { mana: 70, health: 100 }));
    assert_eq!(plugin.mage(2), Some(Player { mana: 50, health: 10 }));
    assert_eq!(plugin.cast_ability(1, 1, 2), Ok(CastResult::NoMana));
    assert_eq!(plugin.mage(1), Some(Player { mana: 70, health: 100 }));
    assert_eq!(plugin.mage(3), None);
}

#[test]
fn notifications_leave_the_mages_alone() {
    let mut plugin = MagePlugin::new();
    plugin.add_mage(1, Player { mana: 5, health: 6 });
    let mut rt = Runtime::initialize();
    rt.set_plugin(plugin);
    interlayer::load(&mut rt, 0x4000);
    interlayer::process_tick(&mut rt);
    interlayer::unload(&mut rt);
    assert_eq!(rt.plugin_cast().mage(1), Some(Player { mana: 5, health: 6 }));
    assert_eq!(rt.plugin_cast().mage(2), None);
}
