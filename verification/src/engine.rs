//! The engine: an asset manager together with a source of randomness.

use vstd::prelude::*;
use crate::assets::asset::Asset;
use crate::assets::asset_manager::AssetManager;
use crate::assets::identifier::{minted, nil};
use crate::campaigns::campaign::Campaign;
use crate::entities::abilities::{Ability, AbilityScores};
use crate::entities::class::Class;
use crate::entities::entity::{leveled_hp, Entity};
use crate::entities::race::Race;
use crate::mechanics::dice::{step_bits, step_state, Dice, Rng};
use crate::util::asset_key_error::AssetKeyError;

verus! {

pub struct Engine {
    asset_manager: AssetManager,
    rng: Rng,
}

impl Engine {
    /// The asset manager of the engine.
    pub closed spec fn assets(&self) -> AssetManager {
        self.asset_manager
    }

    /// The source of randomness of the engine.
    pub closed spec fn rng(&self) -> Rng {
        self.rng
    }

    pub fn new(rng: Rng, asset_manager: AssetManager) -> (engine: Self)
        ensures
            engine.assets() == asset_manager,
            engine.rng() == rng,
    {
        Self { asset_manager, rng }
    }

    pub fn get_asset_manager(&self) -> (assets: &AssetManager)
        ensures
            *assets == self.assets(),
    {
        &self.asset_manager
    }

    /// The asset manager, to be changed in place: the engine holds what the
    /// caller leaves in it.
    pub fn get_asset_manager_mut(&mut self) -> (assets: &mut AssetManager)
        ensures
            *assets == old(self).assets(),
            final(self).assets() == *final(assets),
            final(self).rng() == old(self).rng(),
    {
        &mut self.asset_manager
    }

    /// Makes a campaign and stores it, unless its fresh identifier is taken.
    pub fn new_campaign(&mut self, campaign_name: String, campaign_description: String) -> (result:
        Result<&Campaign, AssetKeyError<'_, Campaign>>)
        requires
            old(self).assets().wf(),
        ensures
            final(self).assets().wf(),
            old(self).assets().has_defaults() ==> final(self).assets().has_defaults(),
            final(self).assets().same_but_campaigns(&old(self).assets()),
            final(self).rng() == old(self).rng(),
            match result {
                Ok(stored) => {
                    &&& minted(stored.uuid())
                    &&& stored.name() == campaign_name@
                    &&& stored.description() == campaign_description@
                    &&& !old(self).assets().campaigns().contains_key(stored.uuid())
                    &&& final(self).assets().campaigns() == old(self).assets().campaigns().insert(
                        stored.uuid(),
                        *stored,
                    )
                },
                Err(error) => {
                    &&& final(self).assets().campaigns() == old(self).assets().campaigns()
                    &&& error.rejected().name() == campaign_name@
                    &&& error.rejected().description() == campaign_description@
                    &&& old(self).assets().campaigns().contains_key(error.rejected().uuid())
                },
            },
    {
        self.asset_manager.create_campaign(campaign_name, campaign_description)
    }

    /// Makes the entity that `builder` describes, at level 1, and stores it,
    /// unless its fresh identifier is taken. Its first hit points are rolled
    /// with one draw from the engine's source of randomness where the
    /// manager holds its class; the source is left as it was where not.
    pub fn new_entity(&mut self, builder: EntityBuilder) -> (result: Result<
        &Entity,
        AssetKeyError<'_, Entity>,
    >)
        requires
            old(self).assets().wf(),
        ensures
            final(self).assets().wf(),
            old(self).assets().has_defaults() ==> final(self).assets().has_defaults(),
            final(self).assets().same_but_entities(&old(self).assets()),
            ({
                let entity = match result {
                    Ok(stored) => *stored,
                    Err(error) => error.rejected(),
                };
                let class = builder.class_or_default();
                let held = old(self).assets().classes().contains_key(class);
                &&& entity.wf()
                &&& minted(entity.uuid())
                &&& entity.name() == builder.name()
                &&& entity.class() == class
                &&& entity.race() == builder.race_or_default()
                &&& entity.abilities() == builder.abilities_or_default()
                &&& entity.level() == 1
                &&& entity.hp_temp() == 0
                &&& entity.hp_max() == entity.hp()
                &&& !held ==> entity.hp() == 0 && final(self).rng() == old(self).rng()
                &&& held ==> exists|raw: u32|
                    entity.hp() == leveled_hp(
                        0,
                        #[trigger] old(self).assets().classes()[class].hit_die().face_for(raw),
                        entity.abilities().modifier(Ability::Constitution),
                    )
                &&& held ==> match old(self).rng() {
                    Rng::Step { state, increment } => {
                        &&& entity.hp() == leveled_hp(
                            0,
                            old(self).assets().classes()[class].hit_die().face_for(
                                step_bits(state),
                            ),
                            entity.abilities().modifier(Ability::Constitution),
                        )
                        &&& final(self).rng() == (Rng::Step {
                            state: step_state(state, increment),
                            increment,
                        })
                    },
                    Rng::Std(_) => final(self).rng() is Std,
                }
                &&& result is Ok <==> !old(self).assets().entities().contains_key(entity.uuid())
            }),
            match result {
                Ok(stored) => final(self).assets().entities() == old(
                    self,
                ).assets().entities().insert(stored.uuid(), *stored),
                Err(error) => final(self).assets().entities() == old(self).assets().entities(),
            },
    {
        let (name, class, race, abilities) = builder.build();
        self.asset_manager.create_entity(name, class, race, abilities, &mut self.rng)
    }

    /// Makes a class and stores it, unless its fresh identifier is taken.
    pub fn new_class(&mut self, class_name: String, hit_die: Dice) -> (result: Result<
        &Class,
        AssetKeyError<'_, Class>,
    >)
        requires
            old(self).assets().wf(),
        ensures
            final(self).assets().wf(),
            old(self).assets().has_defaults() ==> final(self).assets().has_defaults(),
            final(self).assets().same_but_classes(&old(self).assets()),
            final(self).rng() == old(self).rng(),
            match result {
                Ok(stored) => {
                    &&& minted(stored.uuid())
                    &&& stored.name() == class_name@
                    &&& stored.hit_die() == hit_die
                    &&& !old(self).assets().classes().contains_key(stored.uuid())
                    &&& final(self).assets().classes() == old(self).assets().classes().insert(
                        stored.uuid(),
                        *stored,
                    )
                },
                Err(error) => {
                    &&& final(self).assets().classes() == old(self).assets().classes()
                    &&& error.rejected().name() == class_name@
                    &&& error.rejected().hit_die() == hit_die
                    &&& old(self).assets().classes().contains_key(error.rejected().uuid())
                },
            },
    {
        self.asset_manager.create_class(class_name, hit_die)
    }

    /// Makes a race and stores it, unless its fresh identifier is taken.
    pub fn new_race(&mut self, race_name: String, speed: u8) -> (result: Result<
        &Race,
        AssetKeyError<'_, Race>,
    >)
        requires
            old(self).assets().wf(),
        ensures
            final(self).assets().wf(),
            old(self).assets().has_defaults() ==> final(self).assets().has_defaults(),
            final(self).assets().same_but_races(&old(self).assets()),
            final(self).rng() == old(self).rng(),
            match result {
                Ok(stored) => {
                    &&& minted(stored.uuid())
                    &&& stored.name() == race_name@
                    &&& stored.speed() == speed
                    &&& !old(self).assets().races().contains_key(stored.uuid())
                    &&& final(self).assets().races() == old(self).assets().races().insert(
                        stored.uuid(),
                        *stored,
                    )
                },
                Err(error) => {
                    &&& final(self).assets().races() == old(self).assets().races()
                    &&& error.rejected().name() == race_name@
                    &&& error.rejected().speed() == speed
                    &&& old(self).assets().races().contains_key(error.rejected().uuid())
                },
            },
    {
        self.asset_manager.create_race(race_name, speed)
    }
}

/// The description of an entity to be made: a name and, optionally, a
/// class, a race and ability scores. What is left out is the default: the
/// built-in class, the built-in race, every score at 10.
pub struct EntityBuilder {
    name: String,
    class: Option<u128>,
    race: Option<u128>,
    abilities: Option<AbilityScores>,
}

impl EntityBuilder {
    pub closed spec fn name(&self) -> Seq<char> {
        self.name@
    }

    pub closed spec fn class(&self) -> Option<u128> {
        self.class
    }

    pub closed spec fn race(&self) -> Option<u128> {
        self.race
    }

    pub closed spec fn abilities(&self) -> Option<AbilityScores> {
        self.abilities
    }

    /// The class of the entity to be made.
    pub open spec fn class_or_default(&self) -> u128 {
        match self.class() {
            Some(class) => class,
            None => nil(),
        }
    }

    /// The race of the entity to be made.
    pub open spec fn race_or_default(&self) -> u128 {
        match self.race() {
            Some(race) => race,
            None => nil(),
        }
    }

    /// The ability scores of the entity to be made.
    pub open spec fn abilities_or_default(&self) -> AbilityScores {
        match self.abilities() {
            Some(abilities) => abilities,
            None => AbilityScores::all(10),
        }
    }

    pub fn new(name: String) -> (builder: Self)
        ensures
            builder.name() == name@,
            builder.class() is None,
            builder.race() is None,
            builder.abilities() is None,
    {
        Self { name, class: None, race: None, abilities: None }
    }

    pub fn with_class(self, class: u128) -> (builder: Self)
        ensures
            builder.name() == self.name(),
            builder.class() == Some(class),
            builder.race() == self.race(),
            builder.abilities() == self.abilities(),
    {
        let mut builder = self;
        builder.class = Some(class);
        builder
    }

    pub fn with_race(self, race: u128) -> (builder: Self)
        ensures
            builder.name() == self.name(),
            builder.class() == self.class(),
            builder.race() == Some(race),
            builder.abilities() == self.abilities(),
    {
        let mut builder = self;
        builder.race = Some(race);
        builder
    }

    pub fn with_abilities(self, abilities: AbilityScores) -> (builder: Self)
        ensures
            builder.name() == self.name(),
            builder.class() == self.class(),
            builder.race() == self.race(),
            builder.abilities() == Some(abilities),
    {
        let mut builder = self;
        builder.abilities = Some(abilities);
        builder
    }

    /// The name, the class, the race and the ability scores of the entity
    /// to be made.
    pub fn build(self) -> (parts: (String, u128, u128, AbilityScores))
        ensures
            parts.0@ == self.name(),
            parts.1 == self.class_or_default(),
            parts.2 == self.race_or_default(),
            parts.3 == self.abilities_or_default(),
    {
        (
            self.name,
            match self.class {
                Some(class) => class,
                None => AssetManager::DEFAULT_CLASS_UUID,
            },
            match self.race {
                Some(race) => race,
                None => AssetManager::DEFAULT_RACE_UUID,
            },
            match self.abilities {
                Some(abilities) => abilities,
                None => AbilityScores::from_defaults(),
            },
        )
    }
}

} // verus!
