//! Entities: the agents of the engine.

use vstd::prelude::*;
use crate::assets::asset::Asset;
use crate::assets::asset_manager::AssetManager;
use crate::assets::identifier::{mint, minted, nil};
use crate::assets::reference_serializable::ReferenceSerializable;
use crate::entities::abilities::{
    Ability,
    AbilityScoreIntType,
    AbilityScores,
    SaveAttributes,
    SaveIntType,
};
use crate::entities::class::Class;
use crate::entities::race::Race;
use crate::entities::skills::{Skill, SkillAttributes, SkillModifierIntType};
use crate::mechanics::dice::{step_bits, step_state, Rng};
use crate::util::enum_map::{EnumKey, EnumMap};
use crate::util::text::{decimal, last_digits, lemma_decimal_ends, power_of_ten, push_last_digits};
use vstd::string::StringExecFns;

verus! {

/// The failure of an operation on an entity: the entity's class is unknown.
#[derive(Debug)]
pub struct EntityError {}

impl EntityError {
    pub fn new() -> Self {
        EntityError {  }
    }

    /// The error that lies behind this one: there is none.
    pub fn source(&self) -> (cause: Option<&EntityError>)
        ensures
            cause is None,
    {
        None
    }

    /// The text of the error: it is empty.
    pub fn to_string(&self) -> (text: String)
        ensures
            text@ == Seq::<char>::empty(),
    {
        String::new()
    }
}

impl Default for EntityError {
    fn default() -> Self {
        Self::new()
    }
}

/// The text that shows an entity: its name and the last six decimal digits
/// of its identifier.
pub open spec fn entity_text(uuid: u128, name: Seq<char>) -> Seq<char> {
    "Entity "@ + name + " (uuid ..."@ + last_digits(uuid as nat, 6) + ")"@
}

/// The text that shows an entity, such as `Entity Rick Wright (uuid
/// ...123456)`. For an identifier of six digits or more, the digits shown
/// are the last six of its decimal form.
pub fn format_entity_data(uuid: u128, name: &str) -> (text: String)
    ensures
        text@ == entity_text(uuid, name@),
        uuid >= 100_000 ==> last_digits(uuid as nat, 6) == decimal(uuid as nat).subrange(
            decimal(uuid as nat).len() - 6,
            decimal(uuid as nat).len() as int,
        ),
{
    let mut text: String = String::from_str("Entity ");
    text.append(name);
    text.append(" (uuid ...");
    push_last_digits(&mut text, uuid, 6);
    text.append(")");
    proof {
        if uuid >= 100_000 {
            lemma_entity_text_digits(uuid);
        }
    }
    text
}

/// The six digits that the text of an entity shows are the end of the
/// decimal form of its identifier, for an identifier of six digits or more.
pub proof fn lemma_entity_text_digits(uuid: u128)
    requires
        uuid >= 100_000,
    ensures
        decimal(uuid as nat).len() >= 6,
        last_digits(uuid as nat, 6) == decimal(uuid as nat).subrange(
            decimal(uuid as nat).len() - 6,
            decimal(uuid as nat).len() as int,
        ),
{
    assert(power_of_ten(5) == 100_000) by {
        reveal_with_fuel(power_of_ten, 6);
    }
    lemma_decimal_ends(uuid as nat, 6);
}

/// The proficiency bonus at a level: 2 at levels 1 to 4, and one more for
/// every four levels after.
pub open spec fn proficiency_bonus_at(level: int) -> int {
    (level - 1) / 4 + 2
}

/// An offset between 0 and 255 as it reads in eight signed bits.
pub open spec fn narrowed(offset: int) -> int {
    if offset >= 128 {
        offset - 256
    } else {
        offset
    }
}

/// The hit points after a level-up: the roll is added, then the
/// constitution modifier, and the sum is held within the bounds of `u16`.
pub open spec fn leveled_hp(hp: int, roll: int, con: int) -> int {
    let sum = hp + roll + con;
    if sum < 0 {
        0
    } else if sum > u16::MAX {
        u16::MAX as int
    } else {
        sum
    }
}

/// An agent within the engine. It holds the identifiers of its class and of
/// its race, which resolve against an asset manager.
#[derive(Debug)]
pub struct Entity {
    uuid: u128,
    name: String,
    hp: u16,
    hp_max: u16,
    hp_temp: u16,
    level: u8,
    class: u128,
    race: u128,
    abilities: AbilityScores,
    skills: EnumMap<Skill, SkillAttributes>,
    saves: EnumMap<Ability, SaveAttributes>,
}

/// An entity as plain values: the form in which it is written and read.
#[derive(Debug)]
pub struct EntityRecord {
    pub uuid: u128,
    pub name: String,
    pub hp: u16,
    pub hp_max: u16,
    pub hp_temp: u16,
    pub level: u8,
    pub class: u128,
    pub race: u128,
    pub abilities: AbilityScores,
    pub skills: Vec<SkillAttributes>,
    pub saves: Vec<SaveAttributes>,
}

impl EntityRecord {
    /// There is one skill attribute for each skill and one save attribute
    /// for each ability.
    pub open spec fn complete(&self) -> bool {
        &&& self.skills@.len() == Skill::count()
        &&& self.saves@.len() == Ability::count()
    }
}

impl Entity {
    pub closed spec fn name(&self) -> Seq<char> {
        self.name@
    }

    pub closed spec fn hp(&self) -> u16 {
        self.hp
    }

    pub closed spec fn hp_max(&self) -> u16 {
        self.hp_max
    }

    pub closed spec fn hp_temp(&self) -> u16 {
        self.hp_temp
    }

    pub closed spec fn level(&self) -> u8 {
        self.level
    }

    /// The identifier of the entity's class.
    pub closed spec fn class(&self) -> u128 {
        self.class
    }

    /// The identifier of the entity's race.
    pub closed spec fn race(&self) -> u128 {
        self.race
    }

    pub closed spec fn abilities(&self) -> AbilityScores {
        self.abilities
    }

    pub closed spec fn skills(&self) -> EnumMap<Skill, SkillAttributes> {
        self.skills
    }

    pub closed spec fn saves(&self) -> EnumMap<Ability, SaveAttributes> {
        self.saves
    }

    /// There is one skill attribute for each skill and one save attribute
    /// for each ability.
    pub open spec fn wf(&self) -> bool {
        &&& self.skills().wf()
        &&& self.saves().wf()
    }

    /// The entity as a record.
    pub closed spec fn record(self) -> EntityRecord {
        EntityRecord {
            uuid: self.uuid,
            name: self.name,
            hp: self.hp,
            hp_max: self.hp_max,
            hp_temp: self.hp_temp,
            level: self.level,
            class: self.class,
            race: self.race,
            abilities: self.abilities,
            skills: self.skills.values(),
            saves: self.saves.values(),
        }
    }

    /// The entity that a record describes.
    pub closed spec fn of_record(record: EntityRecord) -> Entity {
        Entity {
            uuid: record.uuid,
            name: record.name,
            hp: record.hp,
            hp_max: record.hp_max,
            hp_temp: record.hp_temp,
            level: record.level,
            class: record.class,
            race: record.race,
            abilities: record.abilities,
            skills: EnumMap::of(record.skills),
            saves: EnumMap::of(record.saves),
        }
    }

    /// The record of a well-formed entity is complete, holds the entity's
    /// fields, and describes the entity.
    pub proof fn lemma_record(self)
        requires
            self.wf(),
        ensures
            self.record().complete(),
            Self::of_record(self.record()) == self,
            self.record().uuid == self.uuid(),
            self.record().name@ == self.name(),
            self.record().hp == self.hp(),
            self.record().hp_max == self.hp_max(),
            self.record().hp_temp == self.hp_temp(),
            self.record().level == self.level(),
            self.record().class == self.class(),
            self.record().race == self.race(),
            self.record().abilities == self.abilities(),
            self.record().skills@ == self.skills()@,
            self.record().saves@ == self.saves()@,
    {
        self.skills.lemma_of_values();
        self.saves.lemma_of_values();
    }

    /// The entity that a complete record describes holds the record's
    /// fields.
    pub proof fn lemma_of_record(record: EntityRecord)
        requires
            record.complete(),
        ensures
            Self::of_record(record).wf(),
            Self::of_record(record).record() == record,
            Self::of_record(record).uuid() == record.uuid,
            Self::of_record(record).name() == record.name@,
            Self::of_record(record).hp() == record.hp,
            Self::of_record(record).hp_max() == record.hp_max,
            Self::of_record(record).hp_temp() == record.hp_temp,
            Self::of_record(record).level() == record.level,
            Self::of_record(record).class() == record.class,
            Self::of_record(record).race() == record.race,
            Self::of_record(record).abilities() == record.abilities,
            Self::of_record(record).skills()@ == record.skills@,
            Self::of_record(record).saves()@ == record.saves@,
    {
        EnumMap::<Skill, SkillAttributes>::lemma_values_of(record.skills);
        EnumMap::<Ability, SaveAttributes>::lemma_values_of(record.saves);
    }

    /// The proficiency bonus of the entity.
    pub open spec fn proficiency_bonus(&self) -> int {
        proficiency_bonus_at(self.level() as int)
    }

    /// The score of a skill: the modifier of the ability behind it plus the
    /// share of the proficiency bonus that the training in the skill grants,
    /// as it reads in eight signed bits.
    pub open spec fn skill_score(&self, skill: Skill) -> int {
        self.abilities().modifier(skill.ability()) + narrowed(
            self.skills().value(skill).offset(self.proficiency_bonus()),
        )
    }

    /// The score of a saving throw: the modifier of the ability plus, for a
    /// proficient entity, the proficiency bonus.
    pub open spec fn save_score(&self, ability: Ability) -> int {
        self.abilities().modifier(ability) + self.saves().value(ability).multiplier()
            * self.proficiency_bonus()
    }

    /// The entity one level up, for the 32 raw bits that decide the roll of
    /// the hit die. Without a class in `assets` only the level changes.
    pub closed spec fn leveled(self, assets: &AssetManager, raw: u32) -> Entity {
        if assets.classes().contains_key(self.class) {
            let roll = assets.classes()[self.class].hit_die().face_for(raw);
            let hp = leveled_hp(
                self.hp as int,
                roll,
                self.abilities.modifier(Ability::Constitution),
            ) as u16;
            Entity { level: (self.level + 1) as u8, hp: hp, hp_max: hp, ..self }
        } else {
            Entity { level: (self.level + 1) as u8, ..self }
        }
    }

    /// `after` is the entity one level up with the hit points left open:
    /// all but the level and the hit points is as it was.
    pub open spec fn one_level_below(self, after: Entity) -> bool {
        &&& after.level() == self.level() + 1
        &&& after.uuid() == self.uuid()
        &&& after.name() == self.name()
        &&& after.hp_temp() == self.hp_temp()
        &&& after.class() == self.class()
        &&& after.race() == self.race()
        &&& after.abilities() == self.abilities()
        &&& after.skills() == self.skills()
        &&& after.saves() == self.saves()
    }

    /// What `leveled` changes and what it keeps.
    pub proof fn lemma_leveled(self, assets: &AssetManager, raw: u32)
        requires
            self.level() < u8::MAX,
        ensures
            ({
                let after = self.leveled(assets, raw);
                &&& after.level() == self.level() + 1
                &&& after.uuid() == self.uuid()
                &&& after.name() == self.name()
                &&& after.hp_temp() == self.hp_temp()
                &&& after.class() == self.class()
                &&& after.race() == self.race()
                &&& after.abilities() == self.abilities()
                &&& after.skills() == self.skills()
                &&& after.saves() == self.saves()
                &&& after.hp_max() == if assets.classes().contains_key(self.class()) {
                    after.hp()
                } else {
                    self.hp_max()
                }
                &&& after.hp() == if assets.classes().contains_key(self.class()) {
                    leveled_hp(
                        self.hp() as int,
                        assets.classes()[self.class()].hit_die().face_for(raw),
                        self.abilities().modifier(Ability::Constitution),
                    )
                } else {
                    self.hp() as int
                }
            }),
    {
    }

    /// An entity at level 1 under a freshly minted identifier. Its class and
    /// race are not looked up: where `assets` holds no class of identifier
    /// `class`, the entity has no hit points and `rng` is left as it was;
    /// otherwise it has those of one roll of the class's hit die, for which
    /// one draw is made from `rng`.
    pub fn new(
        name: String,
        class: u128,
        race: u128,
        abilities: AbilityScores,
        assets: &AssetManager,
        rng: &mut Rng,
    ) -> (entity: Self)
        ensures
            entity.wf(),
            minted(entity.uuid()),
            entity.uuid() != nil(),
            entity.name() == name@,
            entity.class() == class,
            entity.race() == race,
            entity.abilities() == abilities,
            entity.level() == 1,
            entity.hp_temp() == 0,
            entity.hp_max() == entity.hp(),
            forall|skill: Skill| #[trigger] entity.skills().value(skill) == SkillAttributes::Normal,
            forall|ability: Ability| #[trigger]
                entity.saves().value(ability) == SaveAttributes::Normal,
            !assets.classes().contains_key(class) ==> entity.hp() == 0 && *final(rng) == *old(rng),
            assets.classes().contains_key(class) ==> match *old(rng) {
                Rng::Step { state, increment } => {
                    &&& entity.hp() == leveled_hp(
                        0,
                        assets.classes()[class].hit_die().face_for(step_bits(state)),
                        abilities.modifier(Ability::Constitution),
                    )
                    &&& *final(rng) == (Rng::Step {
                        state: step_state(state, increment),
                        increment,
                    })
                },
                Rng::Std(_) => *final(rng) is Std,
            },
            assets.classes().contains_key(class) ==> exists|raw: u32|
                entity.hp() == leveled_hp(
                    0,
                    #[trigger] assets.classes()[class].hit_die().face_for(raw),
                    abilities.modifier(Ability::Constitution),
                ),
    {
        let skills: EnumMap<Skill, SkillAttributes> = EnumMap::from_value(SkillAttributes::Normal);
        let saves: EnumMap<Ability, SaveAttributes> = EnumMap::from_value(SaveAttributes::Normal);
        let mut s = Self {
            uuid: mint(),
            name,
            hp: 0,
            hp_max: 0,
            hp_temp: 0,
            level: 0,
            race,
            class,
            abilities,
            skills,
            saves,
        };
        proof {
            assert forall|skill: Skill| #[trigger]
                s.skills().value(skill) == SkillAttributes::Normal by {
                skill.lemma_ordinal();
            }
            assert forall|ability: Ability| #[trigger]
                s.saves().value(ability) == SaveAttributes::Normal by {
                ability.lemma_ordinal();
            }
        }
        let ghost before = s;
        let _ = s.level_up(assets, rng);
        proof {
            let raw = choose|raw: u32| s == before.leveled(assets, raw);
            before.lemma_leveled(assets, raw);
            if let Rng::Step { state, increment } = *old(rng) {
                before.lemma_leveled(assets, step_bits(state));
            }
        }
        s
    }

    /// The entity that a record describes, if the record is complete.
    pub fn from_record(record: EntityRecord) -> (entity: Option<Self>)
        ensures
            entity is Some <==> record.complete(),
            entity is Some ==> {
                &&& entity->0 == Self::of_record(record)
                &&& entity->0.wf()
                &&& entity->0.record() == record
                &&& entity->0.uuid() == record.uuid
                &&& entity->0.name() == record.name@
                &&& entity->0.hp() == record.hp
                &&& entity->0.hp_max() == record.hp_max
                &&& entity->0.hp_temp() == record.hp_temp
                &&& entity->0.level() == record.level
                &&& entity->0.class() == record.class
                &&& entity->0.race() == record.race
                &&& entity->0.abilities() == record.abilities
                &&& entity->0.skills()@ == record.skills@
                &&& entity->0.saves()@ == record.saves@
            },
    {
        proof {
            if record.complete() {
                Self::lemma_of_record(record);
            }
        }
        let EntityRecord {
            uuid,
            name,
            hp,
            hp_max,
            hp_temp,
            level,
            class,
            race,
            abilities,
            skills,
            saves,
        } = record;
        let skills_map: Option<EnumMap<Skill, SkillAttributes>> = EnumMap::from_vec(skills);
        let saves_map: Option<EnumMap<Ability, SaveAttributes>> = EnumMap::from_vec(saves);
        proof {
            EnumMap::<Skill, SkillAttributes>::lemma_values_of(skills);
            EnumMap::<Ability, SaveAttributes>::lemma_values_of(saves);
        }
        match (skills_map, saves_map) {
            (Some(skills), Some(saves)) => Some(
                Self {
                    uuid,
                    name,
                    hp,
                    hp_max,
                    hp_temp,
                    level,
                    class,
                    race,
                    abilities,
                    skills,
                    saves,
                },
            ),
            _ => None,
        }
    }

    /// The entity as a record.
    pub fn into_record(self) -> (record: EntityRecord)
        ensures
            record == self.record(),
            record.uuid == self.uuid(),
            record.name@ == self.name(),
            record.hp == self.hp(),
            record.hp_max == self.hp_max(),
            record.hp_temp == self.hp_temp(),
            record.level == self.level(),
            record.class == self.class(),
            record.race == self.race(),
            record.abilities == self.abilities(),
            record.skills@ == self.skills()@,
            record.saves@ == self.saves()@,
            self.wf() ==> record.complete(),
    {
        let Entity {
            uuid,
            name,
            hp,
            hp_max,
            hp_temp,
            level,
            class,
            race,
            abilities,
            skills,
            saves,
        } = self;
        EntityRecord {
            uuid,
            name,
            hp,
            hp_max,
            hp_temp,
            level,
            class,
            race,
            abilities,
            skills: skills.into_vec(),
            saves: saves.into_vec(),
        }
    }

    /// The text that shows the entity.
    pub fn to_string(&self) -> (text: String)
        ensures
            text@ == entity_text(self.uuid(), self.name()),
    {
        format_entity_data(self.uuid, self.name.as_str())
    }

    pub fn get_name(&self) -> (name: &str)
        ensures
            name@ == self.name(),
    {
        self.name.as_str()
    }

    pub fn get_uuid(&self) -> (id: u128)
        ensures
            id == self.uuid(),
    {
        self.uuid
    }

    pub fn get_hp(&self) -> (hp: u16)
        ensures
            hp == self.hp(),
    {
        self.hp
    }

    pub fn get_hp_max(&self) -> (hp_max: u16)
        ensures
            hp_max == self.hp_max(),
    {
        self.hp_max
    }

    pub fn get_hp_temp(&self) -> (hp_temp: u16)
        ensures
            hp_temp == self.hp_temp(),
    {
        self.hp_temp
    }

    pub fn get_level(&self) -> (level: u8)
        ensures
            level == self.level(),
    {
        self.level
    }

    /// The identifier of the entity's class.
    pub fn get_class_uuid(&self) -> (id: u128)
        ensures
            id == self.class(),
    {
        self.class
    }

    /// The identifier of the entity's race.
    pub fn get_race_uuid(&self) -> (id: u128)
        ensures
            id == self.race(),
    {
        self.race
    }

    /// The entity's class, if `assets` holds it.
    pub fn get_class<'e>(&'e self, assets: &'e AssetManager) -> (class: Option<&'e Class>)
        ensures
            match class {
                Some(found) => assets.classes().contains_key(self.class()) && *found
                    == assets.classes()[self.class()],
                None => !assets.classes().contains_key(self.class()),
            },
    {
        assets.get_class(self.class)
    }

    /// The entity's race, if `assets` holds it.
    pub fn get_race<'e>(&'e self, assets: &'e AssetManager) -> (race: Option<&'e Race>)
        ensures
            match race {
                Some(found) => assets.races().contains_key(self.race()) && *found
                    == assets.races()[self.race()],
                None => !assets.races().contains_key(self.race()),
            },
    {
        assets.get_race(self.race)
    }

    /// The speed of the entity's race, if `assets` holds the race.
    pub fn get_speed(&self, assets: &AssetManager) -> (speed: Option<u8>)
        ensures
            match speed {
                Some(value) => assets.races().contains_key(self.race()) && value
                    == assets.races()[self.race()].speed(),
                None => !assets.races().contains_key(self.race()),
            },
    {
        match assets.get_race(self.race) {
            Some(race) => Some(race.get_speed()),
            None => None,
        }
    }

    /// The name of the entity's class, if `assets` holds the class.
    pub fn get_class_name<'a>(&'a self, assets: &'a AssetManager) -> (name: Option<&'a str>)
        ensures
            match name {
                Some(text) => assets.classes().contains_key(self.class()) && text@
                    == assets.classes()[self.class()].name(),
                None => !assets.classes().contains_key(self.class()),
            },
    {
        match assets.get_class(self.class) {
            Some(class) => Some(class.get_name()),
            None => None,
        }
    }

    /// The name of the entity's race, if `assets` holds the race.
    pub fn get_race_name<'a>(&'a self, assets: &'a AssetManager) -> (name: Option<&'a str>)
        ensures
            match name {
                Some(text) => assets.races().contains_key(self.race()) && text@
                    == assets.races()[self.race()].name(),
                None => !assets.races().contains_key(self.race()),
            },
    {
        match assets.get_race(self.race) {
            Some(race) => Some(race.get_name()),
            None => None,
        }
    }

    pub fn get_ability_score(&self, ability: Ability) -> (score: AbilityScoreIntType)
        ensures
            score == self.abilities().score(ability),
    {
        self.abilities.get_ability_score(ability)
    }

    pub fn get_ability_scores(&self) -> (scores: &AbilityScores)
        ensures
            *scores == self.abilities(),
    {
        &self.abilities
    }

    pub fn get_ability_modifier(&self, ability: Ability) -> (modifier: SkillModifierIntType)
        ensures
            modifier == self.abilities().modifier(ability),
    {
        self.abilities.get_ability_modifier(ability)
    }

    pub fn get_skill_attribute(&self, skill: Skill) -> (attribute: SkillAttributes)
        requires
            self.wf(),
        ensures
            attribute == self.skills().value(skill),
    {
        *self.skills.get(skill)
    }

    pub fn get_save_attribute(&self, ability: Ability) -> (attribute: SaveAttributes)
        requires
            self.wf(),
        ensures
            attribute == self.saves().value(ability),
    {
        *self.saves.get(ability)
    }

    pub fn get_proficiency_bonus(&self) -> (bonus: u8)
        requires
            self.level() >= 1,
        ensures
            bonus == self.proficiency_bonus(),
            2 <= bonus <= 65,
    {
        ((self.level - 1) / 4) + 2
    }

    pub fn get_skill_score(&self, skill: Skill) -> (score: SkillModifierIntType)
        requires
            self.wf(),
            self.level() >= 1,
            i8::MIN <= self.skill_score(skill) <= i8::MAX,
        ensures
            score == self.skill_score(skill),
    {
        let attr: SkillAttributes = *self.skills.get(skill);
        let bonus: u8 = self.get_proficiency_bonus();
        let offset: u16 = attr.get_proficiency_offset(bonus);
        let prof_offset: i16 = if offset >= 128 {
            offset as i16 - 256
        } else {
            offset as i16
        };
        let ability_modifier: SkillModifierIntType = self.get_ability_modifier(skill.get_ability());
        let sum: i16 = ability_modifier as i16 + prof_offset;
        sum as i8
    }

    pub fn get_save_score(&self, ability: Ability) -> (score: SaveIntType)
        requires
            self.wf(),
            self.level() >= 1,
            self.save_score(ability) <= i8::MAX,
        ensures
            score == self.save_score(ability),
    {
        let ab_offset: SaveIntType = self.get_ability_modifier(ability);
        let bonus: u8 = self.get_proficiency_bonus();
        let prof_offset: SaveIntType = match *self.saves.get(ability) {
            SaveAttributes::Normal => 0,
            SaveAttributes::Proficient => bonus as i8,
        };
        ab_offset + prof_offset
    }

    /// The score of every skill.
    pub fn get_skill_scores(&self) -> (scores: EnumMap<Skill, SkillModifierIntType>)
        requires
            self.wf(),
            self.level() >= 1,
            forall|skill: Skill| i8::MIN <= #[trigger] self.skill_score(skill) <= i8::MAX,
        ensures
            scores.wf(),
            forall|skill: Skill| #[trigger] scores.value(skill) == self.skill_score(skill),
    {
        let score_of = |s: Skill| -> (score: SkillModifierIntType)
            ensures
                score == self.skill_score(s),
            { self.get_skill_score(s) };
        let scores = EnumMap::from_fn(score_of);
        proof {
            assert forall|skill: Skill| #[trigger] scores.value(skill) == self.skill_score(skill) by {
                skill.lemma_ordinal();
            }
        }
        scores
    }

    /// Sets the training in a skill and returns what it was before.
    pub fn set_skill_attribute(&mut self, skill: Skill, attribute: SkillAttributes) -> (previous:
        SkillAttributes)
        requires
            old(self).wf(),
        ensures
            final(self).wf(),
            previous == old(self).skills().value(skill),
            final(self).skills()@ == old(self).skills()@.update(skill.ordinal() as int, attribute),
            final(self).uuid() == old(self).uuid(),
            final(self).name() == old(self).name(),
            final(self).hp() == old(self).hp(),
            final(self).hp_max() == old(self).hp_max(),
            final(self).hp_temp() == old(self).hp_temp(),
            final(self).level() == old(self).level(),
            final(self).class() == old(self).class(),
            final(self).race() == old(self).race(),
            final(self).abilities() == old(self).abilities(),
            final(self).saves() == old(self).saves(),
    {
        self.skills.set(skill, attribute)
    }

    /// Sets the proficiency in the saving throws of an ability and returns
    /// what it was before.
    pub fn set_save_attribute(&mut self, ability: Ability, attribute: SaveAttributes) -> (previous:
        SaveAttributes)
        requires
            old(self).wf(),
        ensures
            final(self).wf(),
            previous == old(self).saves().value(ability),
            final(self).saves()@ == old(self).saves()@.update(ability.ordinal() as int, attribute),
            final(self).uuid() == old(self).uuid(),
            final(self).name() == old(self).name(),
            final(self).hp() == old(self).hp(),
            final(self).hp_max() == old(self).hp_max(),
            final(self).hp_temp() == old(self).hp_temp(),
            final(self).level() == old(self).level(),
            final(self).class() == old(self).class(),
            final(self).race() == old(self).race(),
            final(self).abilities() == old(self).abilities(),
            final(self).skills() == old(self).skills(),
    {
        self.saves.set(ability, attribute)
    }

    /// Raises the level by one and, where `assets` holds the entity's class,
    /// adds to the hit points the face that the class's hit die shows for
    /// `raw` and the constitution modifier. Returns the face, or an error
    /// where the class is unknown.
    pub fn level_up_rolled(&mut self, assets: &AssetManager, raw: u32) -> (result: Result<
        u16,
        EntityError,
    >)
        requires
            old(self).level() < u8::MAX,
            assets.classes().contains_key(old(self).class()) ==> old(self).hp()
                + assets.classes()[old(self).class()].hit_die().faces() <= u16::MAX,
        ensures
            *final(self) == old(self).leveled(assets, raw),
            old(self).one_level_below(*final(self)),
            match result {
                Ok(roll) => {
                    &&& assets.classes().contains_key(old(self).class())
                    &&& roll == assets.classes()[old(self).class()].hit_die().face_for(raw)
                    &&& 1 <= roll <= assets.classes()[old(self).class()].hit_die().faces()
                    &&& final(self).hp() == leveled_hp(
                        old(self).hp() as int,
                        roll as int,
                        old(self).abilities().modifier(Ability::Constitution),
                    )
                    &&& final(self).hp_max() == final(self).hp()
                },
                Err(_) => {
                    &&& !assets.classes().contains_key(old(self).class())
                    &&& final(self).hp() == old(self).hp()
                    &&& final(self).hp_max() == old(self).hp_max()
                },
            },
    {
        self.level += 1;
        let class = match assets.get_class(self.class) {
            Some(class) => class,
            None => {
                return Err(EntityError::new());
            },
        };
        let roll: u16 = class.get_hit_die().roll_from(raw) as u16;
        let con: SkillModifierIntType = self.abilities.get_ability_modifier(Ability::Constitution);
        self.hp += roll;
        if con >= 0 {
            self.hp = self.hp.saturating_add(con as u16);
        } else {
            self.hp = self.hp.saturating_sub((-con) as u16);
        }
        self.hp_max = self.hp;
        Ok(roll)
    }

    /// Raises the level by one and, where `assets` holds the entity's class,
    /// rolls the class's hit die with one draw from `rng` for new hit
    /// points. Returns the roll, or an error where the class is unknown;
    /// `rng` is then left as it was.
    pub fn level_up(&mut self, assets: &AssetManager, rng: &mut Rng) -> (result: Result<
        u16,
        EntityError,
    >)
        requires
            old(self).level() < u8::MAX,
            assets.classes().contains_key(old(self).class()) ==> old(self).hp()
                + assets.classes()[old(self).class()].hit_die().faces() <= u16::MAX,
        ensures
            exists|raw: u32|
                {
                    &&& *final(self) == #[trigger] old(self).leveled(assets, raw)
                    &&& result is Ok ==> result->Ok_0 == assets.classes()[old(
                        self,
                    ).class()].hit_die().face_for(raw)
                },
            result is Ok <==> assets.classes().contains_key(old(self).class()),
            old(self).one_level_below(*final(self)),
            match result {
                Ok(roll) => {
                    &&& 1 <= roll <= assets.classes()[old(self).class()].hit_die().faces()
                    &&& final(self).hp() == leveled_hp(
                        old(self).hp() as int,
                        roll as int,
                        old(self).abilities().modifier(Ability::Constitution),
                    )
                    &&& final(self).hp_max() == final(self).hp()
                },
                Err(_) => {
                    &&& final(self).hp() == old(self).hp()
                    &&& final(self).hp_max() == old(self).hp_max()
                },
            },
            result is Err ==> *final(rng) == *old(rng),
            result is Ok ==> match *old(rng) {
                Rng::Step { state, increment } => {
                    &&& *final(self) == old(self).leveled(assets, step_bits(state))
                    &&& result->Ok_0 == assets.classes()[old(self).class()].hit_die().face_for(
                        step_bits(state),
                    )
                    &&& *final(rng) == (Rng::Step {
                        state: step_state(state, increment),
                        increment,
                    })
                },
                Rng::Std(_) => *final(rng) is Std,
            },
    {
        let raw: u32 = if assets.get_class(self.class).is_some() {
            rng.next_u32()
        } else {
            0
        };
        self.level_up_rolled(assets, raw)
    }
}

impl ReferenceSerializable for Entity {
    type DirectSerde = EntityRecord;

    open spec fn wire(self) -> EntityRecord {
        self.record()
    }

    /// The entity that the record describes, if the record is complete and
    /// `assets` holds both the class and the race that it names.
    open spec fn resolve(s: EntityRecord, assets: &AssetManager) -> Option<Entity> {
        if s.complete() && assets.classes().contains_key(s.class) && assets.races().contains_key(
            s.race,
        ) {
            Some(Entity::of_record(s))
        } else {
            None
        }
    }

    fn serialize(self) -> EntityRecord {
        self.into_record()
    }

    fn deserialize(s: EntityRecord, assets: &AssetManager) -> Option<Entity> {
        if assets.get_class(s.class).is_some() && assets.get_race(s.race).is_some() {
            Entity::from_record(s)
        } else {
            None
        }
    }
}

/// Round trip: an entity whose class and race resolve against a store comes
/// back from its wire form as the entity it was, with the same name, level,
/// hit points, class and race.
pub proof fn lemma_round_trip(entity: Entity, store: &AssetManager)
    requires
        entity.wf(),
        store.classes().contains_key(entity.class()),
        store.races().contains_key(entity.race()),
    ensures
        Entity::resolve(entity.wire(), store) == Some(entity),
        ({
            let back = Entity::resolve(entity.wire(), store)->0;
            &&& back.uuid() == entity.uuid()
            &&& back.name() == entity.name()
            &&& back.level() == entity.level()
            &&& back.hp() == entity.hp()
            &&& back.hp_max() == entity.hp_max()
            &&& back.hp_temp() == entity.hp_temp()
            &&& back.class() == entity.class()
            &&& back.race() == entity.race()
        }),
{
    entity.lemma_record();
}

/// A wire form that names a class or a race that the store does not hold
/// resolves to nothing.
pub proof fn lemma_dangling_reference(record: EntityRecord, store: &AssetManager)
    requires
        !store.classes().contains_key(record.class) || !store.races().contains_key(record.race),
    ensures
        Entity::resolve(record, store) is None,
{
}

impl Asset for Entity {
    closed spec fn uuid(&self) -> u128 {
        self.uuid
    }

    fn get_uuid(&self) -> u128 {
        self.uuid
    }

    fn get_owning_campaign(&self) -> (owner: Option<u128>)
        ensures
            owner is None,
    {
        None
    }
}

} // verus!
