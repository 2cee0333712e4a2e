//! Skills, the abilities behind them, and degrees of proficiency.

use vstd::prelude::*;
use crate::entities::abilities::Ability;
use crate::util::enum_map::EnumKey;

verus! {

pub type SkillModifierIntType = i8;

pub type SkillIntType = u8;

/// The eighteen skills.
#[derive(Debug, PartialEq, Eq, Hash, Clone, Copy, Structural)]
pub enum Skill {
    Acrobatics,
    AnimalHandling,
    Arcana,
    Athletics,
    Deception,
    History,
    Insight,
    Intimidation,
    Investigation,
    Medicine,
    Nature,
    Perception,
    Performance,
    Persuasion,
    Religion,
    SlightOfHand,
    Stealth,
    Survival,
}

impl Skill {
    /// The ability that a skill rests on.
    pub open spec fn ability(self) -> Ability {
        match self {
            Skill::Athletics => Ability::Strength,
            Skill::Acrobatics | Skill::SlightOfHand | Skill::Stealth => Ability::Dexterity,
            Skill::Arcana | Skill::History | Skill::Investigation | Skill::Nature
            | Skill::Religion => Ability::Intelligence,
            Skill::AnimalHandling | Skill::Insight | Skill::Medicine | Skill::Perception
            | Skill::Survival => Ability::Wisdom,
            Skill::Deception | Skill::Intimidation | Skill::Performance
            | Skill::Persuasion => Ability::Charisma,
        }
    }

    pub fn get_ability(&self) -> (ability: Ability)
        ensures
            ability == self.ability(),
    {
        match self {
            Skill::Acrobatics => Ability::Dexterity,
            Skill::AnimalHandling => Ability::Wisdom,
            Skill::Arcana => Ability::Intelligence,
            Skill::Athletics => Ability::Strength,
            Skill::Deception => Ability::Charisma,
            Skill::History => Ability::Intelligence,
            Skill::Insight => Ability::Wisdom,
            Skill::Intimidation => Ability::Charisma,
            Skill::Investigation => Ability::Intelligence,
            Skill::Medicine => Ability::Wisdom,
            Skill::Nature => Ability::Intelligence,
            Skill::Perception => Ability::Wisdom,
            Skill::Performance => Ability::Charisma,
            Skill::Persuasion => Ability::Charisma,
            Skill::Religion => Ability::Intelligence,
            Skill::SlightOfHand => Ability::Dexterity,
            Skill::Stealth => Ability::Dexterity,
            Skill::Survival => Ability::Wisdom,
        }
    }
}

impl EnumKey for Skill {
    open spec fn count() -> nat {
        18
    }

    open spec fn ordinal(self) -> nat {
        match self {
            Skill::Acrobatics => 0,
            Skill::AnimalHandling => 1,
            Skill::Arcana => 2,
            Skill::Athletics => 3,
            Skill::Deception => 4,
            Skill::History => 5,
            Skill::Insight => 6,
            Skill::Intimidation => 7,
            Skill::Investigation => 8,
            Skill::Medicine => 9,
            Skill::Nature => 10,
            Skill::Perception => 11,
            Skill::Performance => 12,
            Skill::Persuasion => 13,
            Skill::Religion => 14,
            Skill::SlightOfHand => 15,
            Skill::Stealth => 16,
            Skill::Survival => 17,
        }
    }

    open spec fn nth(i: nat) -> Self {
        if i == 0 {
            Skill::Acrobatics
        } else if i == 1 {
            Skill::AnimalHandling
        } else if i == 2 {
            Skill::Arcana
        } else if i == 3 {
            Skill::Athletics
        } else if i == 4 {
            Skill::Deception
        } else if i == 5 {
            Skill::History
        } else if i == 6 {
            Skill::Insight
        } else if i == 7 {
            Skill::Intimidation
        } else if i == 8 {
            Skill::Investigation
        } else if i == 9 {
            Skill::Medicine
        } else if i == 10 {
            Skill::Nature
        } else if i == 11 {
            Skill::Perception
        } else if i == 12 {
            Skill::Performance
        } else if i == 13 {
            Skill::Persuasion
        } else if i == 14 {
            Skill::Religion
        } else if i == 15 {
            Skill::SlightOfHand
        } else if i == 16 {
            Skill::Stealth
        } else {
            Skill::Survival
        }
    }

    proof fn lemma_ordinal(self) {
    }

    proof fn lemma_nth(i: nat) {
    }

    fn variant_count() -> usize {
        18
    }

    fn to_index(&self) -> usize {
        match self {
            Skill::Acrobatics => 0,
            Skill::AnimalHandling => 1,
            Skill::Arcana => 2,
            Skill::Athletics => 3,
            Skill::Deception => 4,
            Skill::History => 5,
            Skill::Insight => 6,
            Skill::Intimidation => 7,
            Skill::Investigation => 8,
            Skill::Medicine => 9,
            Skill::Nature => 10,
            Skill::Perception => 11,
            Skill::Performance => 12,
            Skill::Persuasion => 13,
            Skill::Religion => 14,
            Skill::SlightOfHand => 15,
            Skill::Stealth => 16,
            Skill::Survival => 17,
        }
    }

    fn from_index(i: usize) -> Self {
        if i == 0 {
            Skill::Acrobatics
        } else if i == 1 {
            Skill::AnimalHandling
        } else if i == 2 {
            Skill::Arcana
        } else if i == 3 {
            Skill::Athletics
        } else if i == 4 {
            Skill::Deception
        } else if i == 5 {
            Skill::History
        } else if i == 6 {
            Skill::Insight
        } else if i == 7 {
            Skill::Intimidation
        } else if i == 8 {
            Skill::Investigation
        } else if i == 9 {
            Skill::Medicine
        } else if i == 10 {
            Skill::Nature
        } else if i == 11 {
            Skill::Perception
        } else if i == 12 {
            Skill::Performance
        } else if i == 13 {
            Skill::Persuasion
        } else if i == 14 {
            Skill::Religion
        } else if i == 15 {
            Skill::SlightOfHand
        } else if i == 16 {
            Skill::Stealth
        } else {
            Skill::Survival
        }
    }
}

impl From<Skill> for usize {
    /// The position of the skill among the eighteen.
    fn from(val: Skill) -> (index: usize) {
        val.to_index()
    }
}

impl vstd::std_specs::convert::FromSpecImpl<Skill> for usize {
    open spec fn obeys_from_spec() -> bool {
        true
    }

    open spec fn from_spec(val: Skill) -> usize {
        val.ordinal() as usize
    }
}

/// How far an entity is trained in a skill.
#[derive(Debug, Clone, Copy, Eq, PartialEq, Structural)]
pub enum SkillAttributes {
    Normal,
    HalfProficient,
    Proficient,
    Expertise,
}

impl SkillAttributes {
    /// The share of a proficiency bonus that the degree of training grants:
    /// none of it, half of it rounded down, all of it, or twice as much.
    pub open spec fn offset(self, proficiency_bonus: int) -> int {
        match self {
            SkillAttributes::Normal => 0,
            SkillAttributes::HalfProficient => proficiency_bonus / 2,
            SkillAttributes::Proficient => proficiency_bonus,
            SkillAttributes::Expertise => 2 * proficiency_bonus,
        }
    }

    /// The share of `proficiency_bonus` that the degree of training grants.
    pub fn get_proficiency_offset(&self, proficiency_bonus: u8) -> (offset: u16)
        ensures
            offset == self.offset(proficiency_bonus as int),
    {
        let bonus: u16 = proficiency_bonus as u16;
        match self {
            SkillAttributes::Normal => 0,
            SkillAttributes::HalfProficient => bonus / 2,
            SkillAttributes::Proficient => bonus,
            SkillAttributes::Expertise => 2 * bonus,
        }
    }
}

impl EnumKey for SkillAttributes {
    open spec fn count() -> nat {
        4
    }

    open spec fn ordinal(self) -> nat {
        match self {
            SkillAttributes::Normal => 0,
            SkillAttributes::HalfProficient => 1,
            SkillAttributes::Proficient => 2,
            SkillAttributes::Expertise => 3,
        }
    }

    open spec fn nth(i: nat) -> Self {
        if i == 0 {
            SkillAttributes::Normal
        } else if i == 1 {
            SkillAttributes::HalfProficient
        } else if i == 2 {
            SkillAttributes::Proficient
        } else {
            SkillAttributes::Expertise
        }
    }

    proof fn lemma_ordinal(self) {
    }

    proof fn lemma_nth(i: nat) {
    }

    fn variant_count() -> usize {
        4
    }

    fn to_index(&self) -> usize {
        match self {
            SkillAttributes::Normal => 0,
            SkillAttributes::HalfProficient => 1,
            SkillAttributes::Proficient => 2,
            SkillAttributes::Expertise => 3,
        }
    }

    fn from_index(i: usize) -> Self {
        if i == 0 {
            SkillAttributes::Normal
        } else if i == 1 {
            SkillAttributes::HalfProficient
        } else if i == 2 {
            SkillAttributes::Proficient
        } else {
            SkillAttributes::Expertise
        }
    }
}

} // verus!
