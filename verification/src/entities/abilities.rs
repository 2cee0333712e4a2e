//! Ability scores and the modifiers derived from them.

use vstd::prelude::*;
use vstd::string::StringExecFns;
use crate::entities::skills::SkillModifierIntType;
use crate::util::enum_map::EnumKey;
use crate::util::text::{decimal, push_decimal};

verus! {

pub type AbilityScoreIntType = u8;

pub type SaveIntType = i8;

/// The six abilities.
#[derive(Clone, Copy, PartialEq, Eq, Debug, Structural)]
pub enum Ability {
    Strength,
    Dexterity,
    Constitution,
    Intelligence,
    Wisdom,
    Charisma,
}

impl Ability {
    /// The three-letter abbreviation of the ability.
    pub open spec fn abbreviation_text(self) -> Seq<char> {
        match self {
            Ability::Strength => seq!['S', 'T', 'R'],
            Ability::Dexterity => seq!['D', 'E', 'X'],
            Ability::Constitution => seq!['C', 'O', 'N'],
            Ability::Intelligence => seq!['I', 'N', 'T'],
            Ability::Wisdom => seq!['W', 'I', 'S'],
            Ability::Charisma => seq!['C', 'H', 'A'],
        }
    }

    /// The three-letter abbreviation of the ability.
    pub fn abbreviation(&self) -> (text: &'static str)
        ensures
            text@ == self.abbreviation_text(),
    {
        proof {
            reveal_strlit("STR");
            reveal_strlit("DEX");
            reveal_strlit("CON");
            reveal_strlit("INT");
            reveal_strlit("WIS");
            reveal_strlit("CHA");
        }
        let text: &'static str = match self {
            Ability::Strength => "STR",
            Ability::Dexterity => "DEX",
            Ability::Constitution => "CON",
            Ability::Intelligence => "INT",
            Ability::Wisdom => "WIS",
            Ability::Charisma => "CHA",
        };
        assert(text@ =~= self.abbreviation_text());
        text
    }

    /// The abbreviation as an owned string.
    pub fn to_string(&self) -> (text: String)
        ensures
            text@ == self.abbreviation_text(),
    {
        String::from_str(self.abbreviation())
    }
}

impl EnumKey for Ability {
    open spec fn count() -> nat {
        6
    }

    open spec fn ordinal(self) -> nat {
        match self {
            Ability::Strength => 0,
            Ability::Dexterity => 1,
            Ability::Constitution => 2,
            Ability::Intelligence => 3,
            Ability::Wisdom => 4,
            Ability::Charisma => 5,
        }
    }

    open spec fn nth(i: nat) -> Self {
        if i == 0 {
            Ability::Strength
        } else if i == 1 {
            Ability::Dexterity
        } else if i == 2 {
            Ability::Constitution
        } else if i == 3 {
            Ability::Intelligence
        } else if i == 4 {
            Ability::Wisdom
        } else {
            Ability::Charisma
        }
    }

    proof fn lemma_ordinal(self) {
    }

    proof fn lemma_nth(i: nat) {
    }

    fn variant_count() -> usize {
        6
    }

    fn to_index(&self) -> usize {
        match self {
            Ability::Strength => 0,
            Ability::Dexterity => 1,
            Ability::Constitution => 2,
            Ability::Intelligence => 3,
            Ability::Wisdom => 4,
            Ability::Charisma => 5,
        }
    }

    fn from_index(i: usize) -> Self {
        if i == 0 {
            Ability::Strength
        } else if i == 1 {
            Ability::Dexterity
        } else if i == 2 {
            Ability::Constitution
        } else if i == 3 {
            Ability::Intelligence
        } else if i == 4 {
            Ability::Wisdom
        } else {
            Ability::Charisma
        }
    }
}

impl From<Ability> for usize {
    /// The position of the ability among the six.
    fn from(val: Ability) -> (index: usize) {
        val.to_index()
    }
}

impl vstd::std_specs::convert::FromSpecImpl<Ability> for usize {
    open spec fn obeys_from_spec() -> bool {
        true
    }

    open spec fn from_spec(val: Ability) -> usize {
        val.ordinal() as usize
    }
}

/// Whether an entity is proficient in the saving throws of an ability.
#[derive(Clone, Copy, PartialEq, Eq, Debug, Structural)]
pub enum SaveAttributes {
    Normal,
    Proficient,
}

impl SaveAttributes {
    /// How many times the proficiency bonus counts: 0 or 1.
    pub open spec fn multiplier(self) -> int {
        match self {
            SaveAttributes::Normal => 0,
            SaveAttributes::Proficient => 1,
        }
    }
}

/// The modifier of an ability score: half of its distance from 10, rounded
/// down.
pub open spec fn modifier_of(score: AbilityScoreIntType) -> int {
    (score as int - 10) / 2
}

/// One score for each of the six abilities.
#[derive(Clone, Copy, PartialEq, Eq, Debug, Structural)]
pub struct AbilityScores {
    strength: AbilityScoreIntType,
    dexterity: AbilityScoreIntType,
    constitution: AbilityScoreIntType,
    intelligence: AbilityScoreIntType,
    wisdom: AbilityScoreIntType,
    charisma: AbilityScoreIntType,
}

impl AbilityScores {
    /// The score of `ability`.
    pub closed spec fn score(self, ability: Ability) -> AbilityScoreIntType {
        match ability {
            Ability::Strength => self.strength,
            Ability::Dexterity => self.dexterity,
            Ability::Constitution => self.constitution,
            Ability::Intelligence => self.intelligence,
            Ability::Wisdom => self.wisdom,
            Ability::Charisma => self.charisma,
        }
    }

    /// The scores that are the given six, in the order strength, dexterity,
    /// constitution, intelligence, wisdom, charisma.
    pub closed spec fn of(
        strength: AbilityScoreIntType,
        dexterity: AbilityScoreIntType,
        constitution: AbilityScoreIntType,
        intelligence: AbilityScoreIntType,
        wisdom: AbilityScoreIntType,
        charisma: AbilityScoreIntType,
    ) -> Self {
        Self { strength, dexterity, constitution, intelligence, wisdom, charisma }
    }

    /// The scores that are all `value`.
    pub open spec fn all(value: AbilityScoreIntType) -> Self {
        Self::of(value, value, value, value, value, value)
    }

    /// Scores are nothing but their six numbers: the scores made of six
    /// numbers read as these, and any scores are those made of their six
    /// readings.
    pub proof fn lemma_of(
        strength: AbilityScoreIntType,
        dexterity: AbilityScoreIntType,
        constitution: AbilityScoreIntType,
        intelligence: AbilityScoreIntType,
        wisdom: AbilityScoreIntType,
        charisma: AbilityScoreIntType,
        any: Self,
    )
        ensures
            ({
                let scores = Self::of(
                    strength,
                    dexterity,
                    constitution,
                    intelligence,
                    wisdom,
                    charisma,
                );
                &&& scores.score(Ability::Strength) == strength
                &&& scores.score(Ability::Dexterity) == dexterity
                &&& scores.score(Ability::Constitution) == constitution
                &&& scores.score(Ability::Intelligence) == intelligence
                &&& scores.score(Ability::Wisdom) == wisdom
                &&& scores.score(Ability::Charisma) == charisma
            }),
            any == Self::of(
                any.score(Ability::Strength),
                any.score(Ability::Dexterity),
                any.score(Ability::Constitution),
                any.score(Ability::Intelligence),
                any.score(Ability::Wisdom),
                any.score(Ability::Charisma),
            ),
    {
    }

    /// Scores that are all `value` have that score for every ability.
    pub proof fn lemma_all(value: AbilityScoreIntType)
        ensures
            forall|ability: Ability| #[trigger] Self::all(value).score(ability) == value,
    {
    }

    /// The modifier of `ability`.
    pub open spec fn modifier(self, ability: Ability) -> int {
        modifier_of(self.score(ability))
    }

    /// The text that shows the scores: each score followed by the
    /// abbreviation of its ability, in braces.
    pub open spec fn display_text(self) -> Seq<char> {
        seq!['{', ' '] + decimal(self.score(Ability::Strength) as nat)
            + Ability::Strength.abbreviation_text() + seq![',', ' '] + decimal(
            self.score(Ability::Dexterity) as nat,
        ) + Ability::Dexterity.abbreviation_text() + seq![',', ' '] + decimal(
            self.score(Ability::Constitution) as nat,
        ) + Ability::Constitution.abbreviation_text() + seq![',', ' '] + decimal(
            self.score(Ability::Intelligence) as nat,
        ) + Ability::Intelligence.abbreviation_text() + seq![',', ' '] + decimal(
            self.score(Ability::Wisdom) as nat,
        ) + Ability::Wisdom.abbreviation_text() + seq![',', ' '] + decimal(
            self.score(Ability::Charisma) as nat,
        ) + Ability::Charisma.abbreviation_text() + seq![' ', '}']
    }

    pub fn new(
        strength: AbilityScoreIntType,
        dexterity: AbilityScoreIntType,
        constitution: AbilityScoreIntType,
        intelligence: AbilityScoreIntType,
        wisdom: AbilityScoreIntType,
        charisma: AbilityScoreIntType,
    ) -> (scores: Self)
        ensures
            scores == Self::of(strength, dexterity, constitution, intelligence, wisdom, charisma),
            scores.score(Ability::Strength) == strength,
            scores.score(Ability::Dexterity) == dexterity,
            scores.score(Ability::Constitution) == constitution,
            scores.score(Ability::Intelligence) == intelligence,
            scores.score(Ability::Wisdom) == wisdom,
            scores.score(Ability::Charisma) == charisma,
    {
        Self { strength, dexterity, constitution, intelligence, wisdom, charisma }
    }

    /// Every score at 10.
    pub fn from_defaults() -> (scores: Self)
        ensures
            scores == Self::all(10),
            forall|ability: Ability| #[trigger] scores.score(ability) == 10,
    {
        Self::new(10, 10, 10, 10, 10, 10)
    }

    pub fn get_ability_score(&self, ability: Ability) -> (score: AbilityScoreIntType)
        ensures
            score == self.score(ability),
    {
        match ability {
            Ability::Strength => self.strength,
            Ability::Dexterity => self.dexterity,
            Ability::Constitution => self.constitution,
            Ability::Intelligence => self.intelligence,
            Ability::Wisdom => self.wisdom,
            Ability::Charisma => self.charisma,
        }
    }

    pub fn get_ability_modifier(&self, ability: Ability) -> (modifier: SkillModifierIntType)
        ensures
            modifier == self.modifier(ability),
            -5 <= modifier <= 122,
    {
        let score: AbilityScoreIntType = self.get_ability_score(ability);
        if score >= 10 {
            let half: u8 = (score - 10) / 2;
            half as i8
        } else {
            let half: u8 = (10 - score + 1) / 2;
            -(half as i8)
        }
    }

    /// The scores as text, such as `{ 10STR, 10DEX, 10CON, 10INT, 10WIS, 10CHA }`.
    pub fn to_string(&self) -> (text: String)
        ensures
            text@ == self.display_text(),
    {
        proof {
            reveal_strlit("{ ");
            reveal_strlit(", ");
            reveal_strlit(" }");
        }
        let mut text: String = String::from_str("{ ");
        push_decimal(&mut text, self.strength as u128);
        text.append(Ability::Strength.abbreviation());
        text.append(", ");
        push_decimal(&mut text, self.dexterity as u128);
        text.append(Ability::Dexterity.abbreviation());
        text.append(", ");
        push_decimal(&mut text, self.constitution as u128);
        text.append(Ability::Constitution.abbreviation());
        text.append(", ");
        push_decimal(&mut text, self.intelligence as u128);
        text.append(Ability::Intelligence.abbreviation());
        text.append(", ");
        push_decimal(&mut text, self.wisdom as u128);
        text.append(Ability::Wisdom.abbreviation());
        text.append(", ");
        push_decimal(&mut text, self.charisma as u128);
        text.append(Ability::Charisma.abbreviation());
        text.append(" }");
        assert(text@ =~= self.display_text());
        text
    }
}

} // verus!
