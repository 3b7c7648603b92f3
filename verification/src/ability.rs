//! The six abilities, ability scores, the bonuses a race adds to them and
//! the modifier derived from a score.

use crate::menu::{menu_entry, pick};
use crate::race::Race;
use vstd::prelude::*;

verus! {

/// One of the six abilities of a character.
#[derive(Debug, Hash, PartialEq, Eq, Clone, Copy, Structural)]
pub enum Ability {
    Strength,
    Dexterity,
    Constitution,
    Intelligence,
    Wisdom,
    Charisma,
}

/// The modifier that belongs to a score: half of the distance from ten,
/// rounded toward negative infinity.
pub open spec fn modifier_of(score: int) -> int {
    (score - 10) / 2
}

/// Computes the modifier of a score.
pub fn ability_modifier(score: u8) -> (m: i8)
    ensures
        m == modifier_of(score as int),
{
    if score >= 10 {
        let above: u8 = (score - 10) / 2;
        above as i8
    } else {
        let below: u8 = (11 - score) / 2;
        -(below as i8)
    }
}

/// The modifier is the floor of half the distance from ten: twice the
/// modifier never exceeds that distance and misses it by at most one.
pub proof fn lemma_modifier_is_floor(score: int)
    ensures
        2 * modifier_of(score) <= score - 10 < 2 * modifier_of(score) + 2,
{
}

/// What a race adds to each of the six ability scores. An ability the race
/// does not favour has the bonus zero.
#[derive(Debug, PartialEq, Eq, Clone, Copy, Structural)]
pub struct AbilityBonuses {
    pub strength: u8,
    pub dexterity: u8,
    pub constitution: u8,
    pub intelligence: u8,
    pub wisdom: u8,
    pub charisma: u8,
}

impl AbilityBonuses {
    /// The bonus to one ability.
    pub open spec fn spec_get(&self, ability: Ability) -> u8 {
        match ability {
            Ability::Strength => self.strength,
            Ability::Dexterity => self.dexterity,
            Ability::Constitution => self.constitution,
            Ability::Intelligence => self.intelligence,
            Ability::Wisdom => self.wisdom,
            Ability::Charisma => self.charisma,
        }
    }

    /// The sum of the six bonuses.
    pub open spec fn spec_total(&self) -> int {
        self.strength + self.dexterity + self.constitution + self.intelligence + self.wisdom
            + self.charisma
    }

    /// Returns the bonus to one ability.
    pub fn get(&self, ability: Ability) -> (bonus: u8)
        ensures
            bonus == self.spec_get(ability),
    {
        match ability {
            Ability::Strength => self.strength,
            Ability::Dexterity => self.dexterity,
            Ability::Constitution => self.constitution,
            Ability::Intelligence => self.intelligence,
            Ability::Wisdom => self.wisdom,
            Ability::Charisma => self.charisma,
        }
    }

    /// Returns the sum of the six bonuses.
    pub fn total(&self) -> (sum: u16)
        ensures
            sum == self.spec_total(),
    {
        self.strength as u16 + self.dexterity as u16 + self.constitution as u16
            + self.intelligence as u16 + self.wisdom as u16 + self.charisma as u16
    }
}

/// The menu of free bonuses: every ability but Charisma.
pub open spec fn spec_free_bonus_menu() -> Seq<Ability> {
    seq![
        Ability::Strength,
        Ability::Dexterity,
        Ability::Constitution,
        Ability::Intelligence,
        Ability::Wisdom,
    ]
}

/// The ability that a choice from the menu of free bonuses stands for.
pub open spec fn spec_free_bonus_ability(choice: int) -> Option<Ability> {
    menu_entry(spec_free_bonus_menu(), choice)
}

/// Returns the menu of free bonuses, in the order in which it is shown.
pub fn free_bonus_menu() -> (menu: Vec<Ability>)
    ensures
        menu@ == spec_free_bonus_menu(),
{
    vec![
        Ability::Strength,
        Ability::Dexterity,
        Ability::Constitution,
        Ability::Intelligence,
        Ability::Wisdom,
    ]
}

/// Returns the ability that a choice from the menu of free bonuses stands
/// for, or `None` where the choice is not on the menu.
pub fn free_bonus_ability(choice: usize) -> (ability: Option<Ability>)
    ensures
        ability == spec_free_bonus_ability(choice as int),
        ability.is_some() <==> 1 <= choice <= 5,
        ability != Some(Ability::Charisma),
{
    pick(&free_bonus_menu(), choice)
}

/// The six ability scores of a character.
#[derive(Debug, PartialEq, Eq, Clone, Copy, Structural)]
pub struct AbilityScores {
    pub strength: u8,
    pub dexterity: u8,
    pub constitution: u8,
    pub intelligence: u8,
    pub wisdom: u8,
    pub charisma: u8,
}

impl AbilityScores {
    /// The score of one ability.
    pub open spec fn spec_score(&self, ability: Ability) -> u8 {
        match ability {
            Ability::Strength => self.strength,
            Ability::Dexterity => self.dexterity,
            Ability::Constitution => self.constitution,
            Ability::Intelligence => self.intelligence,
            Ability::Wisdom => self.wisdom,
            Ability::Charisma => self.charisma,
        }
    }

    /// The modifier of one ability.
    pub open spec fn spec_modifier(&self, ability: Ability) -> int {
        modifier_of(self.spec_score(ability) as int)
    }

    /// Every score lies between 3 and 18, as dice give it.
    pub open spec fn in_rolled_range(&self) -> bool {
        forall|ability: Ability| 3 <= #[trigger] self.spec_score(ability) <= 18
    }

    /// The sum of the six scores.
    pub open spec fn spec_total(&self) -> int {
        self.strength + self.dexterity + self.constitution + self.intelligence + self.wisdom
            + self.charisma
    }

    /// The bonuses of `race` can be added without leaving the range of a
    /// score.
    pub open spec fn can_be_raised_by(&self, race: Race) -> bool {
        forall|ability: Ability| #[trigger]
            self.spec_score(ability) + race.spec_ability_bonus(ability) <= u8::MAX
    }

    /// These scores with the bonuses of `race` added.
    pub open spec fn raised_by(self, race: Race) -> AbilityScores {
        AbilityScores {
            strength: (self.strength + race.spec_ability_bonus(Ability::Strength)) as u8,
            dexterity: (self.dexterity + race.spec_ability_bonus(Ability::Dexterity)) as u8,
            constitution: (self.constitution + race.spec_ability_bonus(Ability::Constitution))
                as u8,
            intelligence: (self.intelligence + race.spec_ability_bonus(Ability::Intelligence))
                as u8,
            wisdom: (self.wisdom + race.spec_ability_bonus(Ability::Wisdom)) as u8,
            charisma: (self.charisma + race.spec_ability_bonus(Ability::Charisma)) as u8,
        }
    }

    /// These scores with one point added to `ability`.
    pub open spec fn one_above(self, ability: Ability) -> AbilityScores {
        match ability {
            Ability::Strength => AbilityScores { strength: (self.strength + 1) as u8, ..self },
            Ability::Dexterity => AbilityScores { dexterity: (self.dexterity + 1) as u8, ..self },
            Ability::Constitution => AbilityScores {
                constitution: (self.constitution + 1) as u8,
                ..self
            },
            Ability::Intelligence => AbilityScores {
                intelligence: (self.intelligence + 1) as u8,
                ..self
            },
            Ability::Wisdom => AbilityScores { wisdom: (self.wisdom + 1) as u8, ..self },
            Ability::Charisma => AbilityScores { charisma: (self.charisma + 1) as u8, ..self },
        }
    }

    /// Where the bonuses of a race fit, each score rises by exactly the
    /// bonus of the race to its ability.
    pub proof fn lemma_raised_by(self, race: Race)
        requires
            self.can_be_raised_by(race),
        ensures
            forall|ability: Ability| #[trigger]
                self.raised_by(race).spec_score(ability) == self.spec_score(ability)
                    + race.spec_ability_bonus(ability),
            self.raised_by(race).spec_total() == self.spec_total() + race.spec_bonus_total(),
    {
        assert(self.spec_score(Ability::Strength) + race.spec_ability_bonus(Ability::Strength)
            <= u8::MAX);
        assert(self.spec_score(Ability::Dexterity) + race.spec_ability_bonus(Ability::Dexterity)
            <= u8::MAX);
        assert(self.spec_score(Ability::Constitution) + race.spec_ability_bonus(
            Ability::Constitution,
        ) <= u8::MAX);
        assert(self.spec_score(Ability::Intelligence) + race.spec_ability_bonus(
            Ability::Intelligence,
        ) <= u8::MAX);
        assert(self.spec_score(Ability::Wisdom) + race.spec_ability_bonus(Ability::Wisdom)
            <= u8::MAX);
        assert(self.spec_score(Ability::Charisma) + race.spec_ability_bonus(Ability::Charisma)
            <= u8::MAX);
    }

    /// Where the score of `ability` is below the largest a score can be, it
    /// rises by exactly one and every other score stays.
    pub proof fn lemma_one_above(self, ability: Ability)
        requires
            self.spec_score(ability) < u8::MAX,
        ensures
            self.one_above(ability).spec_score(ability) == self.spec_score(ability) + 1,
            forall|other: Ability|
                other != ability ==> #[trigger] self.one_above(ability).spec_score(other)
                    == self.spec_score(other),
            self.one_above(ability).spec_total() == self.spec_total() + 1,
    {
    }

    /// Returns the score of one ability.
    pub fn score(&self, ability: Ability) -> (score: u8)
        ensures
            score == self.spec_score(ability),
    {
        match ability {
            Ability::Strength => self.strength,
            Ability::Dexterity => self.dexterity,
            Ability::Constitution => self.constitution,
            Ability::Intelligence => self.intelligence,
            Ability::Wisdom => self.wisdom,
            Ability::Charisma => self.charisma,
        }
    }

    /// Returns the modifier of one ability: half of the score's distance from
    /// ten, rounded toward negative infinity.
    pub fn modifier(&self, ability: Ability) -> (m: i8)
        ensures
            m == self.spec_modifier(ability),
            m == modifier_of(self.spec_score(ability) as int),
    {
        ability_modifier(self.score(ability))
    }

    /// Tells whether every score lies between 3 and 18.
    pub fn is_rolled(&self) -> (ok: bool)
        ensures
            ok == self.in_rolled_range(),
    {
        let ok = 3 <= self.strength && self.strength <= 18 && 3 <= self.dexterity
            && self.dexterity <= 18 && 3 <= self.constitution && self.constitution <= 18 && 3
            <= self.intelligence && self.intelligence <= 18 && 3 <= self.wisdom && self.wisdom
            <= 18 && 3 <= self.charisma && self.charisma <= 18;
        proof {
            if !ok {
                assert(!(3 <= self.spec_score(Ability::Strength) <= 18 && 3 <= self.spec_score(
                    Ability::Dexterity,
                ) <= 18 && 3 <= self.spec_score(Ability::Constitution) <= 18 && 3
                    <= self.spec_score(Ability::Intelligence) <= 18 && 3 <= self.spec_score(
                    Ability::Wisdom,
                ) <= 18 && 3 <= self.spec_score(Ability::Charisma) <= 18));
            }
        }
        ok
    }

    /// Adds the bonuses of `race` to the scores: each score rises by the
    /// bonus of the race to its ability.
    pub fn apply_racial_bonuses(&mut self, race: Race)
        requires
            old(self).can_be_raised_by(race),
        ensures
            *final(self) == old(self).raised_by(race),
            forall|ability: Ability| #[trigger]
                final(self).spec_score(ability) == old(self).spec_score(ability)
                    + race.spec_ability_bonus(ability),
    {
        proof {
            self.lemma_raised_by(race);
        }
        let bonuses = race.ability_bonuses();
        assert(bonuses.spec_get(Ability::Strength) == race.spec_ability_bonus(Ability::Strength));
        assert(bonuses.spec_get(Ability::Dexterity) == race.spec_ability_bonus(
            Ability::Dexterity,
        ));
        assert(bonuses.spec_get(Ability::Constitution) == race.spec_ability_bonus(
            Ability::Constitution,
        ));
        assert(bonuses.spec_get(Ability::Intelligence) == race.spec_ability_bonus(
            Ability::Intelligence,
        ));
        assert(bonuses.spec_get(Ability::Wisdom) == race.spec_ability_bonus(Ability::Wisdom));
        assert(bonuses.spec_get(Ability::Charisma) == race.spec_ability_bonus(Ability::Charisma));
        assert(self.spec_score(Ability::Strength) + race.spec_ability_bonus(Ability::Strength)
            <= u8::MAX);
        assert(self.spec_score(Ability::Dexterity) + race.spec_ability_bonus(Ability::Dexterity)
            <= u8::MAX);
        assert(self.spec_score(Ability::Constitution) + race.spec_ability_bonus(
            Ability::Constitution,
        ) <= u8::MAX);
        assert(self.spec_score(Ability::Intelligence) + race.spec_ability_bonus(
            Ability::Intelligence,
        ) <= u8::MAX);
        assert(self.spec_score(Ability::Wisdom) + race.spec_ability_bonus(Ability::Wisdom)
            <= u8::MAX);
        assert(self.spec_score(Ability::Charisma) + race.spec_ability_bonus(Ability::Charisma)
            <= u8::MAX);
        self.strength = self.strength + bonuses.get(Ability::Strength);
        self.dexterity = self.dexterity + bonuses.get(Ability::Dexterity);
        self.constitution = self.constitution + bonuses.get(Ability::Constitution);
        self.intelligence = self.intelligence + bonuses.get(Ability::Intelligence);
        self.wisdom = self.wisdom + bonuses.get(Ability::Wisdom);
        self.charisma = self.charisma + bonuses.get(Ability::Charisma);
    }

    /// Adds one point to the ability that `choice` stands for on the menu of
    /// free bonuses, and tells whether the choice was on the menu. A choice
    /// that is not on the menu changes nothing.
    pub fn apply_free_bonus(&mut self, choice: usize) -> (accepted: bool)
        requires
            spec_free_bonus_ability(choice as int) matches Some(ability) ==> old(
                self,
            ).spec_score(ability) < u8::MAX,
        ensures
            accepted == spec_free_bonus_ability(choice as int).is_some(),
            *final(self) == match spec_free_bonus_ability(choice as int) {
                Some(ability) => old(self).one_above(ability),
                None => *old(self),
            },
    {
        match free_bonus_ability(choice) {
            Some(Ability::Strength) => {
                self.strength = self.strength + 1;
                true
            },
            Some(Ability::Dexterity) => {
                self.dexterity = self.dexterity + 1;
                true
            },
            Some(Ability::Constitution) => {
                self.constitution = self.constitution + 1;
                true
            },
            Some(Ability::Intelligence) => {
                self.intelligence = self.intelligence + 1;
                true
            },
            Some(Ability::Wisdom) => {
                self.wisdom = self.wisdom + 1;
                true
            },
            _ => false,
        }
    }
}

} // verus!
