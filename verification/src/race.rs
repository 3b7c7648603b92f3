//! The nine races and what each grants: bonuses to ability scores, skills,
//! and for one race two bonuses that the player places.

use crate::ability::{Ability, AbilityBonuses};
use crate::menu::{menu_entry, pick};
use crate::skill::Skill;
use vstd::prelude::*;

verus! {

/// One of the nine races.
#[derive(Debug, Hash, PartialEq, Eq, Clone, Copy, Structural)]
pub enum Race {
    Human,
    Elf,
    Dwarf,
    Halfling,
    Dragonborn,
    Gnome,
    HalfElf,
    HalfOrc,
    Tiefling,
}

impl Race {
    /// What the race adds to the score of `ability`.
    pub open spec fn spec_ability_bonus(self, ability: Ability) -> int {
        match (self, ability) {
            (Race::Human, _) => 1,
            (Race::Elf, Ability::Dexterity) => 2,
            (Race::Dwarf, Ability::Constitution) => 2,
            (Race::Halfling, Ability::Dexterity) => 2,
            (Race::Dragonborn, Ability::Strength) => 2,
            (Race::Dragonborn, Ability::Charisma) => 1,
            (Race::Gnome, Ability::Intelligence) => 2,
            (Race::HalfElf, Ability::Charisma) => 2,
            (Race::HalfOrc, Ability::Strength) => 2,
            (Race::HalfOrc, Ability::Constitution) => 1,
            (Race::Tiefling, Ability::Intelligence) => 1,
            (Race::Tiefling, Ability::Charisma) => 2,
            _ => 0,
        }
    }

    /// The sum of what the race adds to the six scores.
    pub open spec fn spec_bonus_total(self) -> int {
        match self {
            Race::Human => 6,
            Race::Dragonborn | Race::HalfOrc | Race::Tiefling => 3,
            Race::Elf | Race::Dwarf | Race::Halfling | Race::Gnome | Race::HalfElf => 2,
        }
    }

    /// The skills that every character of the race is proficient in.
    pub open spec fn spec_racial_skills(self) -> Seq<Skill> {
        match self {
            Race::Elf => seq![Skill::Perception],
            Race::Dwarf => seq![Skill::History],
            Race::Halfling => seq![Skill::Acrobatics],
            Race::HalfOrc => seq![Skill::Intimidation],
            _ => seq![],
        }
    }

    /// How many bonuses of one point the player places freely.
    pub open spec fn spec_free_bonus_count(self) -> nat {
        match self {
            Race::HalfElf => 2,
            _ => 0,
        }
    }

    /// Returns what the race adds to each ability score.
    pub fn ability_bonuses(&self) -> (bonuses: AbilityBonuses)
        ensures
            forall|ability: Ability| #[trigger]
                bonuses.spec_get(ability) == self.spec_ability_bonus(ability),
            bonuses.spec_total() == self.spec_bonus_total(),
    {
        let mut bonuses = AbilityBonuses {
            strength: 0,
            dexterity: 0,
            constitution: 0,
            intelligence: 0,
            wisdom: 0,
            charisma: 0,
        };
        match self {
            Race::Human => {
                bonuses.strength = 1;
                bonuses.dexterity = 1;
                bonuses.constitution = 1;
                bonuses.intelligence = 1;
                bonuses.wisdom = 1;
                bonuses.charisma = 1;
            },
            Race::Elf => {
                bonuses.dexterity = 2;
            },
            Race::Dwarf => {
                bonuses.constitution = 2;
            },
            Race::Halfling => {
                bonuses.dexterity = 2;
            },
            Race::Dragonborn => {
                bonuses.strength = 2;
                bonuses.charisma = 1;
            },
            Race::Gnome => {
                bonuses.intelligence = 2;
            },
            Race::HalfElf => {
                bonuses.charisma = 2;
            },
            Race::HalfOrc => {
                bonuses.strength = 2;
                bonuses.constitution = 1;
            },
            Race::Tiefling => {
                bonuses.intelligence = 1;
                bonuses.charisma = 2;
            },
        }
        bonuses
    }

    /// Returns the skills that every character of the race is proficient in.
    pub fn racial_skills(&self) -> (skills: Vec<Skill>)
        ensures
            skills@ == self.spec_racial_skills(),
    {
        match self {
            Race::Elf => vec![Skill::Perception],
            Race::Dwarf => vec![Skill::History],
            Race::Halfling => vec![Skill::Acrobatics],
            Race::HalfOrc => vec![Skill::Intimidation],
            _ => vec![],
        }
    }

    /// Returns how many bonuses of one point the player places freely: two
    /// for a half-elf, none otherwise.
    pub fn free_bonus_count(&self) -> (count: u8)
        ensures
            count == self.spec_free_bonus_count(),
    {
        match self {
            Race::HalfElf => 2,
            _ => 0,
        }
    }
}

/// The bonuses of a race to the six abilities add up to the total of the
/// race, and no bonus is larger than two.
pub proof fn lemma_ability_bonus_total(race: Race)
    ensures
        race.spec_ability_bonus(Ability::Strength) + race.spec_ability_bonus(Ability::Dexterity)
            + race.spec_ability_bonus(Ability::Constitution) + race.spec_ability_bonus(
            Ability::Intelligence,
        ) + race.spec_ability_bonus(Ability::Wisdom) + race.spec_ability_bonus(Ability::Charisma)
            == race.spec_bonus_total(),
        forall|ability: Ability| 0 <= #[trigger] race.spec_ability_bonus(ability) <= 2,
{
}

/// The menu of races.
pub open spec fn spec_race_menu() -> Seq<Race> {
    seq![
        Race::Human,
        Race::Elf,
        Race::Dwarf,
        Race::Halfling,
        Race::Dragonborn,
        Race::Gnome,
        Race::HalfElf,
        Race::HalfOrc,
        Race::Tiefling,
    ]
}

/// The race that a choice from the menu of races stands for.
pub open spec fn spec_select_race(choice: int) -> Option<Race> {
    menu_entry(spec_race_menu(), choice)
}

/// The menu of races lists every race, and each once: every race can be
/// chosen, and by one number only.
pub proof fn lemma_race_menu(race: Race)
    ensures
        spec_race_menu().len() == 9,
        spec_race_menu().no_duplicates(),
        spec_race_menu().contains(race),
        exists|choice: int| 1 <= choice <= 9 && spec_select_race(choice) == Some(race),
{
    let menu = spec_race_menu();
    let at: int = match race {
        Race::Human => 0,
        Race::Elf => 1,
        Race::Dwarf => 2,
        Race::Halfling => 3,
        Race::Dragonborn => 4,
        Race::Gnome => 5,
        Race::HalfElf => 6,
        Race::HalfOrc => 7,
        Race::Tiefling => 8,
    };
    assert(menu[at] == race);
    assert(spec_select_race(at + 1) == Some(race));
}

/// Returns the menu of races, in the order in which it is shown.
pub fn race_menu() -> (menu: Vec<Race>)
    ensures
        menu@ == spec_race_menu(),
{
    vec![
        Race::Human,
        Race::Elf,
        Race::Dwarf,
        Race::Halfling,
        Race::Dragonborn,
        Race::Gnome,
        Race::HalfElf,
        Race::HalfOrc,
        Race::Tiefling,
    ]
}

/// Returns the race that a choice from the menu of races stands for, or
/// `None` where the choice is not on the menu, so that the player is asked
/// again.
pub fn select_race(choice: usize) -> (race: Option<Race>)
    ensures
        race == spec_select_race(choice as int),
        race.is_some() <==> 1 <= choice <= 9,
{
    pick(&race_menu(), choice)
}

} // verus!
