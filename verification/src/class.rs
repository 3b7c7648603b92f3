//! The twelve classes and what each grants: hit die, saving throws, the
//! skills it can train, how many of them, and how many may become expertise.

use crate::ability::Ability;
use crate::menu::{menu_entry, pick};
use crate::skill::Skill;
use vstd::prelude::*;

verus! {

/// One of the twelve classes.
#[derive(Debug, Hash, PartialEq, Eq, Clone, Copy, Structural)]
pub enum Class {
    Barbarian,
    Bard,
    Cleric,
    Druid,
    Fighter,
    Monk,
    Paladin,
    Ranger,
    Rogue,
    Sorcerer,
    Warlock,
    Wizard,
}

impl Class {
    /// The size of the class's hit die.
    pub open spec fn spec_hit_die(self) -> int {
        match self {
            Class::Barbarian => 12,
            Class::Fighter | Class::Paladin | Class::Ranger => 10,
            Class::Bard | Class::Cleric | Class::Druid | Class::Monk | Class::Rogue
            | Class::Warlock => 8,
            Class::Sorcerer | Class::Wizard => 6,
        }
    }

    /// The two abilities whose saving throws the class is proficient in.
    pub open spec fn spec_saving_throws(self) -> (Ability, Ability) {
        match self {
            Class::Barbarian => (Ability::Strength, Ability::Constitution),
            Class::Bard => (Ability::Dexterity, Ability::Charisma),
            Class::Cleric => (Ability::Wisdom, Ability::Charisma),
            Class::Druid => (Ability::Intelligence, Ability::Wisdom),
            Class::Fighter => (Ability::Strength, Ability::Constitution),
            Class::Monk => (Ability::Strength, Ability::Dexterity),
            Class::Paladin => (Ability::Wisdom, Ability::Charisma),
            Class::Ranger => (Ability::Strength, Ability::Dexterity),
            Class::Rogue => (Ability::Dexterity, Ability::Intelligence),
            Class::Sorcerer => (Ability::Constitution, Ability::Charisma),
            Class::Warlock => (Ability::Wisdom, Ability::Charisma),
            Class::Wizard => (Ability::Intelligence, Ability::Wisdom),
        }
    }

    /// The saving-throw abilities as a set.
    pub open spec fn saving_throw_set(self) -> Set<Ability> {
        set![self.spec_saving_throws().0, self.spec_saving_throws().1]
    }

    /// The skills the class can train, in the order in which they are offered.
    pub open spec fn spec_class_skills(self) -> Seq<Skill> {
        match self {
            Class::Barbarian => seq![
                Skill::AnimalHandling,
                Skill::Athletics,
                Skill::Intimidation,
                Skill::Nature,
                Skill::Perception,
                Skill::Survival,
            ],
            Class::Bard => seq![
                Skill::Acrobatics,
                Skill::AnimalHandling,
                Skill::Arcana,
                Skill::Athletics,
                Skill::Deception,
                Skill::History,
                Skill::Insight,
                Skill::Intimidation,
                Skill::Investigation,
                Skill::Medicine,
                Skill::Nature,
                Skill::Perception,
                Skill::Performance,
                Skill::Persuasion,
                Skill::Religion,
                Skill::SleightOfHand,
                Skill::Stealth,
                Skill::Survival,
            ],
            Class::Cleric => seq![
                Skill::History,
                Skill::Insight,
                Skill::Medicine,
                Skill::Persuasion,
                Skill::Religion,
            ],
            Class::Druid => seq![
                Skill::Arcana,
                Skill::AnimalHandling,
                Skill::Insight,
                Skill::Medicine,
                Skill::Nature,
                Skill::Perception,
                Skill::Religion,
                Skill::Survival,
            ],
            Class::Fighter => seq![
                Skill::Acrobatics,
                Skill::AnimalHandling,
                Skill::Athletics,
                Skill::History,
                Skill::Insight,
                Skill::Intimidation,
                Skill::Perception,
                Skill::Survival,
            ],
            Class::Monk => seq![
                Skill::Acrobatics,
                Skill::Athletics,
                Skill::History,
                Skill::Insight,
                Skill::Religion,
                Skill::Stealth,
            ],
            Class::Paladin => seq![
                Skill::Athletics,
                Skill::Insight,
                Skill::Intimidation,
                Skill::Medicine,
                Skill::Persuasion,
                Skill::Religion,
            ],
            Class::Ranger => seq![
                Skill::AnimalHandling,
                Skill::Athletics,
                Skill::Insight,
                Skill::Investigation,
                Skill::Nature,
                Skill::Perception,
                Skill::Stealth,
                Skill::Survival,
            ],
            Class::Rogue => seq![
                Skill::Acrobatics,
                Skill::Athletics,
                Skill::Deception,
                Skill::Insight,
                Skill::Intimidation,
                Skill::Investigation,
                Skill::Perception,
                Skill::Performance,
                Skill::Persuasion,
                Skill::SleightOfHand,
                Skill::Stealth,
            ],
            Class::Sorcerer => seq![
                Skill::Arcana,
                Skill::Deception,
                Skill::Insight,
                Skill::Intimidation,
                Skill::Persuasion,
                Skill::Religion,
            ],
            Class::Warlock => seq![
                Skill::Arcana,
                Skill::Deception,
                Skill::History,
                Skill::Intimidation,
                Skill::Investigation,
                Skill::Nature,
                Skill::Religion,
            ],
            Class::Wizard => seq![
                Skill::Arcana,
                Skill::History,
                Skill::Insight,
                Skill::Investigation,
                Skill::Medicine,
                Skill::Religion,
            ],
        }
    }

    /// How many skill proficiencies a character of the class must have.
    pub open spec fn spec_skill_proficiency_count(self) -> nat {
        match self {
            Class::Bard | Class::Ranger => 3,
            Class::Rogue => 4,
            _ => 2,
        }
    }

    /// How many proficient skills a character of the class raises to
    /// expertise.
    pub open spec fn spec_expertise_allowance(self) -> nat {
        match self {
            Class::Rogue | Class::Bard => 2,
            _ => 0,
        }
    }

    /// Returns the size of the class's hit die.
    pub fn hit_die(&self) -> (die: u8)
        ensures
            die == self.spec_hit_die(),
    {
        match self {
            Class::Barbarian => 12,
            Class::Fighter | Class::Paladin | Class::Ranger => 10,
            Class::Bard | Class::Cleric | Class::Druid | Class::Monk | Class::Rogue
            | Class::Warlock => 8,
            Class::Sorcerer | Class::Wizard => 6,
        }
    }

    /// Returns the two abilities whose saving throws the class is proficient
    /// in. They always differ.
    pub fn saving_throws(&self) -> (pair: (Ability, Ability))
        ensures
            pair == self.spec_saving_throws(),
            pair.0 != pair.1,
            self.saving_throw_set().len() == 2,
    {
        proof {
            lemma_saving_throws_distinct(*self);
        }
        match self {
            Class::Barbarian => (Ability::Strength, Ability::Constitution),
            Class::Bard => (Ability::Dexterity, Ability::Charisma),
            Class::Cleric => (Ability::Wisdom, Ability::Charisma),
            Class::Druid => (Ability::Intelligence, Ability::Wisdom),
            Class::Fighter => (Ability::Strength, Ability::Constitution),
            Class::Monk => (Ability::Strength, Ability::Dexterity),
            Class::Paladin => (Ability::Wisdom, Ability::Charisma),
            Class::Ranger => (Ability::Strength, Ability::Dexterity),
            Class::Rogue => (Ability::Dexterity, Ability::Intelligence),
            Class::Sorcerer => (Ability::Constitution, Ability::Charisma),
            Class::Warlock => (Ability::Wisdom, Ability::Charisma),
            Class::Wizard => (Ability::Intelligence, Ability::Wisdom),
        }
    }

    /// Returns how many proficient skills a character of the class raises to
    /// expertise: two for a rogue or a bard, none otherwise.
    pub fn expertise_allowance(&self) -> (count: usize)
        ensures
            count == self.spec_expertise_allowance(),
    {
        match self {
            Class::Rogue => 2,
            Class::Bard => 2,
            _ => 0,
        }
    }
}

/// Every class is proficient in the saving throws of exactly two abilities,
/// and the two differ.
pub proof fn lemma_saving_throws_distinct(class: Class)
    ensures
        class.spec_saving_throws().0 != class.spec_saving_throws().1,
        class.saving_throw_set().finite(),
        class.saving_throw_set().len() == 2,
{
    let (first, second) = class.spec_saving_throws();
    let one = Set::<Ability>::empty().insert(first);
    assert(class.saving_throw_set() =~= one.insert(second));
}

/// The list of skills of a class holds no skill twice and at least as many
/// skills as the class asks for, and no class raises more skills to
/// expertise than it asks for.
pub proof fn lemma_class_skills(class: Class)
    ensures
        class.spec_class_skills().no_duplicates(),
        class.spec_skill_proficiency_count() <= class.spec_class_skills().len() <= 18,
        class.spec_expertise_allowance() <= class.spec_skill_proficiency_count(),
{
}

/// Returns the skills the class can train, in the order in which they are
/// offered.
pub fn get_class_skills(class: &Class) -> (skills: Vec<Skill>)
    ensures
        skills@ == class.spec_class_skills(),
{
    match class {
        Class::Barbarian => vec![
            Skill::AnimalHandling,
            Skill::Athletics,
            Skill::Intimidation,
            Skill::Nature,
            Skill::Perception,
            Skill::Survival,
        ],
        Class::Bard => vec![
            Skill::Acrobatics,
            Skill::AnimalHandling,
            Skill::Arcana,
            Skill::Athletics,
            Skill::Deception,
            Skill::History,
            Skill::Insight,
            Skill::Intimidation,
            Skill::Investigation,
            Skill::Medicine,
            Skill::Nature,
            Skill::Perception,
            Skill::Performance,
            Skill::Persuasion,
            Skill::Religion,
            Skill::SleightOfHand,
            Skill::Stealth,
            Skill::Survival,
        ],
        Class::Cleric => vec![
            Skill::History,
            Skill::Insight,
            Skill::Medicine,
            Skill::Persuasion,
            Skill::Religion,
        ],
        Class::Druid => vec![
            Skill::Arcana,
            Skill::AnimalHandling,
            Skill::Insight,
            Skill::Medicine,
            Skill::Nature,
            Skill::Perception,
            Skill::Religion,
            Skill::Survival,
        ],
        Class::Fighter => vec![
            Skill::Acrobatics,
            Skill::AnimalHandling,
            Skill::Athletics,
            Skill::History,
            Skill::Insight,
            Skill::Intimidation,
            Skill::Perception,
            Skill::Survival,
        ],
        Class::Monk => vec![
            Skill::Acrobatics,
            Skill::Athletics,
            Skill::History,
            Skill::Insight,
            Skill::Religion,
            Skill::Stealth,
        ],
        Class::Paladin => vec![
            Skill::Athletics,
            Skill::Insight,
            Skill::Intimidation,
            Skill::Medicine,
            Skill::Persuasion,
            Skill::Religion,
        ],
        Class::Ranger => vec![
            Skill::AnimalHandling,
            Skill::Athletics,
            Skill::Insight,
            Skill::Investigation,
            Skill::Nature,
            Skill::Perception,
            Skill::Stealth,
            Skill::Survival,
        ],
        Class::Rogue => vec![
            Skill::Acrobatics,
            Skill::Athletics,
            Skill::Deception,
            Skill::Insight,
            Skill::Intimidation,
            Skill::Investigation,
            Skill::Perception,
            Skill::Performance,
            Skill::Persuasion,
            Skill::SleightOfHand,
            Skill::Stealth,
        ],
        Class::Sorcerer => vec![
            Skill::Arcana,
            Skill::Deception,
            Skill::Insight,
            Skill::Intimidation,
            Skill::Persuasion,
            Skill::Religion,
        ],
        Class::Warlock => vec![
            Skill::Arcana,
            Skill::Deception,
            Skill::History,
            Skill::Intimidation,
            Skill::Investigation,
            Skill::Nature,
            Skill::Religion,
        ],
        Class::Wizard => vec![
            Skill::Arcana,
            Skill::History,
            Skill::Insight,
            Skill::Investigation,
            Skill::Medicine,
            Skill::Religion,
        ],
    }
}

/// The menu of classes.
pub open spec fn spec_class_menu() -> Seq<Class> {
    seq![
        Class::Barbarian,
        Class::Bard,
        Class::Cleric,
        Class::Druid,
        Class::Fighter,
        Class::Monk,
        Class::Paladin,
        Class::Ranger,
        Class::Rogue,
        Class::Sorcerer,
        Class::Warlock,
        Class::Wizard,
    ]
}

/// The class that a choice from the menu of classes stands for.
pub open spec fn spec_select_class(choice: int) -> Option<Class> {
    menu_entry(spec_class_menu(), choice)
}

/// The menu of classes lists every class, and each once: every class can be
/// chosen, and by one number only.
pub proof fn lemma_class_menu(class: Class)
    ensures
        spec_class_menu().len() == 12,
        spec_class_menu().no_duplicates(),
        spec_class_menu().contains(class),
        exists|choice: int| 1 <= choice <= 12 && spec_select_class(choice) == Some(class),
{
    let menu = spec_class_menu();
    let at: int = match class {
        Class::Barbarian => 0,
        Class::Bard => 1,
        Class::Cleric => 2,
        Class::Druid => 3,
        Class::Fighter => 4,
        Class::Monk => 5,
        Class::Paladin => 6,
        Class::Ranger => 7,
        Class::Rogue => 8,
        Class::Sorcerer => 9,
        Class::Warlock => 10,
        Class::Wizard => 11,
    };
    assert(menu[at] == class);
    assert(spec_select_class(at + 1) == Some(class));
}

/// Returns the menu of classes, in the order in which it is shown.
pub fn class_menu() -> (menu: Vec<Class>)
    ensures
        menu@ == spec_class_menu(),
{
    vec![
        Class::Barbarian,
        Class::Bard,
        Class::Cleric,
        Class::Druid,
        Class::Fighter,
        Class::Monk,
        Class::Paladin,
        Class::Ranger,
        Class::Rogue,
        Class::Sorcerer,
        Class::Warlock,
        Class::Wizard,
    ]
}

/// Returns the class that a choice from the menu of classes stands for, or
/// `None` where the choice is not on the menu, so that the player is asked
/// again.
pub fn select_class(choice: usize) -> (class: Option<Class>)
    ensures
        class == spec_select_class(choice as int),
        class.is_some() <==> 1 <= choice <= 12,
{
    pick(&class_menu(), choice)
}

/// Returns how many skill proficiencies a character of the class must have.
pub fn get_skill_proficiency_count(class: &Class) -> (count: usize)
    ensures
        count == class.spec_skill_proficiency_count(),
{
    match class {
        Class::Barbarian => 2,
        Class::Bard => 3,
        Class::Cleric => 2,
        Class::Druid => 2,
        Class::Fighter => 2,
        Class::Monk => 2,
        Class::Paladin => 2,
        Class::Ranger => 3,
        Class::Rogue => 4,
        Class::Sorcerer => 2,
        Class::Warlock => 2,
        Class::Wizard => 2,
    }
}

} // verus!
