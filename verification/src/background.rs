//! The thirteen backgrounds and the two skills each grants.

use crate::menu::{menu_entry, pick};
use crate::skill::Skill;
use vstd::prelude::*;

verus! {

/// One of the thirteen backgrounds.
#[derive(Debug, Hash, PartialEq, Eq, Clone, Copy, Structural)]
pub enum Background {
    Acolyte,
    Charlatan,
    Criminal,
    Entertainer,
    FolkHero,
    GuildArtisan,
    Hermit,
    Noble,
    Outlander,
    Sage,
    Sailor,
    Soldier,
    Urchin,
}

impl Background {
    /// The two skills that the background grants.
    pub open spec fn spec_skills(self) -> Seq<Skill> {
        match self {
            Background::Acolyte => seq![Skill::Insight, Skill::Religion],
            Background::Charlatan => seq![Skill::Deception, Skill::SleightOfHand],
            Background::Criminal => seq![Skill::Deception, Skill::Stealth],
            Background::Entertainer => seq![Skill::Acrobatics, Skill::Performance],
            Background::FolkHero => seq![Skill::AnimalHandling, Skill::Survival],
            Background::GuildArtisan => seq![Skill::Insight, Skill::Persuasion],
            Background::Hermit => seq![Skill::Medicine, Skill::Religion],
            Background::Noble => seq![Skill::History, Skill::Persuasion],
            Background::Outlander => seq![Skill::Athletics, Skill::Survival],
            Background::Sage => seq![Skill::Arcana, Skill::History],
            Background::Sailor => seq![Skill::Athletics, Skill::Perception],
            Background::Soldier => seq![Skill::Athletics, Skill::Intimidation],
            Background::Urchin => seq![Skill::SleightOfHand, Skill::Stealth],
        }
    }

    /// Returns the two skills that the background grants. They always differ.
    pub fn skills(&self) -> (pair: [Skill; 2])
        ensures
            pair@ == self.spec_skills(),
            pair@[0] != pair@[1],
    {
        match self {
            Background::Acolyte => [Skill::Insight, Skill::Religion],
            Background::Charlatan => [Skill::Deception, Skill::SleightOfHand],
            Background::Criminal => [Skill::Deception, Skill::Stealth],
            Background::Entertainer => [Skill::Acrobatics, Skill::Performance],
            Background::FolkHero => [Skill::AnimalHandling, Skill::Survival],
            Background::GuildArtisan => [Skill::Insight, Skill::Persuasion],
            Background::Hermit => [Skill::Medicine, Skill::Religion],
            Background::Noble => [Skill::History, Skill::Persuasion],
            Background::Outlander => [Skill::Athletics, Skill::Survival],
            Background::Sage => [Skill::Arcana, Skill::History],
            Background::Sailor => [Skill::Athletics, Skill::Perception],
            Background::Soldier => [Skill::Athletics, Skill::Intimidation],
            Background::Urchin => [Skill::SleightOfHand, Skill::Stealth],
        }
    }
}

/// Every background grants exactly two skills, and the two differ.
pub proof fn lemma_background_skills(background: Background)
    ensures
        background.spec_skills().len() == 2,
        background.spec_skills()[0] != background.spec_skills()[1],
        background.spec_skills().no_duplicates(),
{
}

/// The menu of backgrounds.
pub open spec fn spec_background_menu() -> Seq<Background> {
    seq![
        Background::Acolyte,
        Background::Charlatan,
        Background::Criminal,
        Background::Entertainer,
        Background::FolkHero,
        Background::GuildArtisan,
        Background::Hermit,
        Background::Noble,
        Background::Outlander,
        Background::Sage,
        Background::Sailor,
        Background::Soldier,
        Background::Urchin,
    ]
}

/// The background that a choice from the menu of backgrounds stands for.
pub open spec fn spec_select_background(choice: int) -> Option<Background> {
    menu_entry(spec_background_menu(), choice)
}

/// The menu of backgrounds lists every background, and each once: every
/// background can be chosen, and by one number only.
pub proof fn lemma_background_menu(background: Background)
    ensures
        spec_background_menu().len() == 13,
        spec_background_menu().no_duplicates(),
        spec_background_menu().contains(background),
        exists|choice: int|
            1 <= choice <= 13 && spec_select_background(choice) == Some(background),
{
    let menu = spec_background_menu();
    let at: int = match background {
        Background::Acolyte => 0,
        Background::Charlatan => 1,
        Background::Criminal => 2,
        Background::Entertainer => 3,
        Background::FolkHero => 4,
        Background::GuildArtisan => 5,
        Background::Hermit => 6,
        Background::Noble => 7,
        Background::Outlander => 8,
        Background::Sage => 9,
        Background::Sailor => 10,
        Background::Soldier => 11,
        Background::Urchin => 12,
    };
    assert(menu[at] == background);
    assert(spec_select_background(at + 1) == Some(background));
}

/// Returns the menu of backgrounds, in the order in which it is shown.
pub fn background_menu() -> (menu: Vec<Background>)
    ensures
        menu@ == spec_background_menu(),
{
    vec![
        Background::Acolyte,
        Background::Charlatan,
        Background::Criminal,
        Background::Entertainer,
        Background::FolkHero,
        Background::GuildArtisan,
        Background::Hermit,
        Background::Noble,
        Background::Outlander,
        Background::Sage,
        Background::Sailor,
        Background::Soldier,
        Background::Urchin,
    ]
}

/// Returns the background that a choice from the menu of backgrounds stands
/// for, or `None` where the choice is not on the menu, so that the player is
/// asked again.
pub fn select_background(choice: usize) -> (background: Option<Background>)
    ensures
        background == spec_select_background(choice as int),
        background.is_some() <==> 1 <= choice <= 13,
{
    pick(&background_menu(), choice)
}

} // verus!
