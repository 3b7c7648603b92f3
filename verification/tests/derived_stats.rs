use dnd_character::ability::{Ability, AbilityScores};
use dnd_character::background::Background;
use dnd_character::character::Character;
use dnd_character::class::Class;
use dnd_character::race::Race;
use dnd_character::skill::{Skill, SkillSet};

fn rogue() -> Character {
    let mut skills = SkillSet::new();
    skills.insert(Skill::Deception);
    skills.insert(Skill::Stealth);
    skills.insert(Skill::Perception);
    skills.insert(Skill::Acrobatics);
    let mut expertise = SkillSet::new();
    expertise.insert(Skill::Stealth);
    expertise.insert(Skill::Deception);
    Character {
        name: String::from("Vex"),
        race: Race::Elf,
        class: Class::Rogue,
        background: Background::Criminal,
        level: 1,
        abilities: AbilityScores {
            strength: 8,
            dexterity: 18,
            constitution: 12,
            intelligence: 13,
            wisdom: 9,
            charisma: 14,
        },
        hit_points: 9,
        skills,
        expertise,
        saving_throws: (Ability::Dexterity, Ability::Intelligence),
    }
}

#[test]
fn skill_modifier_without_proficiency_is_the_ability_modifier() {
    let rogue = rogue();
    assert_eq!(rogue.skill_modifier(Skill::Athletics), -1);
    assert_eq!(rogue.skill_modifier(Skill::Arcana), 1);
    assert_eq!(rogue.skill_modifier(Skill::Insight), -1);
    assert_eq!(rogue.skill_modifier(Skill::SleightOfHand), 4);
}

#[test]
fn skill_modifier_with_proficiency_adds_two() {
    let rogue = rogue();
    assert_eq!(rogue.skill_modifier(Skill::Perception), 1);
    assert_eq!(rogue.skill_modifier(Skill::Acrobatics), 6);
}

#[test]
fn skill_modifier_with_expertise_adds_four() {
    let rogue = rogue();
    assert_eq!(rogue.skill_modifier(Skill::Stealth), 8);
    assert_eq!(rogue.skill_modifier(Skill::Deception), 6);
}

#[test]
fn skill_modifier_at_the_largest_score() {
    let mut strong = rogue();
    strong.abilities.dexterity = 255;
    assert_eq!(strong.skill_modifier(Skill::Stealth), 126);
}

#[test]
fn saving_throw_bonus_is_the_modifier_plus_two() {
    let rogue = rogue();
    assert_eq!(rogue.saving_throw_bonus(Ability::Dexterity), 6);
    assert_eq!(rogue.saving_throw_bonus(Ability::Intelligence), 3);
    assert_eq!(rogue.saving_throw_bonus(Ability::Wisdom), 1);
    assert_eq!(rogue.saving_throw_bonus(Ability::Strength), 1);
}

#[test]
fn has_saving_throw_tells_the_two_of_the_class() {
    let rogue = rogue();
    assert!(rogue.has_saving_throw(Ability::Dexterity));
    assert!(rogue.has_saving_throw(Ability::Intelligence));
    assert!(!rogue.has_saving_throw(Ability::Strength));
    assert!(!rogue.has_saving_throw(Ability::Charisma));
}
