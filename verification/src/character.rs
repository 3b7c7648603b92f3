//! The finished character and the statistics derived from it.

use crate::ability::{Ability, AbilityScores};
use crate::background::Background;
use crate::class::Class;
use crate::race::Race;
use crate::skill::{with_skills, Skill, SkillSet};
use vstd::prelude::*;

verus! {

/// What proficiency adds to a skill or a saving throw at the first level.
pub const PROFICIENCY_BONUS: i8 = 2;

/// What expertise adds to a skill on top of proficiency.
pub const EXPERTISE_BONUS: i8 = 2;

/// The skills that background and race grant together, those of the
/// background first.
pub open spec fn granted_skills(background: Background, race: Race) -> Seq<Skill> {
    with_skills(
        with_skills(Seq::<Skill>::empty(), background.spec_skills()),
        race.spec_racial_skills(),
    )
}

/// The hit points a character of `class` starts with: the hit die plus the
/// Constitution modifier, and never less than one.
pub open spec fn spec_starting_hit_points(class: Class, abilities: AbilityScores) -> int {
    let points = class.spec_hit_die() + abilities.spec_modifier(Ability::Constitution);
    if points < 1 {
        1
    } else {
        points
    }
}

/// Computes the hit points a character of `class` starts with.
pub fn starting_hit_points(class: Class, abilities: &AbilityScores) -> (points: u8)
    ensures
        points == spec_starting_hit_points(class, *abilities),
        points >= 1,
{
    let die: i16 = class.hit_die() as i16;
    let modifier: i16 = abilities.modifier(Ability::Constitution) as i16;
    let points: i16 = die + modifier;
    if points < 1 {
        1
    } else {
        points as u8
    }
}

/// A character of the first level.
#[derive(Debug)]
pub struct Character {
    pub name: String,
    pub race: Race,
    pub class: Class,
    pub background: Background,
    pub level: u8,
    pub abilities: AbilityScores,
    pub hit_points: u8,
    pub skills: SkillSet,
    pub expertise: SkillSet,
    pub saving_throws: (Ability, Ability),
}

impl Character {
    /// The abilities whose saving throws the character is proficient in.
    pub open spec fn saving_throw_set(&self) -> Set<Ability> {
        set![self.saving_throws.0, self.saving_throws.1]
    }

    /// The character is consistent with the rules: it has a name, the
    /// skills hold what background and race grant and at least as many as
    /// the class asks for, expertise is held only in proficient skills and
    /// in no more of them than the class allows, the saving throws are those
    /// of the class, and there is at least one hit point.
    pub open spec fn wf(&self) -> bool {
        &&& self.name@.len() > 0
        &&& self.level == 1
        &&& self.hit_points >= 1
        &&& self.skills.wf()
        &&& self.expertise.wf()
        &&& granted_skills(self.background, self.race).to_set().subset_of(self.skills@)
        &&& self.skills@.len() >= self.class.spec_skill_proficiency_count()
        &&& self.expertise@.subset_of(self.skills@)
        &&& self.expertise@.len() <= self.class.spec_expertise_allowance()
        &&& self.saving_throws == self.class.spec_saving_throws()
        &&& self.saving_throw_set().len() == 2
    }

    /// The bonus of the character to a check of `skill`: the modifier of the
    /// governing ability, plus two where the character is proficient in the
    /// skill, plus another two where the character has expertise in it.
    pub open spec fn spec_skill_modifier(&self, skill: Skill) -> int {
        self.abilities.spec_modifier(skill.spec_associated_ability()) + (if self.skills@.contains(
            skill,
        ) {
            PROFICIENCY_BONUS as int
        } else {
            0
        }) + (if self.expertise@.contains(skill) {
            EXPERTISE_BONUS as int
        } else {
            0
        })
    }

    /// The bonus of a proficient saving throw of `ability`: the modifier of
    /// the ability plus two.
    pub open spec fn spec_saving_throw_bonus(&self, ability: Ability) -> int {
        self.abilities.spec_modifier(ability) + PROFICIENCY_BONUS as int
    }

    /// Computes the bonus of the character to a check of `skill`.
    pub fn skill_modifier(&self, skill: Skill) -> (bonus: i8)
        ensures
            bonus == self.spec_skill_modifier(skill),
    {
        let base = self.abilities.modifier(skill.associated_ability());
        let proficiency: i8 = if self.skills.contains(skill) {
            PROFICIENCY_BONUS
        } else {
            0
        };
        let expertise: i8 = if self.expertise.contains(skill) {
            EXPERTISE_BONUS
        } else {
            0
        };
        base + proficiency + expertise
    }

    /// Computes the bonus of a proficient saving throw of `ability`.
    pub fn saving_throw_bonus(&self, ability: Ability) -> (bonus: i8)
        ensures
            bonus == self.spec_saving_throw_bonus(ability),
    {
        self.abilities.modifier(ability) + PROFICIENCY_BONUS
    }

    /// Tells whether the character is proficient in the saving throws of
    /// `ability`.
    pub fn has_saving_throw(&self, ability: Ability) -> (proficient: bool)
        ensures
            proficient == self.saving_throw_set().contains(ability),
    {
        self.saving_throws.0 == ability || self.saving_throws.1 == ability
    }
}

} // verus!
