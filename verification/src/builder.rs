//! The character builder: a state machine that takes the player's answers
//! one at a time and ends in a finished character.
//!
//! Name, race, class, background and the rolled scores are given at the
//! start. What is left to choose depends on them: a race may let the player
//! place bonuses freely, a class may ask for more skills than background and
//! race grant, and a class may raise skills to expertise. Each answer is the
//! number of an entry on the menu of the current stage, counted from one. An
//! answer that is not on the menu changes nothing, so that the player can be
//! asked again.

use crate::ability::{spec_free_bonus_ability, Ability, AbilityScores};
use crate::background::{lemma_background_skills, Background};
use crate::character::{granted_skills, spec_starting_hit_points, starting_hit_points, Character};
use crate::class::{get_class_skills, get_skill_proficiency_count, Class};
use crate::menu::{menu_entry, pick};
use crate::race::{lemma_ability_bonus_total, Race};
use crate::skill::{
    lemma_skill_outside, lemma_with_skill, lemma_with_skills, with_skill, with_skills, Skill,
    SkillSet,
};
use vstd::prelude::*;

verus! {

/// What the builder waits for.
#[derive(Debug, PartialEq, Eq, Clone, Copy, Structural)]
pub enum Stage {
    /// An ability that receives one of the freely placed bonuses. Nothing
    /// keeps the player from choosing the same ability again.
    FreeBonus,
    /// A further skill proficiency from the skills of the class.
    Skills,
    /// A proficient skill to raise to expertise.
    Expertise,
    /// Nothing: the character can be finished.
    Complete,
}

/// The test that keeps the skills which are not among `granted`.
pub open spec fn not_among(granted: Seq<Skill>) -> spec_fn(Skill) -> bool {
    |skill: Skill| !granted.contains(skill)
}

/// The skills of the class that are offered for training: those that
/// background and race have not granted already, in the order of the class.
pub open spec fn skill_options_for(class: Class, granted: Seq<Skill>) -> Seq<Skill> {
    class.spec_class_skills().filter(not_among(granted))
}

/// The state of a builder as a mathematical value.
pub struct BuilderView {
    pub name: Seq<char>,
    pub race: Race,
    pub class: Class,
    pub background: Background,
    /// The scores with the bonuses applied so far.
    pub abilities: AbilityScores,
    /// How many freely placed bonuses are still to be placed.
    pub free_bonuses_left: nat,
    /// The proficient skills so far, in the order in which they came.
    pub skills: Seq<Skill>,
    /// The menu of the skills stage.
    pub skill_options: Seq<Skill>,
    /// The skills raised to expertise so far.
    pub expertise: Seq<Skill>,
}

/// The state in which building starts: the bonuses of the race are added to
/// the rolled scores, and background and race have granted their skills.
pub open spec fn begin_view(
    name: Seq<char>,
    race: Race,
    class: Class,
    background: Background,
    rolled: AbilityScores,
) -> BuilderView {
    BuilderView {
        name,
        race,
        class,
        background,
        abilities: rolled.raised_by(race),
        free_bonuses_left: race.spec_free_bonus_count(),
        skills: granted_skills(background, race),
        skill_options: skill_options_for(class, granted_skills(background, race)),
        expertise: Seq::<Skill>::empty(),
    }
}

impl BuilderView {
    /// What the builder waits for in this state.
    pub open spec fn stage(self) -> Stage {
        if self.free_bonuses_left > 0 {
            Stage::FreeBonus
        } else if self.skills.len() < self.class.spec_skill_proficiency_count() {
            Stage::Skills
        } else if self.expertise.len() < self.class.spec_expertise_allowance() {
            Stage::Expertise
        } else {
            Stage::Complete
        }
    }

    /// The menu of the expertise stage: the proficient skills.
    pub open spec fn expertise_options(self) -> Seq<Skill> {
        self.skills
    }

    /// Whether `choice` is on the menu of the current stage.
    pub open spec fn accepts(self, choice: int) -> bool {
        match self.stage() {
            Stage::FreeBonus => spec_free_bonus_ability(choice).is_some(),
            Stage::Skills => menu_entry(self.skill_options, choice).is_some(),
            Stage::Expertise => menu_entry(self.expertise_options(), choice).is_some(),
            Stage::Complete => false,
        }
    }

    /// How many choices the current stage still needs.
    pub open spec fn remaining(self) -> nat {
        match self.stage() {
            Stage::FreeBonus => self.free_bonuses_left,
            Stage::Skills => (self.class.spec_skill_proficiency_count() - self.skills.len())
                as nat,
            Stage::Expertise => (self.class.spec_expertise_allowance() - self.expertise.len())
                as nat,
            Stage::Complete => 0,
        }
    }

    /// The state after the answer `choice`. A choice that is not on the menu
    /// leaves the state as it is; so does a skill that was chosen before.
    pub open spec fn answer(self, choice: int) -> BuilderView {
        if !self.accepts(choice) {
            self
        } else {
            match self.stage() {
                Stage::FreeBonus => BuilderView {
                    abilities: self.abilities.one_above(spec_free_bonus_ability(choice).unwrap()),
                    free_bonuses_left: (self.free_bonuses_left - 1) as nat,
                    ..self
                },
                Stage::Skills => BuilderView {
                    skills: with_skill(
                        self.skills,
                        menu_entry(self.skill_options, choice).unwrap(),
                    ),
                    ..self
                },
                Stage::Expertise => BuilderView {
                    expertise: with_skill(
                        self.expertise,
                        menu_entry(self.expertise_options(), choice).unwrap(),
                    ),
                    ..self
                },
                Stage::Complete => self,
            }
        }
    }

    /// The state after the answers of a script, taken in order until the
    /// builder is complete or the script ends. Answers that are left when
    /// the builder is complete are not read.
    pub open spec fn run(self, answers: Seq<usize>) -> BuilderView
        decreases answers.len(),
    {
        if answers.len() == 0 || self.stage() == Stage::Complete {
            self
        } else {
            self.answer(answers[0] as int).run(answers.drop_first())
        }
    }

    /// How many choices are to be made before the character is finished.
    pub open spec fn choices_left(self) -> nat {
        let skills = self.class.spec_skill_proficiency_count() - self.skills.len();
        let expertise = self.class.spec_expertise_allowance() - self.expertise.len();
        self.free_bonuses_left + (if skills > 0 {
            skills as nat
        } else {
            0
        }) + (if expertise > 0 {
            expertise as nat
        } else {
            0
        })
    }

    /// The state is one that building can reach.
    pub open spec fn wf(self) -> bool {
        let granted = granted_skills(self.background, self.race);
        &&& self.name.len() > 0
        &&& self.free_bonuses_left <= self.race.spec_free_bonus_count()
        &&& forall|ability: Ability| #[trigger]
            self.abilities.spec_score(ability) + self.free_bonuses_left <= u8::MAX
        &&& self.skills.no_duplicates()
        &&& granted.is_prefix_of(self.skills)
        &&& (self.skills.len() <= self.class.spec_skill_proficiency_count() || self.skills
            == granted)
        &&& forall|i: int|
            granted.len() <= i < self.skills.len() ==> self.skill_options.contains(
                #[trigger] self.skills[i],
            )
        &&& self.skill_options == skill_options_for(self.class, granted)
        &&& self.expertise.no_duplicates()
        &&& self.expertise.len() <= self.class.spec_expertise_allowance()
        &&& forall|i: int|
            0 <= i < self.expertise.len() ==> self.skills.contains(#[trigger] self.expertise[i])
    }
}

impl Character {
    /// The character is the one that the complete state `state` describes.
    pub open spec fn is_built_from(&self, state: BuilderView) -> bool {
        &&& self.name@ == state.name
        &&& self.race == state.race
        &&& self.class == state.class
        &&& self.background == state.background
        &&& self.level == 1
        &&& self.abilities == state.abilities
        &&& self.hit_points == spec_starting_hit_points(state.class, state.abilities)
        &&& self.skills.order() == state.skills
        &&& self.expertise.order() == state.expertise
        &&& self.saving_throws == state.class.spec_saving_throws()
    }
}

/// Building starts in a state that building can reach.
pub proof fn lemma_begin_wf(
    name: Seq<char>,
    race: Race,
    class: Class,
    background: Background,
    rolled: AbilityScores,
)
    requires
        name.len() > 0,
        rolled.in_rolled_range(),
    ensures
        rolled.can_be_raised_by(race),
        begin_view(name, race, class, background, rolled).wf(),
        granted_skills(background, race).no_duplicates(),
        granted_skills(background, race).len() >= 2,
{
    let state = begin_view(name, race, class, background, rolled);
    lemma_ability_bonus_total(race);
    assert forall|ability: Ability| #[trigger]
        rolled.spec_score(ability) + race.spec_ability_bonus(ability) <= 20 by {
        assert(3 <= rolled.spec_score(ability) <= 18);
    }
    rolled.lemma_raised_by(race);
    lemma_granted_skills(background, race);
}

/// What background and race grant holds no skill twice, holds the two skills
/// of the background first, and holds exactly the skills of the two.
pub proof fn lemma_granted_skills(background: Background, race: Race)
    ensures
        granted_skills(background, race).no_duplicates(),
        granted_skills(background, race).len() >= 2,
        with_skills(Seq::<Skill>::empty(), background.spec_skills())
            == background.spec_skills(),
        background.spec_skills().is_prefix_of(granted_skills(background, race)),
        forall|skill: Skill|
            granted_skills(background, race).contains(skill) <==> (
            background.spec_skills().contains(skill) || race.spec_racial_skills().contains(
                skill,
            )),
{
    let empty = Seq::<Skill>::empty();
    let own = background.spec_skills();
    let first = with_skills(empty, own);
    lemma_background_skills(background);
    lemma_with_skills(empty, own);
    lemma_with_skills(first, race.spec_racial_skills());
    // The two skills of a background differ, so both are added.
    assert(own.drop_last().drop_last() =~= empty);
    reveal_with_fuel(crate::skill::with_skills, 3);
    assert(with_skills(empty, own.drop_last().drop_last()) == empty);
    let one = with_skills(empty, own.drop_last());
    assert(one == with_skill(empty, own.drop_last().last()));
    assert(own.drop_last().last() == own[0]);
    assert(one =~= seq![own[0]]);
    assert(first == with_skill(one, own[1]));
    assert(!one.contains(own[1]));
    assert(first =~= own);
}

/// An answer leads from a state that building can reach to another.
pub proof fn lemma_answer_wf(state: BuilderView, choice: int)
    requires
        state.wf(),
    ensures
        state.answer(choice).wf(),
        state.answer(choice).name == state.name,
        state.answer(choice).race == state.race,
        state.answer(choice).class == state.class,
        state.answer(choice).background == state.background,
        state.answer(choice).skill_options == state.skill_options,
        state.skills.is_prefix_of(state.answer(choice).skills),
        state.expertise.is_prefix_of(state.answer(choice).expertise),
{
    let next = state.answer(choice);
    let granted = granted_skills(state.background, state.race);
    if state.accepts(choice) {
        match state.stage() {
            Stage::FreeBonus => {
                let ability = spec_free_bonus_ability(choice).unwrap();
                assert(state.abilities.spec_score(ability) + state.free_bonuses_left <= u8::MAX);
                state.abilities.lemma_one_above(ability);
                assert forall|other: Ability| #[trigger]
                    next.abilities.spec_score(other) + next.free_bonuses_left <= u8::MAX by {
                    assert(state.abilities.spec_score(other) + state.free_bonuses_left
                        <= u8::MAX);
                }
            },
            Stage::Skills => {
                let skill = state.skill_options[choice - 1];
                lemma_with_skill(state.skills, skill);
                assert(state.skill_options.contains(skill));
                assert forall|i: int| 0 <= i < next.expertise.len() implies next.skills.contains(
                    #[trigger] next.expertise[i],
                ) by {
                    assert(state.skills.contains(state.expertise[i]));
                }
            },
            Stage::Expertise => {
                let skill = state.skills[choice - 1];
                lemma_with_skill(state.expertise, skill);
                assert(state.skills.contains(skill));
                assert forall|i: int| 0 <= i < next.expertise.len() implies next.skills.contains(
                    #[trigger] next.expertise[i],
                ) by {
                    if i < state.expertise.len() {
                        assert(state.skills.contains(state.expertise[i]));
                    }
                }
            },
            Stage::Complete => {},
        }
    }
}

/// A script leads from a state that building can reach to another, and
/// changes neither name, race, class and background nor what was chosen
/// before.
pub proof fn lemma_run_wf(state: BuilderView, answers: Seq<usize>)
    requires
        state.wf(),
    ensures
        state.run(answers).wf(),
        state.run(answers).name == state.name,
        state.run(answers).race == state.race,
        state.run(answers).class == state.class,
        state.run(answers).background == state.background,
        state.run(answers).skill_options == state.skill_options,
        state.skills.is_prefix_of(state.run(answers).skills),
        state.expertise.is_prefix_of(state.run(answers).expertise),
    decreases answers.len(),
{
    if answers.len() != 0 && state.stage() != Stage::Complete {
        let next = state.answer(answers[0] as int);
        lemma_answer_wf(state, answers[0] as int);
        lemma_run_wf(next, answers.drop_first());
        let last = next.run(answers.drop_first());
        assert(state.skills.is_prefix_of(last.skills)) by {
            assert(state.skills =~= last.skills.subrange(0, state.skills.len() as int));
        }
        assert(state.expertise.is_prefix_of(last.expertise)) by {
            assert(state.expertise =~= last.expertise.subrange(0, state.expertise.len() as int));
        }
    }
}

/// A character built from a complete state that building can reach is
/// consistent with the rules. It has exactly as many skills as the class
/// asks for, unless background and race alone grant more, and it has
/// expertise in exactly as many skills as the class allows.
pub proof fn lemma_built_character_wf(character: Character, state: BuilderView)
    requires
        state.wf(),
        state.stage() == Stage::Complete,
        character.is_built_from(state),
    ensures
        character.wf(),
        character.expertise@.len() == character.class.spec_expertise_allowance(),
        character.skills@.len() == character.class.spec_skill_proficiency_count()
            || character.skills.order() == granted_skills(
            character.background,
            character.race,
        ),
{
    let granted = granted_skills(state.background, state.race);
    character.skills.lemma_len();
    character.expertise.lemma_len();
    crate::class::lemma_saving_throws_distinct(state.class);
    assert forall|skill: Skill| granted.to_set().contains(skill) implies character.skills@.contains(
        skill,
    ) by {
        let i = choose|i: int| 0 <= i < granted.len() && granted[i] == skill;
        assert(state.skills[i] == skill);
    }
    assert forall|skill: Skill|
        character.expertise@.contains(skill) implies character.skills@.contains(skill) by {
        let i = choose|i: int| 0 <= i < state.expertise.len() && state.expertise[i] == skill;
        assert(state.skills.contains(state.expertise[i]));
    }
}

/// However a script goes on, the freely placed bonuses go to abilities
/// other than Charisma, no score falls, and the scores rise by one point for
/// each bonus that was placed.
pub proof fn lemma_free_bonuses_placed(state: BuilderView, answers: Seq<usize>)
    requires
        state.wf(),
    ensures
        state.run(answers).abilities.spec_score(Ability::Charisma) == state.abilities.spec_score(
            Ability::Charisma,
        ),
        forall|ability: Ability| #[trigger]
            state.run(answers).abilities.spec_score(ability) >= state.abilities.spec_score(
                ability,
            ),
        state.run(answers).free_bonuses_left <= state.free_bonuses_left,
        state.run(answers).abilities.spec_total() - state.abilities.spec_total()
            == state.free_bonuses_left - state.run(answers).free_bonuses_left,
    decreases answers.len(),
{
    if answers.len() != 0 && state.stage() != Stage::Complete {
        let choice = answers[0] as int;
        let next = state.answer(choice);
        lemma_answer_wf(state, choice);
        lemma_free_bonuses_placed(next, answers.drop_first());
        if state.accepts(choice) && state.stage() == Stage::FreeBonus {
            let ability = spec_free_bonus_ability(choice).unwrap();
            assert(state.abilities.spec_score(ability) + state.free_bonuses_left <= u8::MAX);
            state.abilities.lemma_one_above(ability);
        }
        let last = next.run(answers.drop_first());
        assert forall|ability: Ability| #[trigger]
            last.abilities.spec_score(ability) >= state.abilities.spec_score(ability) by {
            assert(last.abilities.spec_score(ability) >= next.abilities.spec_score(ability));
        }
    }
}

/// A finished build has added to the rolled scores the bonuses of the race
/// and one point for each bonus that the race lets the player place, none
/// of them on Charisma.
pub proof fn lemma_build_scores(
    name: Seq<char>,
    race: Race,
    class: Class,
    background: Background,
    rolled: AbilityScores,
    answers: Seq<usize>,
)
    requires
        name.len() > 0,
        rolled.in_rolled_range(),
        begin_view(name, race, class, background, rolled).run(answers).stage() == Stage::Complete,
    ensures
        begin_view(name, race, class, background, rolled).run(answers).abilities.spec_score(
            Ability::Charisma,
        ) == rolled.spec_score(Ability::Charisma) + race.spec_ability_bonus(Ability::Charisma),
        forall|ability: Ability| #[trigger]
            begin_view(name, race, class, background, rolled).run(answers).abilities.spec_score(
                ability,
            ) >= rolled.spec_score(ability) + race.spec_ability_bonus(ability),
        begin_view(name, race, class, background, rolled).run(answers).abilities.spec_total()
            == rolled.spec_total() + race.spec_bonus_total() + race.spec_free_bonus_count(),
{
    let start = begin_view(name, race, class, background, rolled);
    lemma_begin_wf(name, race, class, background, rolled);
    rolled.lemma_raised_by(race);
    lemma_free_bonuses_placed(start, answers);
    let last = start.run(answers);
    assert forall|ability: Ability| #[trigger]
        last.abilities.spec_score(ability) >= rolled.spec_score(ability)
            + race.spec_ability_bonus(ability) by {
        assert(last.abilities.spec_score(ability) >= start.abilities.spec_score(ability));
    }
}

/// A half-elf who places the two free bonuses on two different abilities
/// ends with each of the two exactly one point above the rolled score with
/// the bonus of the race, and with every other score at that value.
pub proof fn lemma_half_elf_two_bonuses(
    name: Seq<char>,
    class: Class,
    background: Background,
    rolled: AbilityScores,
    first: int,
    second: int,
)
    requires
        name.len() > 0,
        rolled.in_rolled_range(),
        spec_free_bonus_ability(first).is_some(),
        spec_free_bonus_ability(second).is_some(),
        spec_free_bonus_ability(first) != spec_free_bonus_ability(second),
    ensures
        ({
            let start = begin_view(name, Race::HalfElf, class, background, rolled);
            let last = start.answer(first).answer(second);
            let one = spec_free_bonus_ability(first).unwrap();
            let other = spec_free_bonus_ability(second).unwrap();
            &&& one != Ability::Charisma && other != Ability::Charisma
            &&& start.stage() == Stage::FreeBonus
            &&& last.free_bonuses_left == 0
            &&& last.abilities.spec_score(one) == rolled.spec_score(one)
                + Race::HalfElf.spec_ability_bonus(one) + 1
            &&& last.abilities.spec_score(other) == rolled.spec_score(other)
                + Race::HalfElf.spec_ability_bonus(other) + 1
            &&& forall|ability: Ability|
                ability != one && ability != other ==> #[trigger] last.abilities.spec_score(
                    ability,
                ) == rolled.spec_score(ability) + Race::HalfElf.spec_ability_bonus(ability)
        }),
{
    let start = begin_view(name, Race::HalfElf, class, background, rolled);
    let middle = start.answer(first);
    let last = middle.answer(second);
    let one = spec_free_bonus_ability(first).unwrap();
    let other = spec_free_bonus_ability(second).unwrap();
    lemma_begin_wf(name, Race::HalfElf, class, background, rolled);
    rolled.lemma_raised_by(Race::HalfElf);
    lemma_answer_wf(start, first);
    assert(start.abilities.spec_score(one) + start.free_bonuses_left <= u8::MAX);
    start.abilities.lemma_one_above(one);
    assert(middle.abilities.spec_score(other) + middle.free_bonuses_left <= u8::MAX);
    middle.abilities.lemma_one_above(other);
    assert forall|ability: Ability| ability != one && ability != other implies #[trigger]
        last.abilities.spec_score(ability) == rolled.spec_score(ability)
            + Race::HalfElf.spec_ability_bonus(ability) by {
        assert(middle.abilities.spec_score(ability) == start.abilities.spec_score(ability));
        assert(start.abilities.spec_score(ability) == rolled.spec_score(ability)
            + Race::HalfElf.spec_ability_bonus(ability));
    }
    assert(start.abilities.spec_score(one) == rolled.spec_score(one)
        + Race::HalfElf.spec_ability_bonus(one));
    assert(start.abilities.spec_score(other) == rolled.spec_score(other)
        + Race::HalfElf.spec_ability_bonus(other));
}

/// A human fighter with the soldier background has nothing to choose: the
/// background grants Athletics and Intimidation, which are the two skills a
/// fighter needs, so whatever the script holds, none of it is read. The hit
/// points are ten plus the Constitution modifier, and at least one.
pub proof fn lemma_human_fighter_soldier(
    name: Seq<char>,
    rolled: AbilityScores,
    answers: Seq<usize>,
)
    requires
        name.len() > 0,
        rolled.in_rolled_range(),
    ensures
        ({
            let start = begin_view(
                name,
                Race::Human,
                Class::Fighter,
                Background::Soldier,
                rolled,
            );
            let points = 10 + start.abilities.spec_modifier(Ability::Constitution);
            &&& start.stage() == Stage::Complete
            &&& start.run(answers) == start
            &&& start.skills == seq![Skill::Athletics, Skill::Intimidation]
            &&& start.expertise == Seq::<Skill>::empty()
            &&& start.abilities.spec_score(Ability::Constitution) == rolled.spec_score(
                Ability::Constitution,
            ) + 1
            &&& spec_starting_hit_points(Class::Fighter, start.abilities) == if points < 1 {
                1
            } else {
                points
            }
        }),
{
    let start = begin_view(name, Race::Human, Class::Fighter, Background::Soldier, rolled);
    lemma_begin_wf(name, Race::Human, Class::Fighter, Background::Soldier, rolled);
    rolled.lemma_raised_by(Race::Human);
    lemma_granted_skills(Background::Soldier, Race::Human);
    let granted = granted_skills(Background::Soldier, Race::Human);
    let own = Background::Soldier.spec_skills();
    assert(granted == with_skills(own, Race::Human.spec_racial_skills()));
    assert(granted =~= own);
}

/// Two characters built from the same state agree in every field: a build
/// depends on nothing but what went into it.
pub proof fn lemma_built_characters_agree(first: Character, second: Character, state: BuilderView)
    requires
        first.is_built_from(state),
        second.is_built_from(state),
    ensures
        first.name@ == second.name@,
        first.race == second.race,
        first.class == second.class,
        first.background == second.background,
        first.level == second.level,
        first.abilities == second.abilities,
        first.hit_points == second.hit_points,
        first.skills.order() == second.skills.order(),
        first.skills@ == second.skills@,
        first.expertise.order() == second.expertise.order(),
        first.expertise@ == second.expertise@,
        first.saving_throws == second.saving_throws,
{
}

/// An answer never adds to the choices that are left, and the builder is
/// complete exactly when none is left.
pub proof fn lemma_choices_left(state: BuilderView, choice: int)
    requires
        state.wf(),
    ensures
        state.answer(choice).choices_left() <= state.choices_left(),
        state.choices_left() == 0 <==> state.stage() == Stage::Complete,
{
    if state.accepts(choice) {
        match state.stage() {
            Stage::Skills => {
                lemma_with_skill(state.skills, state.skill_options[choice - 1]);
            },
            Stage::Expertise => {
                lemma_with_skill(state.expertise, state.skills[choice - 1]);
            },
            _ => {},
        }
    }
}

/// While something is left to choose, the menu holds an entry that brings
/// the build one choice nearer to its end: no stage can run out of entries
/// to choose.
pub proof fn lemma_progress_possible(state: BuilderView)
    requires
        state.wf(),
        state.stage() != Stage::Complete,
    ensures
        exists|choice: int|
            1 <= choice <= 18 && #[trigger] state.accepts(choice) && state.answer(
                choice,
            ).choices_left() == state.choices_left() - 1,
{
    let granted = granted_skills(state.background, state.race);
    crate::class::lemma_class_skills(state.class);
    match state.stage() {
        Stage::FreeBonus => {
            assert(state.accepts(1));
            assert(state.answer(1).choices_left() == state.choices_left() - 1);
        },
        Stage::Skills => {
            let all = state.class.spec_class_skills();
            lemma_skill_outside(all, state.skills);
            let i = choose|i: int| 0 <= i < all.len() && !state.skills.contains(#[trigger] all[i]);
            let skill = all[i];
            assert(!granted.contains(skill)) by {
                if granted.contains(skill) {
                    let j = choose|j: int| 0 <= j < granted.len() && granted[j] == skill;
                    assert(state.skills[j] == skill);
                }
            }
            assert(not_among(granted)(all[i]));
            all.lemma_filter_contains(not_among(granted), i);
            all.lemma_filter_len(not_among(granted));
            let j = choose|j: int|
                0 <= j < state.skill_options.len() && state.skill_options[j] == skill;
            assert(state.accepts(j + 1));
            assert(state.answer(j + 1).skills == state.skills.push(skill));
            assert(state.answer(j + 1).choices_left() == state.choices_left() - 1);
        },
        Stage::Expertise => {
            lemma_skill_outside(state.skills, state.expertise);
            let i = choose|i: int|
                0 <= i < state.skills.len() && !state.expertise.contains(
                    #[trigger] state.skills[i],
                );
            lemma_granted_skills(state.background, state.race);
            lemma_with_skills(
                with_skills(Seq::<Skill>::empty(), state.background.spec_skills()),
                state.race.spec_racial_skills(),
            );
            assert(state.skills.len() <= 4);
            assert(state.accepts(i + 1));
            assert(state.answer(i + 1).expertise == state.expertise.push(state.skills[i]));
            assert(state.answer(i + 1).choices_left() == state.choices_left() - 1);
        },
        Stage::Complete => {},
    }
}

/// Every build can be finished: from each state that building can reach,
/// some script leads to a complete state.
pub proof fn lemma_build_can_finish(state: BuilderView)
    requires
        state.wf(),
    ensures
        exists|answers: Seq<usize>| #[trigger] state.run(answers).stage() == Stage::Complete,
    decreases state.choices_left(),
{
    if state.stage() == Stage::Complete {
        assert(state.run(Seq::<usize>::empty()).stage() == Stage::Complete);
    } else {
        lemma_progress_possible(state);
        let choice = choose|choice: int|
            1 <= choice <= 18 && #[trigger] state.accepts(choice) && state.answer(
                choice,
            ).choices_left() == state.choices_left() - 1;
        let next = state.answer(choice);
        lemma_answer_wf(state, choice);
        lemma_build_can_finish(next);
        let rest = choose|answers: Seq<usize>| #[trigger]
            next.run(answers).stage() == Stage::Complete;
        let answers = seq![choice as usize] + rest;
        assert(answers[0] as int == choice);
        assert(answers.drop_first() =~= rest);
        assert(state.run(answers) == next.run(rest));
    }
}

/// A character in the making.
#[derive(Debug)]
pub struct CharacterBuilder {
    name: String,
    race: Race,
    class: Class,
    background: Background,
    abilities: AbilityScores,
    free_bonuses_left: u8,
    skills: SkillSet,
    skill_options: Vec<Skill>,
    expertise: SkillSet,
}

impl View for CharacterBuilder {
    type V = BuilderView;

    closed spec fn view(&self) -> BuilderView {
        BuilderView {
            name: self.name@,
            race: self.race,
            class: self.class,
            background: self.background,
            abilities: self.abilities,
            free_bonuses_left: self.free_bonuses_left as nat,
            skills: self.skills.order(),
            skill_options: self.skill_options@,
            expertise: self.expertise.order(),
        }
    }
}

impl CharacterBuilder {
    /// The builder is in a state that building can reach.
    pub open spec fn wf(&self) -> bool {
        self@.wf()
    }

    /// Starts to build a character: adds the bonuses of the race to the
    /// rolled scores, grants the skills of background and race, and lists
    /// the skills of the class that are left to choose from.
    pub fn begin(
        name: String,
        race: Race,
        class: Class,
        background: Background,
        rolled: AbilityScores,
    ) -> (builder: CharacterBuilder)
        requires
            name@.len() > 0,
            rolled.in_rolled_range(),
        ensures
            builder.wf(),
            builder@ == begin_view(name@, race, class, background, rolled),
    {
        proof {
            lemma_begin_wf(name@, race, class, background, rolled);
        }
        let mut abilities = rolled;
        abilities.apply_racial_bonuses(race);
        let mut skills = SkillSet::new();
        let own = background.skills();
        let own_list: Vec<Skill> = vec![own[0], own[1]];
        assert(own_list@ =~= background.spec_skills());
        skills.insert_all(&own_list);
        skills.insert_all(&race.racial_skills());
        let skill_options = unchosen_skills(&get_class_skills(&class), &skills);
        CharacterBuilder {
            name,
            race,
            class,
            background,
            abilities,
            free_bonuses_left: race.free_bonus_count(),
            skills,
            skill_options,
            expertise: SkillSet::new(),
        }
    }

    /// Tells what the builder waits for.
    pub fn stage(&self) -> (stage: Stage)
        ensures
            stage == self@.stage(),
    {
        if self.free_bonuses_left > 0 {
            Stage::FreeBonus
        } else if self.skills.len() < get_skill_proficiency_count(&self.class) {
            Stage::Skills
        } else if self.expertise.len() < self.class.expertise_allowance() {
            Stage::Expertise
        } else {
            Stage::Complete
        }
    }

    /// Tells whether nothing is left to choose.
    pub fn is_complete(&self) -> (complete: bool)
        ensures
            complete == (self@.stage() == Stage::Complete),
    {
        self.stage() == Stage::Complete
    }

    /// Tells how many choices the current stage still needs.
    pub fn remaining(&self) -> (count: usize)
        ensures
            count == self@.remaining(),
    {
        match self.stage() {
            Stage::FreeBonus => self.free_bonuses_left as usize,
            Stage::Skills => get_skill_proficiency_count(&self.class) - self.skills.len(),
            Stage::Expertise => self.class.expertise_allowance() - self.expertise.len(),
            Stage::Complete => 0,
        }
    }

    /// The scores with the bonuses applied so far.
    pub fn abilities(&self) -> (abilities: AbilityScores)
        ensures
            abilities == self@.abilities,
    {
        self.abilities
    }

    /// The proficient skills so far.
    pub fn skills(&self) -> (skills: &SkillSet)
        ensures
            skills.order() == self@.skills,
            self.wf() ==> skills.wf(),
    {
        &self.skills
    }

    /// The skills raised to expertise so far.
    pub fn expertise(&self) -> (expertise: &SkillSet)
        ensures
            expertise.order() == self@.expertise,
            self.wf() ==> expertise.wf(),
    {
        &self.expertise
    }

    /// The menu of the skills stage: the skills of the class that background
    /// and race have not granted, in the order of the class. It stays as it
    /// is while skills are chosen from it.
    pub fn skill_options(&self) -> (options: Vec<Skill>)
        ensures
            options@ == self@.skill_options,
    {
        copy_of(&self.skill_options)
    }

    /// The menu of the expertise stage: the proficient skills, in the order
    /// in which they came.
    pub fn expertise_options(&self) -> (options: Vec<Skill>)
        ensures
            options@ == self@.expertise_options(),
    {
        self.skills.to_vec()
    }

    /// Takes one answer of the player: the number of an entry on the menu of
    /// the current stage. Tells whether the answer was on the menu; one that
    /// was not changes nothing.
    pub fn answer(&mut self, choice: usize) -> (accepted: bool)
        requires
            old(self).wf(),
        ensures
            final(self).wf(),
            final(self)@ == old(self)@.answer(choice as int),
            accepted == old(self)@.accepts(choice as int),
    {
        proof {
            lemma_answer_wf(self@, choice as int);
        }
        match self.stage() {
            Stage::FreeBonus => {
                proof {
                    if spec_free_bonus_ability(choice as int).is_some() {
                        let ability = spec_free_bonus_ability(choice as int).unwrap();
                        assert(self.abilities.spec_score(ability) + self.free_bonuses_left
                            <= u8::MAX);
                    }
                }
                let accepted = self.abilities.apply_free_bonus(choice);
                if accepted {
                    self.free_bonuses_left = self.free_bonuses_left - 1;
                }
                accepted
            },
            Stage::Skills => {
                match pick(&self.skill_options, choice) {
                    Some(skill) => {
                        self.skills.insert(skill);
                        true
                    },
                    None => false,
                }
            },
            Stage::Expertise => {
                if 1 <= choice && choice <= self.skills.len() {
                    let skill = self.skills.get(choice - 1);
                    self.expertise.insert(skill);
                    true
                } else {
                    false
                }
            },
            Stage::Complete => false,
        }
    }

    /// Takes the answers of a script in order until nothing is left to
    /// choose or the script ends.
    pub fn run(&mut self, answers: &Vec<usize>)
        requires
            old(self).wf(),
        ensures
            final(self).wf(),
            final(self)@ == old(self)@.run(answers@),
    {
        let mut i: usize = 0;
        assert(answers@.skip(0) =~= answers@);
        while i < answers.len() && !self.is_complete()
            invariant
                i <= answers.len(),
                self.wf(),
                self@.run(answers@.skip(i as int)) == old(self)@.run(answers@),
            decreases answers.len() - i,
        {
            assert(answers@.skip(i as int).drop_first() =~= answers@.skip(i + 1));
            self.answer(answers[i]);
            i += 1;
        }
    }

    /// Finishes the character once nothing is left to choose: computes the
    /// hit points and takes the saving throws of the class. Returns `None`
    /// while something is left to choose.
    pub fn finish(self) -> (character: Option<Character>)
        requires
            self.wf(),
        ensures
            character.is_some() <==> self@.stage() == Stage::Complete,
            character matches Some(built) ==> built.is_built_from(self@) && built.wf()
                && built.expertise@.len() == self@.class.spec_expertise_allowance(),
    {
        if !self.is_complete() {
            return None;
        }
        let hit_points = starting_hit_points(self.class, &self.abilities);
        let saving_throws = self.class.saving_throws();
        let built = Character {
            name: self.name,
            race: self.race,
            class: self.class,
            background: self.background,
            level: 1,
            abilities: self.abilities,
            hit_points,
            skills: self.skills,
            expertise: self.expertise,
            saving_throws,
        };
        proof {
            lemma_built_character_wf(built, self@);
        }
        Some(built)
    }
}

/// Returns a copy of a list of skills.
fn copy_of(list: &Vec<Skill>) -> (copy: Vec<Skill>)
    ensures
        copy@ == list@,
{
    let mut copy: Vec<Skill> = Vec::new();
    let mut i: usize = 0;
    while i < list.len()
        invariant
            i <= list.len(),
            copy@ == list@.take(i as int),
        decreases list.len() - i,
    {
        copy.push(list[i]);
        assert(list@.take(i + 1) =~= list@.take(i as int).push(list@[i as int]));
        i += 1;
    }
    assert(list@.take(list@.len() as int) =~= list@);
    copy
}

/// Returns the skills of `candidates` that are not in `chosen`, in the order
/// of `candidates`.
pub fn unchosen_skills(candidates: &Vec<Skill>, chosen: &SkillSet) -> (options: Vec<Skill>)
    ensures
        options@ == candidates@.filter(not_among(chosen.order())),
{
    let ghost keep = not_among(chosen.order());
    let mut options: Vec<Skill> = Vec::new();
    let mut i: usize = 0;
    proof {
        assert(candidates@.take(0).len() == 0);
        reveal_with_fuel(Seq::filter, 1);
        assert(candidates@.take(0).filter(keep) =~= Seq::<Skill>::empty());
    }
    while i < candidates.len()
        invariant
            i <= candidates.len(),
            keep == not_among(chosen.order()),
            options@ == candidates@.take(i as int).filter(keep),
        decreases candidates.len() - i,
    {
        let skill = candidates[i];
        proof {
            candidates@.take(i as int).lemma_filter_push(skill, keep);
            assert(candidates@.take(i + 1) =~= candidates@.take(i as int).push(skill));
        }
        if !chosen.contains(skill) {
            options.push(skill);
        }
        i += 1;
    }
    assert(candidates@.take(candidates@.len() as int) =~= candidates@);
    options
}

/// Builds a character from the answers of a script. Returns `None` where
/// the script ends before everything is chosen.
pub fn build_character(
    name: String,
    race: Race,
    class: Class,
    background: Background,
    rolled: AbilityScores,
    answers: &Vec<usize>,
) -> (character: Option<Character>)
    requires
        name@.len() > 0,
        rolled.in_rolled_range(),
    ensures
        character.is_some() <==> begin_view(name@, race, class, background, rolled).run(
            answers@,
        ).stage() == Stage::Complete,
        character matches Some(built) ==> built.is_built_from(
            begin_view(name@, race, class, background, rolled).run(answers@),
        ) && built.wf() && built.expertise@.len() == class.spec_expertise_allowance(),
{
    proof {
        lemma_begin_wf(name@, race, class, background, rolled);
        lemma_run_wf(begin_view(name@, race, class, background, rolled), answers@);
    }
    let mut builder = CharacterBuilder::begin(name, race, class, background, rolled);
    builder.run(answers);
    builder.finish()
}

} // verus!
