use dnd_character::ability::{Ability, AbilityScores};
use dnd_character::background::Background;
use dnd_character::builder::{build_character, unchosen_skills, CharacterBuilder, Stage};
use dnd_character::character::{starting_hit_points, Character};
use dnd_character::class::{get_class_skills, Class};
use dnd_character::race::Race;
use dnd_character::skill::{Skill, SkillSet};

fn scores(s: u8, d: u8, c: u8, i: u8, w: u8, ch: u8) -> AbilityScores {
    AbilityScores {
        strength: s,
        dexterity: d,
        constitution: c,
        intelligence: i,
        wisdom: w,
        charisma: ch,
    }
}

fn build(
    race: Race,
    class: Class,
    background: Background,
    rolled: AbilityScores,
    answers: &[usize],
) -> Option<Character> {
    build_character(String::from("Tester"), race, class, background, rolled, &answers.to_vec())
}

#[test]
fn human_fighter_soldier_needs_no_choice() {
    let rolled = scores(15, 12, 13, 10, 9, 8);
    let hero = build(Race::Human, Class::Fighter, Background::Soldier, rolled, &[]).unwrap();
    assert_eq!(hero.name, "Tester");
    assert_eq!(hero.race, Race::Human);
    assert_eq!(hero.class, Class::Fighter);
    assert_eq!(hero.background, Background::Soldier);
    assert_eq!(hero.level, 1);
    assert_eq!(hero.skills.to_vec(), vec![Skill::Athletics, Skill::Intimidation]);
    assert_eq!(hero.skills.len(), 2);
    assert!(hero.expertise.is_empty());
    assert_eq!(hero.abilities, scores(16, 13, 14, 11, 10, 9));
    // 10 + the modifier of Constitution 14.
    assert_eq!(hero.hit_points, 12);
    assert_eq!(hero.saving_throws, (Ability::Strength, Ability::Constitution));
}

#[test]
fn human_fighter_soldier_reads_none_of_the_script() {
    let rolled = scores(15, 12, 13, 10, 9, 8);
    let mut builder = CharacterBuilder::begin(
        String::from("Tester"),
        Race::Human,
        Class::Fighter,
        Background::Soldier,
        rolled,
    );
    assert_eq!(builder.stage(), Stage::Complete);
    assert!(builder.is_complete());
    assert_eq!(builder.remaining(), 0);
    assert!(!builder.answer(1));
    let hero = build(Race::Human, Class::Fighter, Background::Soldier, rolled, &[1, 2, 3]).unwrap();
    assert_eq!(hero.skills.to_vec(), vec![Skill::Athletics, Skill::Intimidation]);
}

#[test]
fn human_fighter_soldier_hit_points_follow_constitution() {
    for constitution in 3..=18u8 {
        let rolled = scores(10, 10, constitution, 10, 10, 10);
        let hero = build(Race::Human, Class::Fighter, Background::Soldier, rolled, &[]).unwrap();
        let modifier = ((constitution as i32 + 1 - 10) as f64 / 2.0).floor() as i32;
        let expected = std::cmp::max(1, 10 + modifier);
        assert_eq!(hero.hit_points as i32, expected, "constitution {}", constitution);
        assert!(hero.hit_points >= 1);
    }
}

#[test]
fn hit_points_are_the_hit_die_plus_the_constitution_modifier() {
    assert_eq!(starting_hit_points(Class::Fighter, &scores(10, 10, 10, 10, 10, 10)), 10);
    assert_eq!(starting_hit_points(Class::Barbarian, &scores(10, 10, 18, 10, 10, 10)), 16);
    assert_eq!(starting_hit_points(Class::Wizard, &scores(10, 10, 3, 10, 10, 10)), 2);
    assert_eq!(starting_hit_points(Class::Rogue, &scores(10, 10, 9, 10, 10, 10)), 7);
}

#[test]
fn hit_points_are_at_least_one() {
    assert_eq!(starting_hit_points(Class::Sorcerer, &scores(10, 10, 1, 10, 10, 10)), 1);
    assert_eq!(starting_hit_points(Class::Wizard, &scores(10, 10, 0, 10, 10, 10)), 1);
}

#[test]
fn rogue_picks_skills_and_expertise() {
    let rolled = scores(8, 16, 12, 13, 10, 14);
    // One further skill (Insight is third on the menu), then expertise in
    // the second and the fourth proficient skill.
    let rogue = build(Race::Elf, Class::Rogue, Background::Criminal, rolled, &[3, 2, 4]).unwrap();
    assert_eq!(
        rogue.skills.to_vec(),
        vec![Skill::Deception, Skill::Stealth, Skill::Perception, Skill::Insight]
    );
    assert_eq!(rogue.expertise.to_vec(), vec![Skill::Stealth, Skill::Insight]);
    assert_eq!(rogue.expertise.len(), 2);
    for skill in rogue.expertise.to_vec() {
        assert!(rogue.skills.contains(skill));
    }
    assert_eq!(rogue.abilities, scores(8, 18, 12, 13, 10, 14));
    assert_eq!(rogue.hit_points, 9);
    assert_eq!(rogue.saving_throws, (Ability::Dexterity, Ability::Intelligence));
}

#[test]
fn rogue_expertise_is_a_subset_of_the_skills_whatever_is_answered() {
    let rolled = scores(10, 10, 10, 10, 10, 10);
    for first in 1..=9usize {
        for second in 1..=9usize {
            for third in 1..=4usize {
                for fourth in 1..=4usize {
                    let answers = [first, second, 1, 2, 3, third, fourth, 1, 2];
                    let rogue =
                        build(Race::Human, Class::Rogue, Background::Soldier, rolled, &answers)
                            .unwrap();
                    assert_eq!(rogue.skills.len(), 4);
                    assert_eq!(rogue.expertise.len(), 2);
                    for skill in rogue.expertise.to_vec() {
                        assert!(rogue.skills.contains(skill));
                    }
                    assert!(rogue.skills.contains(Skill::Athletics));
                    assert!(rogue.skills.contains(Skill::Intimidation));
                }
            }
        }
    }
}

#[test]
fn skills_menu_leaves_out_what_is_granted() {
    let builder = CharacterBuilder::begin(
        String::from("Tester"),
        Race::Elf,
        Class::Rogue,
        Background::Criminal,
        scores(10, 10, 10, 10, 10, 10),
    );
    assert_eq!(builder.stage(), Stage::Skills);
    assert_eq!(builder.remaining(), 1);
    assert_eq!(
        builder.skill_options(),
        vec![
            Skill::Acrobatics,
            Skill::Athletics,
            Skill::Insight,
            Skill::Intimidation,
            Skill::Investigation,
            Skill::Performance,
            Skill::Persuasion,
            Skill::SleightOfHand,
        ]
    );
    assert_eq!(
        builder.skills().to_vec(),
        vec![Skill::Deception, Skill::Stealth, Skill::Perception]
    );
}

#[test]
fn unchosen_skills_keeps_the_order_of_the_candidates() {
    let mut chosen = SkillSet::new();
    chosen.insert(Skill::Insight);
    chosen.insert(Skill::Arcana);
    assert_eq!(
        unchosen_skills(&get_class_skills(&Class::Wizard), &chosen),
        vec![Skill::History, Skill::Investigation, Skill::Medicine, Skill::Religion]
    );
    assert_eq!(
        unchosen_skills(&get_class_skills(&Class::Cleric), &SkillSet::new()),
        get_class_skills(&Class::Cleric)
    );
    assert_eq!(unchosen_skills(&Vec::new(), &chosen), Vec::<Skill>::new());
}

#[test]
fn granted_skills_count_even_beyond_the_need_of_the_class() {
    // A half-orc soldier is granted Athletics and Intimidation by the
    // background and Intimidation again by the race: two skills.
    let fighter = build(
        Race::HalfOrc,
        Class::Fighter,
        Background::Soldier,
        scores(10, 10, 10, 10, 10, 10),
        &[],
    )
    .unwrap();
    assert_eq!(fighter.skills.to_vec(), vec![Skill::Athletics, Skill::Intimidation]);
    // An elf sage who becomes a wizard has three skills though a wizard
    // asks for two.
    let wizard = build(
        Race::Elf,
        Class::Wizard,
        Background::Sage,
        scores(10, 10, 10, 10, 10, 10),
        &[],
    )
    .unwrap();
    assert_eq!(wizard.skills.to_vec(), vec![Skill::Arcana, Skill::History, Skill::Perception]);
}

#[test]
fn an_answer_off_the_menu_is_asked_again() {
    let rolled = scores(10, 10, 10, 10, 10, 10);
    let plain = build(Race::Human, Class::Ranger, Background::Sage, rolled, &[2]).unwrap();
    let noisy =
        build(Race::Human, Class::Ranger, Background::Sage, rolled, &[0, 9, 100, 2, 7]).unwrap();
    assert_eq!(
        plain.skills.to_vec(),
        vec![Skill::Arcana, Skill::History, Skill::Athletics]
    );
    assert_eq!(noisy.skills.to_vec(), plain.skills.to_vec());
}

#[test]
fn a_skill_chosen_twice_counts_once() {
    let rolled = scores(10, 10, 10, 10, 10, 10);
    let mut builder = CharacterBuilder::begin(
        String::from("Tester"),
        Race::Human,
        Class::Rogue,
        Background::Soldier,
        rolled,
    );
    assert_eq!(builder.remaining(), 2);
    assert!(builder.answer(9));
    assert_eq!(builder.remaining(), 1);
    assert!(builder.answer(9));
    assert_eq!(builder.remaining(), 1);
    assert_eq!(builder.stage(), Stage::Skills);
    assert!(builder.answer(1));
    assert_eq!(builder.stage(), Stage::Expertise);
    assert_eq!(
        builder.skills().to_vec(),
        vec![Skill::Athletics, Skill::Intimidation, Skill::Stealth, Skill::Acrobatics]
    );
    assert_eq!(builder.expertise_options(), builder.skills().to_vec());
    assert!(builder.answer(3));
    assert!(builder.answer(3));
    assert_eq!(builder.remaining(), 1);
    assert!(!builder.answer(5));
    assert!(builder.answer(1));
    assert!(builder.is_complete());
    let rogue = builder.finish().unwrap();
    assert_eq!(rogue.expertise.to_vec(), vec![Skill::Stealth, Skill::Athletics]);
}

#[test]
fn a_script_that_ends_early_builds_nothing() {
    let rolled = scores(10, 10, 10, 10, 10, 10);
    assert!(build(Race::Human, Class::Rogue, Background::Soldier, rolled, &[]).is_none());
    assert!(build(Race::Human, Class::Rogue, Background::Soldier, rolled, &[1, 2]).is_none());
    assert!(build(Race::Human, Class::Rogue, Background::Soldier, rolled, &[1, 2, 1]).is_none());
    assert!(build(Race::Human, Class::Rogue, Background::Soldier, rolled, &[1, 2, 1, 2]).is_some());
    assert!(build(Race::HalfElf, Class::Fighter, Background::Soldier, rolled, &[1]).is_none());
    assert!(build(Race::HalfElf, Class::Fighter, Background::Soldier, rolled, &[0, 6]).is_none());
}

#[test]
fn finish_waits_until_nothing_is_left_to_choose() {
    let builder = CharacterBuilder::begin(
        String::from("Tester"),
        Race::Human,
        Class::Bard,
        Background::Noble,
        scores(10, 10, 10, 10, 10, 10),
    );
    assert_eq!(builder.stage(), Stage::Skills);
    assert!(builder.finish().is_none());
}

#[test]
fn half_elf_places_two_bonuses_on_two_abilities() {
    let rolled = scores(10, 11, 12, 13, 14, 15);
    let half_elf =
        build(Race::HalfElf, Class::Fighter, Background::Soldier, rolled, &[1, 3]).unwrap();
    assert_eq!(half_elf.abilities, scores(11, 11, 13, 13, 14, 17));
    let other =
        build(Race::HalfElf, Class::Fighter, Background::Soldier, rolled, &[5, 2]).unwrap();
    assert_eq!(other.abilities, scores(10, 12, 12, 13, 15, 17));
}

#[test]
fn half_elf_may_place_both_bonuses_on_one_ability() {
    let rolled = scores(10, 11, 12, 13, 14, 15);
    let half_elf =
        build(Race::HalfElf, Class::Fighter, Background::Soldier, rolled, &[4, 4]).unwrap();
    assert_eq!(half_elf.abilities, scores(10, 11, 12, 15, 14, 17));
}

#[test]
fn half_elf_cannot_place_a_bonus_on_charisma() {
    let rolled = scores(10, 10, 10, 10, 10, 10);
    let mut builder = CharacterBuilder::begin(
        String::from("Tester"),
        Race::HalfElf,
        Class::Fighter,
        Background::Soldier,
        rolled,
    );
    assert_eq!(builder.stage(), Stage::FreeBonus);
    assert_eq!(builder.remaining(), 2);
    assert_eq!(builder.abilities(), scores(10, 10, 10, 10, 10, 12));
    assert!(!builder.answer(6));
    assert!(!builder.answer(0));
    assert_eq!(builder.remaining(), 2);
    assert!(builder.answer(2));
    assert_eq!(builder.remaining(), 1);
    assert!(builder.answer(5));
    assert_eq!(builder.abilities(), scores(10, 11, 10, 10, 11, 12));
    assert!(builder.is_complete());
}

#[test]
fn half_elf_bonus_on_constitution_counts_for_the_hit_points() {
    let rolled = scores(10, 10, 11, 10, 10, 10);
    let plain = build(Race::HalfElf, Class::Fighter, Background::Soldier, rolled, &[1, 2]).unwrap();
    let hardy = build(Race::HalfElf, Class::Fighter, Background::Soldier, rolled, &[3, 2]).unwrap();
    assert_eq!(plain.hit_points, 10);
    assert_eq!(hardy.hit_points, 11);
}

#[test]
fn half_elf_bard_goes_through_every_stage() {
    let rolled = scores(8, 14, 12, 10, 13, 15);
    let mut builder = CharacterBuilder::begin(
        String::from("Lyra"),
        Race::HalfElf,
        Class::Bard,
        Background::Entertainer,
        rolled,
    );
    assert_eq!(builder.stage(), Stage::FreeBonus);
    builder.run(&vec![2, 3]);
    assert_eq!(builder.stage(), Stage::Skills);
    assert_eq!(builder.remaining(), 1);
    assert_eq!(builder.skill_options().len(), 16);
    builder.run(&vec![16]);
    assert_eq!(builder.stage(), Stage::Expertise);
    assert_eq!(builder.remaining(), 2);
    assert_eq!(
        builder.expertise_options(),
        vec![Skill::Acrobatics, Skill::Performance, Skill::Survival]
    );
    builder.run(&vec![2, 3, 1]);
    assert_eq!(builder.stage(), Stage::Complete);
    assert_eq!(builder.expertise().to_vec(), vec![Skill::Performance, Skill::Survival]);
    let bard = builder.finish().unwrap();
    assert_eq!(bard.name, "Lyra");
    assert_eq!(bard.abilities, scores(8, 15, 13, 10, 13, 17));
    assert_eq!(bard.hit_points, 9);
    assert_eq!(bard.saving_throws, (Ability::Dexterity, Ability::Charisma));
    assert_eq!(bard.level, 1);
}

#[test]
fn build_is_the_same_every_time() {
    let rolled = scores(8, 14, 12, 10, 13, 15);
    let answers = [2, 3, 16, 2, 3];
    let first =
        build(Race::HalfElf, Class::Bard, Background::Entertainer, rolled, &answers).unwrap();
    for _ in 0..20 {
        let again =
            build(Race::HalfElf, Class::Bard, Background::Entertainer, rolled, &answers).unwrap();
        assert_eq!(again.name, first.name);
        assert_eq!(again.race, first.race);
        assert_eq!(again.class, first.class);
        assert_eq!(again.background, first.background);
        assert_eq!(again.level, first.level);
        assert_eq!(again.abilities, first.abilities);
        assert_eq!(again.hit_points, first.hit_points);
        assert_eq!(again.skills.to_vec(), first.skills.to_vec());
        assert_eq!(again.expertise.to_vec(), first.expertise.to_vec());
        assert_eq!(again.saving_throws, first.saving_throws);
    }
}

#[test]
fn every_build_without_choices_is_consistent() {
    let races = [
        Race::Human,
        Race::Elf,
        Race::Dwarf,
        Race::Halfling,
        Race::Dragonborn,
        Race::Gnome,
        Race::HalfOrc,
        Race::Tiefling,
    ];
    let classes = [
        Class::Barbarian,
        Class::Cleric,
        Class::Druid,
        Class::Fighter,
        Class::Monk,
        Class::Paladin,
        Class::Sorcerer,
        Class::Warlock,
        Class::Wizard,
    ];
    let rolled = scores(3, 18, 3, 18, 3, 18);
    for race in races.iter() {
        for class in classes.iter() {
            let built = build(*race, *class, Background::Hermit, rolled, &[]).unwrap();
            assert!(built.skills.len() >= 2);
            assert!(built.skills.contains(Skill::Medicine));
            assert!(built.skills.contains(Skill::Religion));
            for skill in race.racial_skills() {
                assert!(built.skills.contains(skill));
            }
            assert!(built.expertise.is_empty());
            assert!(built.hit_points >= 1);
            assert_eq!(built.saving_throws, class.saving_throws());
        }
    }
}
