use dnd_character::skill::{Skill, SkillSet};

#[test]
fn a_new_set_is_empty() {
    let set = SkillSet::new();
    assert!(set.is_empty());
    assert_eq!(set.len(), 0);
    assert!(!set.contains(Skill::Arcana));
    assert_eq!(set.to_vec(), Vec::<Skill>::new());
}

#[test]
fn insert_adds_a_skill_once() {
    let mut set = SkillSet::new();
    assert!(set.insert(Skill::Stealth));
    assert!(set.insert(Skill::Arcana));
    assert!(!set.insert(Skill::Stealth));
    assert_eq!(set.len(), 2);
    assert!(!set.is_empty());
    assert!(set.contains(Skill::Stealth));
    assert!(set.contains(Skill::Arcana));
    assert!(!set.contains(Skill::History));
}

#[test]
fn members_keep_the_order_in_which_they_came() {
    let mut set = SkillSet::new();
    set.insert(Skill::Survival);
    set.insert(Skill::Acrobatics);
    set.insert(Skill::Survival);
    set.insert(Skill::Medicine);
    assert_eq!(set.to_vec(), vec![Skill::Survival, Skill::Acrobatics, Skill::Medicine]);
    assert_eq!(set.get(0), Skill::Survival);
    assert_eq!(set.get(1), Skill::Acrobatics);
    assert_eq!(set.get(2), Skill::Medicine);
}

#[test]
fn insert_all_skips_what_is_there() {
    let mut set = SkillSet::new();
    set.insert(Skill::Insight);
    set.insert_all(&vec![Skill::Religion, Skill::Insight, Skill::Nature, Skill::Religion]);
    assert_eq!(set.to_vec(), vec![Skill::Insight, Skill::Religion, Skill::Nature]);
    set.insert_all(&Vec::new());
    assert_eq!(set.len(), 3);
}
