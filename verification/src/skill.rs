//! The eighteen skills, the ability that governs each, and sets of skills.

use crate::ability::Ability;
use vstd::prelude::*;

verus! {

/// One of the eighteen skills a character can be proficient in.
#[derive(Debug, Hash, PartialEq, Eq, Clone, Copy, Structural)]
pub enum Skill {
    Acrobatics,
    AnimalHandling,
    Arcana,
    Athletics,
    Deception,
    History,
    Insight,
    Intimidation,
    Investigation,
    Medicine,
    Nature,
    Perception,
    Performance,
    Persuasion,
    Religion,
    SleightOfHand,
    Stealth,
    Survival,
}

impl Skill {
    /// The ability that governs this skill.
    pub open spec fn spec_associated_ability(self) -> Ability {
        match self {
            Skill::Acrobatics => Ability::Dexterity,
            Skill::AnimalHandling => Ability::Wisdom,
            Skill::Arcana => Ability::Intelligence,
            Skill::Athletics => Ability::Strength,
            Skill::Deception => Ability::Charisma,
            Skill::History => Ability::Intelligence,
            Skill::Insight => Ability::Wisdom,
            Skill::Intimidation => Ability::Charisma,
            Skill::Investigation => Ability::Intelligence,
            Skill::Medicine => Ability::Wisdom,
            Skill::Nature => Ability::Intelligence,
            Skill::Perception => Ability::Wisdom,
            Skill::Performance => Ability::Charisma,
            Skill::Persuasion => Ability::Charisma,
            Skill::Religion => Ability::Intelligence,
            Skill::SleightOfHand => Ability::Dexterity,
            Skill::Stealth => Ability::Dexterity,
            Skill::Survival => Ability::Wisdom,
        }
    }

    /// Returns the ability that governs this skill.
    pub fn associated_ability(&self) -> (ability: Ability)
        ensures
            ability == self.spec_associated_ability(),
    {
        match self {
            Skill::Acrobatics => Ability::Dexterity,
            Skill::AnimalHandling => Ability::Wisdom,
            Skill::Arcana => Ability::Intelligence,
            Skill::Athletics => Ability::Strength,
            Skill::Deception => Ability::Charisma,
            Skill::History => Ability::Intelligence,
            Skill::Insight => Ability::Wisdom,
            Skill::Intimidation => Ability::Charisma,
            Skill::Investigation => Ability::Intelligence,
            Skill::Medicine => Ability::Wisdom,
            Skill::Nature => Ability::Intelligence,
            Skill::Perception => Ability::Wisdom,
            Skill::Performance => Ability::Charisma,
            Skill::Persuasion => Ability::Charisma,
            Skill::Religion => Ability::Intelligence,
            Skill::SleightOfHand => Ability::Dexterity,
            Skill::Stealth => Ability::Dexterity,
            Skill::Survival => Ability::Wisdom,
        }
    }
}

/// A sequence of skills with `skill` added at the end unless it is already
/// there.
pub open spec fn with_skill(order: Seq<Skill>, skill: Skill) -> Seq<Skill> {
    if order.contains(skill) {
        order
    } else {
        order.push(skill)
    }
}

/// Adding a skill keeps a duplicate-free sequence duplicate-free and adds
/// exactly that skill to the set of members.
pub proof fn lemma_with_skill(order: Seq<Skill>, skill: Skill)
    requires
        order.no_duplicates(),
    ensures
        with_skill(order, skill).no_duplicates(),
        with_skill(order, skill).to_set() == order.to_set().insert(skill),
        forall|other: Skill|
            with_skill(order, skill).contains(other) <==> (order.contains(other) || other
                == skill),
{
    let next = with_skill(order, skill);
    if order.contains(skill) {
        assert(next.to_set() =~= order.to_set().insert(skill));
    } else {
        order.lemma_push_to_set_commute(skill);
        assert forall|other: Skill| next.contains(other) <==> (order.contains(other) || other
            == skill) by {
            if next.contains(other) {
                let i = choose|i: int| 0 <= i < next.len() && next[i] == other;
                if i < order.len() {
                    assert(order[i] == other);
                }
            }
            if order.contains(other) {
                let i = choose|i: int| 0 <= i < order.len() && order[i] == other;
                assert(next[i] == other);
            }
            if other == skill {
                assert(next[order.len() as int] == other);
            }
        }
    }
}

/// A sequence of skills with each skill of `extra` added in turn, each at the
/// end unless it is already there.
pub open spec fn with_skills(order: Seq<Skill>, extra: Seq<Skill>) -> Seq<Skill>
    decreases extra.len(),
{
    if extra.len() == 0 {
        order
    } else {
        with_skill(with_skills(order, extra.drop_last()), extra.last())
    }
}

/// Adding several skills keeps a duplicate-free sequence duplicate-free,
/// keeps what was there at the front, and adds exactly those skills to the
/// members.
pub proof fn lemma_with_skills(order: Seq<Skill>, extra: Seq<Skill>)
    requires
        order.no_duplicates(),
    ensures
        with_skills(order, extra).no_duplicates(),
        order.is_prefix_of(with_skills(order, extra)),
        with_skills(order, extra).len() <= order.len() + extra.len(),
        forall|other: Skill|
            with_skills(order, extra).contains(other) <==> (order.contains(other)
                || extra.contains(other)),
    decreases extra.len(),
{
    let all = with_skills(order, extra);
    if extra.len() > 0 {
        let front = extra.drop_last();
        let before = with_skills(order, front);
        lemma_with_skills(order, front);
        lemma_with_skill(before, extra.last());
        assert forall|other: Skill| all.contains(other) <==> (order.contains(other)
            || extra.contains(other)) by {
            if extra.contains(other) {
                let i = choose|i: int| 0 <= i < extra.len() && extra[i] == other;
                if i < front.len() {
                    assert(front[i] == other);
                }
            }
            if front.contains(other) {
                let i = choose|i: int| 0 <= i < front.len() && front[i] == other;
                assert(extra[i] == other);
            }
            assert(extra[extra.len() - 1] == extra.last());
        }
    }
}

/// A duplicate-free sequence of skills that is longer than another holds a
/// skill that the other lacks.
pub proof fn lemma_skill_outside(all: Seq<Skill>, part: Seq<Skill>)
    requires
        all.no_duplicates(),
        part.len() < all.len(),
    ensures
        exists|i: int| 0 <= i < all.len() && !part.contains(#[trigger] all[i]),
{
    if forall|i: int| 0 <= i < all.len() ==> part.contains(#[trigger] all[i]) {
        assert forall|skill: Skill| all.to_set().contains(skill) implies part.to_set().contains(
            skill,
        ) by {
            let i = choose|i: int| 0 <= i < all.len() && all[i] == skill;
            assert(part.contains(all[i]));
        }
        all.unique_seq_to_set();
        part.lemma_cardinality_of_set();
        vstd::seq_lib::seq_to_set_is_finite(part);
        vstd::set_lib::lemma_len_subset(all.to_set(), part.to_set());
    }
}

/// A set of skills that remembers the order in which its members were added.
#[derive(Debug)]
pub struct SkillSet {
    members: Vec<Skill>,
}

impl View for SkillSet {
    type V = Set<Skill>;

    /// The members as a mathematical set.
    open spec fn view(&self) -> Set<Skill> {
        self.order().to_set()
    }
}

impl SkillSet {
    /// The members in the order in which they were added.
    pub closed spec fn order(&self) -> Seq<Skill> {
        self.members@
    }

    /// No skill occurs twice.
    pub open spec fn wf(&self) -> bool {
        self.order().no_duplicates()
    }

    /// In a well-formed set the number of members is the length of the order.
    pub proof fn lemma_len(&self)
        requires
            self.wf(),
        ensures
            self@.len() == self.order().len(),
            self@.finite(),
    {
        self.order().unique_seq_to_set();
        vstd::seq_lib::seq_to_set_is_finite(self.order());
    }

    /// Creates the empty set.
    pub fn new() -> (set: SkillSet)
        ensures
            set.wf(),
            set.order() == Seq::<Skill>::empty(),
            set@ == Set::<Skill>::empty(),
    {
        let set = SkillSet { members: Vec::new() };
        assert(set.order().to_set() =~= Set::<Skill>::empty());
        set
    }

    /// Tells whether `skill` is a member.
    pub fn contains(&self, skill: Skill) -> (found: bool)
        ensures
            found == self.order().contains(skill),
            found == self@.contains(skill),
    {
        let mut i: usize = 0;
        while i < self.members.len()
            invariant
                i <= self.members.len(),
                forall|j: int| 0 <= j < i ==> self.members@[j] != skill,
            decreases self.members.len() - i,
        {
            if self.members[i] == skill {
                return true;
            }
            i += 1;
        }
        false
    }

    /// Adds `skill` unless it is already a member, and tells whether it was
    /// added.
    pub fn insert(&mut self, skill: Skill) -> (added: bool)
        requires
            old(self).wf(),
        ensures
            final(self).wf(),
            final(self).order() == with_skill(old(self).order(), skill),
            final(self)@ == old(self)@.insert(skill),
            added == !old(self)@.contains(skill),
    {
        proof {
            lemma_with_skill(self.order(), skill);
        }
        if self.contains(skill) {
            false
        } else {
            self.members.push(skill);
            true
        }
    }

    /// Adds each skill of `skills` in turn unless it is already a member.
    pub fn insert_all(&mut self, skills: &Vec<Skill>)
        requires
            old(self).wf(),
        ensures
            final(self).wf(),
            final(self).order() == with_skills(old(self).order(), skills@),
    {
        let mut i: usize = 0;
        while i < skills.len()
            invariant
                i <= skills.len(),
                self.wf(),
                self.order() == with_skills(old(self).order(), skills@.take(i as int)),
            decreases skills.len() - i,
        {
            assert(skills@.take(i + 1).drop_last() =~= skills@.take(i as int));
            self.insert(skills[i]);
            i += 1;
        }
        assert(skills@.take(skills@.len() as int) =~= skills@);
    }

    /// Returns the member that was added at place `index`, counted from
    /// zero.
    pub fn get(&self, index: usize) -> (skill: Skill)
        requires
            index < self.order().len(),
        ensures
            skill == self.order()[index as int],
    {
        self.members[index]
    }

    /// The number of members.
    pub fn len(&self) -> (n: usize)
        ensures
            n == self.order().len(),
            self.wf() ==> n == self@.len(),
    {
        proof {
            if self.wf() {
                self.lemma_len();
            }
        }
        self.members.len()
    }

    /// Tells whether the set has no member.
    pub fn is_empty(&self) -> (empty: bool)
        ensures
            empty == (self.order().len() == 0),
            empty == (self@ == Set::<Skill>::empty()),
    {
        proof {
            if self.order().len() == 0 {
                assert(self@ =~= Set::<Skill>::empty());
            } else {
                assert(self.order().contains(self.order()[0]));
                assert(self@.contains(self.order()[0]));
            }
        }
        self.members.len() == 0
    }

    /// The members as a vector, in the order in which they were added.
    pub fn to_vec(&self) -> (list: Vec<Skill>)
        ensures
            list@ == self.order(),
    {
        let mut list: Vec<Skill> = Vec::new();
        let mut i: usize = 0;
        while i < self.members.len()
            invariant
                i <= self.members.len(),
                list@ == self.members@.take(i as int),
            decreases self.members.len() - i,
        {
            list.push(self.members[i]);
            assert(self.members@.take(i + 1) =~= self.members@.take(i as int).push(
                self.members@[i as int],
            ));
            i += 1;
        }
        assert(self.members@.take(self.members@.len() as int) =~= self.members@);
        list
    }
}

} // verus!
