//! Dice: a single die, and the procedure that rolls an ability score from
//! four six-sided dice of which the lowest is dropped.

use crate::ability::AbilityScores;
use rand::Rng;
use vstd::prelude::*;

verus! {

/// Why a die could not be rolled.
#[derive(Debug, PartialEq, Eq, Clone, Copy, Structural)]
pub enum DiceError {
    /// The die has no side.
    InvalidInput,
}

/// Draws one face of a die with `sides` sides from the thread-local
/// generator of `rand`, by `Rng::gen_range` on the inclusive range from 1 to
/// `sides`. The range is not empty, as `gen_range` demands, and the face it
/// returns lies in that range. Which face comes is left open.
#[verifier::external_body]
fn random_face(sides: u8) -> (face: u8)
    requires
        sides >= 1,
    ensures
        1 <= face <= sides,
{
    rand::thread_rng().gen_range(1..=sides)
}

/// Rolls a die with `sides` sides. A die without a side cannot be rolled.
pub fn roll_die(sides: u8) -> (roll: Result<u8, DiceError>)
    ensures
        sides < 1 <==> roll == Err::<u8, DiceError>(DiceError::InvalidInput),
        sides >= 1 <==> roll.is_ok(),
        roll matches Ok(face) ==> 1 <= face <= sides,
{
    if sides < 1 {
        Err(DiceError::InvalidInput)
    } else {
        Ok(random_face(sides))
    }
}

/// The lowest of four rolls.
pub open spec fn lowest_roll(rolls: Seq<u8>) -> int
    recommends
        rolls.len() == 4,
{
    let low_a = if rolls[0] <= rolls[1] {
        rolls[0]
    } else {
        rolls[1]
    };
    let low_b = if rolls[2] <= rolls[3] {
        rolls[2]
    } else {
        rolls[3]
    };
    if low_a <= low_b {
        low_a as int
    } else {
        low_b as int
    }
}

/// The sum of four rolls.
pub open spec fn sum_of_rolls(rolls: Seq<u8>) -> int
    recommends
        rolls.len() == 4,
{
    rolls[0] + rolls[1] + rolls[2] + rolls[3]
}

/// The sum of the three highest of four rolls: one instance of the lowest
/// roll is left out, whether or not other dice show the same.
pub open spec fn three_highest_sum(rolls: Seq<u8>) -> int
    recommends
        rolls.len() == 4,
{
    sum_of_rolls(rolls) - lowest_roll(rolls)
}

/// Leaving out the lowest roll gives the largest sum that three of the four
/// dice can show: leaving out any other die gives no more, and the sum is
/// reached by leaving out one of them.
pub proof fn lemma_three_highest_sum(rolls: Seq<u8>)
    requires
        rolls.len() == 4,
    ensures
        forall|i: int| 0 <= i < 4 ==> sum_of_rolls(rolls) - rolls[i] <= three_highest_sum(rolls),
        exists|i: int| 0 <= i < 4 && three_highest_sum(rolls) == sum_of_rolls(rolls) - rolls[i],
{
    let low = lowest_roll(rolls);
    if low == rolls[0] {
        assert(three_highest_sum(rolls) == sum_of_rolls(rolls) - rolls[0]);
    } else if low == rolls[1] {
        assert(three_highest_sum(rolls) == sum_of_rolls(rolls) - rolls[1]);
    } else if low == rolls[2] {
        assert(three_highest_sum(rolls) == sum_of_rolls(rolls) - rolls[2]);
    } else {
        assert(three_highest_sum(rolls) == sum_of_rolls(rolls) - rolls[3]);
    }
}

/// The rolls are four faces of a six-sided die.
pub open spec fn four_six_sided(rolls: Seq<u8>) -> bool {
    &&& rolls.len() == 4
    &&& forall|i: int| 0 <= i < 4 ==> 1 <= #[trigger] rolls[i] <= 6
}

/// Four rolls of a six-sided die give a score between 3 and 18.
pub proof fn lemma_score_range(rolls: Seq<u8>)
    requires
        four_six_sided(rolls),
    ensures
        3 <= three_highest_sum(rolls) <= 18,
{
    assert(1 <= rolls[0] <= 6);
    assert(1 <= rolls[1] <= 6);
    assert(1 <= rolls[2] <= 6);
    assert(1 <= rolls[3] <= 6);
}

/// Computes the ability score that four rolls give: the sum of the three
/// highest.
pub fn ability_score_from_rolls(rolls: [u8; 4]) -> (score: u8)
    requires
        three_highest_sum(rolls@) <= u8::MAX,
    ensures
        score == three_highest_sum(rolls@),
{
    let mut lowest: u8 = rolls[0];
    let mut total: u16 = rolls[0] as u16;
    let mut i: usize = 1;
    while i < 4
        invariant
            1 <= i <= 4,
            rolls@.len() == 4,
            i == 1 ==> lowest == rolls@[0] && total == rolls@[0],
            i == 2 ==> lowest == (if rolls@[0] <= rolls@[1] {
                rolls@[0]
            } else {
                rolls@[1]
            }) && total == rolls@[0] + rolls@[1],
            i == 3 ==> lowest <= rolls@[0] && lowest <= rolls@[1] && lowest <= rolls@[2] && (
            lowest == rolls@[0] || lowest == rolls@[1] || lowest == rolls@[2]) && total
                == rolls@[0] + rolls@[1] + rolls@[2],
            i == 4 ==> lowest == lowest_roll(rolls@) && total == sum_of_rolls(rolls@),
        decreases 4 - i,
    {
        if rolls[i] < lowest {
            lowest = rolls[i];
        }
        total = total + rolls[i] as u16;
        i += 1;
    }
    (total - lowest as u16) as u8
}

/// Rolls four six-sided dice and returns the sum of the three highest. Which
/// faces the dice show is left open; the score is what four such faces give.
pub fn roll_ability_score() -> (score: u8)
    ensures
        3 <= score <= 18,
        exists|rolls: Seq<u8>| #[trigger]
            four_six_sided(rolls) && score == three_highest_sum(rolls),
{
    let first = roll_die(6).unwrap();
    let second = roll_die(6).unwrap();
    let third = roll_die(6).unwrap();
    let fourth = roll_die(6).unwrap();
    let rolls = [first, second, third, fourth];
    proof {
        assert(four_six_sided(rolls@));
        lemma_score_range(rolls@);
    }
    ability_score_from_rolls(rolls)
}

/// Rolls the six ability scores, one after the other in the order
/// Strength, Dexterity, Constitution, Intelligence, Wisdom, Charisma.
pub fn generate_ability_scores() -> (scores: AbilityScores)
    ensures
        scores.in_rolled_range(),
{
    let strength = roll_ability_score();
    let dexterity = roll_ability_score();
    let constitution = roll_ability_score();
    let intelligence = roll_ability_score();
    let wisdom = roll_ability_score();
    let charisma = roll_ability_score();
    AbilityScores { strength, dexterity, constitution, intelligence, wisdom, charisma }
}

} // verus!
