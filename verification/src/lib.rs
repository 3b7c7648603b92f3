//! Rules engine for creating a level-one tabletop role-playing character.
//!
//! The crate holds the rules tables (races, classes, backgrounds, skills),
//! the dice procedure for ability scores, the step-by-step character builder
//! and the formulas for the statistics derived from a finished character.
//! Two further modules hold small exercises in arithmetic and with strings.
//! Every function carries a contract that Verus proves; the one exception is
//! the drawing of a random die face, whose contract is taken on trust.

pub mod ability;
pub mod arith;
pub mod background;
pub mod builder;
pub mod character;
pub mod class;
pub mod dice;
pub mod menu;
pub mod race;
pub mod skill;
pub mod text;
