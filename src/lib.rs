//! Small verified building blocks: integer helpers, generic containers,
//! string helpers, and the decision logic of a number-guessing game.

pub mod math;
pub mod number;
pub mod guess;
pub mod generic;
pub mod counter;
pub mod higher_order;
pub mod visibility;
pub mod describe;
pub mod derived;
pub mod strings;
