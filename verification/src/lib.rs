//! A number-guessing game and the small helpers around it.
//!
//! The game itself lives in four modules: [`target`] draws the hidden
//! number, [`parser`] reads a line of text as a guess, [`comparison`] orders
//! the guess against the target, and [`session`] drives the cycle of
//! reading, validating, comparing and answering until the guess matches.
//! [`decimal`] writes numbers the way the parser reads them.
//!
//! The other modules hold helpers on numbers, text and a few plain data
//! types.

pub mod arith;
pub mod coins;
pub mod comparison;
pub mod decimal;
pub mod guess;
pub mod message;
pub mod parser;
pub mod point;
pub mod rectangle;
pub mod restaurant;
pub mod session;
pub mod summary;
pub mod target;
pub mod text;
pub mod users;
