//! Calculator cards.

pub mod sum;
