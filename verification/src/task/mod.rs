//! Tasks the bot works through: their outcomes, tracked status, groups and simple tasks.

pub mod outcome;
pub mod group;
pub mod simple;
pub mod eat;
pub mod container;
pub mod affect;
pub mod sip;
pub mod center;
pub mod attack;
pub mod pathfind;
