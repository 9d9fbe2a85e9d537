//! The disc jockey: song queue, note block tuning plan and packet rate limiting.

pub mod rate_limit;
pub mod queue;
pub mod playback;
pub mod tune;
pub mod play;
pub mod tuner;
pub mod task;
pub mod search;
