//! Verified core of a Minecraft stasis and disc jockey bot: the NBS song
//! format, note block tuning, playback rate limiting, task scheduling,
//! stasis chamber bookkeeping, chat handling and webhook messages.

pub mod text;
pub mod clock;
pub mod random;
pub mod blockpos;
pub mod nbs;
pub mod dj;
pub mod task;
pub mod chat;
pub mod stasis;
pub mod webhook;
pub mod modules;
pub mod beer;
pub mod commands;
pub mod armor;
pub mod soundness;
pub mod visual_range;
pub mod auto_tpa;
pub mod killaura;
pub mod emergency_quit;
pub mod devnet;
