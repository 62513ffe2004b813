//! A fixed registry of the playable factions and the names each one goes by.

pub mod faction;
pub mod registry;

pub use faction::FactionId::{Caylion, Eniet, Faderan, Imdril, Kit, Kjas, Unity, Yengii, Zeth};
pub use faction::{FactionId, FactionType, RoundId, FACTION_COUNT};
pub use registry::{all_factions, faction_names, FactionNames};
