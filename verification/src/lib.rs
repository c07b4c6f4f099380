//! The rules of a small online action RPG, stated and proved: item and
//! equipment bookkeeping, the spell hotbar and casting pipeline, Root Word
//! inscriptions, markets and Gold, gathering, the dragon encounter's
//! decisions, presence, the client's connection flow, and map manifest
//! validation.
//!
//! Everything that touches the database, the network, the clock or floating
//! point stays with the caller, which hands these functions the facts it
//! measured and applies the decisions they return.

pub mod boss;
pub mod casting;
pub mod chat;
pub mod crowd_control;
pub mod economy;
pub mod gathering;
pub mod hotbar;
pub mod ids;
pub mod inscriptions;
pub mod items;
pub mod lifecycle;
pub mod market;
pub mod mode;
pub mod names;
pub mod presence;
pub mod rows;
pub mod session;
pub mod text;
pub mod world;
