//! Interaction and dialogue flow for a small 3D exploration scene: a proximity
//! index over NPC positions, last-in-first-out dialogue queues, the player's
//! lock state, and the per-frame trigger and advance steps that tie them together.

pub mod components;
pub mod dialogue;
pub mod spatial;
pub mod interaction;
pub mod player;
pub mod scene;
