//! A personal master-data store: validated identity numbers, a profile that
//! holds them, the edit workflow that changes the profile one entry at a time,
//! and the stored form of the profile.

pub mod error;
pub mod text;

pub mod id_card;
pub mod post_number;
pub mod social_security_number;
pub mod tax_id;

pub mod profile;
pub mod record;

pub mod input;
pub mod state;
pub mod ui;
pub mod workflow;
