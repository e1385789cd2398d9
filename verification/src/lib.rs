//! Core logic of the IDC launcher: Discord sign-in state, skin service
//! requests, user records and the game launch plan.

pub mod discord;
pub mod json;
pub mod text;
pub mod web;
pub mod database;
pub mod skin;
pub mod game;
