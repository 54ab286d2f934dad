pub mod app;
pub mod app_model;
pub mod config;
pub mod events;
pub mod game_model;
pub mod game_state;
mod lua_bridge;
pub mod movement;
pub mod script_trace;
pub mod update_reply;
