pub mod lemmas;
pub mod state;
pub mod text;
pub mod update;
