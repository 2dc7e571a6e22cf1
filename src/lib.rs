//! A text adventure's core: the player's command grammar, the zone graph,
//! movement, looking and taking, and the screen state machine.
pub mod commands;
pub mod history;
pub mod inventory;
pub mod navigation;
pub mod session;
pub mod state;
pub mod text;
pub mod zones;
