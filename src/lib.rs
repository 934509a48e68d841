//! Simulation core of a snake game on a toroidal board: movement and growth,
//! self-collision, apple placement, sprite selection for the body, the
//! START / PLAYING / PAUSED / GAMEOVER state machine, and where cells lie on
//! screen.
pub mod apple;
pub mod game;
pub mod grid;
pub mod layout;
pub mod orientation;
pub mod snake;
