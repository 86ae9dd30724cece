//! The rules of a terminal snake game: grid geometry, the snake's
//! movement and growth, the target it chases, the frame buffer that turns
//! grid cells into screen cells, and the per-frame decisions of the game.
//!
//! Nothing here touches the terminal. A driver reads the screen size and the
//! keys, hands them over as plain values, and writes out the cells that
//! [`renderer::Renderer::put`] returns.

pub mod apple;
pub mod game;
pub mod renderer;
pub mod snake;
pub mod util;
