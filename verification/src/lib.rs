//! Display, timing and input logic for LEGO EV3 bricks running EV3RT.
pub mod glyph;
pub mod glyph_code;
pub mod glyph_table;
pub mod layout;
pub mod font;
pub mod screen;
pub mod window;
pub mod lcd;
pub mod time;
pub mod value;
pub mod buttons;
pub mod devices;
pub mod brick;
