//! A verified bridge layer between an embedded scripting engine and a
//! windowing/rendering/input backend.
//!
//! The library models the hardware context as a state machine over plain
//! values: which resources (window, drawing surface, event source) exist,
//! which operations they gate, how script-level arguments are narrowed to
//! the fixed-width types the backend takes, and how every failure is
//! reported. The host process performs the actual backend calls and feeds
//! their outcomes back in as ordinary values, so every decision the bridge
//! makes is verified.

mod bridge;
mod context;
mod error;
mod input;
mod random;

pub use bridge::bridge_clear;
pub use bridge::bridge_create_window;
pub use bridge::bridge_delay;
pub use bridge::bridge_draw_line;
pub use bridge::bridge_draw_point;
pub use bridge::bridge_draw_rect;
pub use bridge::bridge_fill_rect;
pub use bridge::bridge_get_mouse_position;
pub use bridge::bridge_init_event_pump;
pub use bridge::bridge_is_key_down;
pub use bridge::bridge_is_mouse_button_down;
pub use bridge::bridge_poll_event;
pub use bridge::bridge_present;
pub use bridge::bridge_rand;
pub use bridge::bridge_set_draw_color;
pub use bridge::narrow_i32;
pub use bridge::narrow_u32;
pub use bridge::narrow_u8;
pub use context::Color;
pub use context::Point;
pub use context::PolledEvent;
pub use context::Rect;
pub use context::SDLContext;
pub use context::WindowInfo;
pub use context::lemma_no_window_no_canvas;
pub use error::SdlError;
pub use input::KeyName;
pub use input::KeySnapshot;
pub use input::MouseButtonName;
pub use input::MouseSnapshot;
pub use input::char_matches_folded;
pub use input::fold_code;
pub use input::key_of;
pub use input::lemma_case_variant_is_folding;
pub use input::matches_keyword;
pub use input::mouse_button_of;
pub use input::parse_key;
pub use input::parse_mouse_button;
pub use random::rand_range;
