//! Input-event pipeline and key-animation state engine of a key overlay.
//!
//! Press and release messages are carried by a bounded, lossy
//! [`transport::Transport`], dispatched through a [`key_map::KeyMap`] to the
//! indicators that the key drives, turned into hold states and finished bars by
//! [`key_handler::KeyHandler`], and sampled once per frame as
//! [`bar_rect::BarRect`] descriptors. [`key_overlay_core::KeyOverlayCore`] ties
//! these together into one tick.
//!
//! Time is counted in nanoseconds since an epoch that the caller picks. Lengths
//! are whole numbers of one unit throughout, and bar speeds are that unit per
//! second.

pub mod bar_rect;
pub mod key;
pub mod key_bar;
pub mod key_draw_cache;
pub mod key_handler;
pub mod key_handler_lemmas;
pub mod key_map;
pub mod key_message;
pub mod key_overlay_core;
pub mod key_property;
pub mod msg_hook;
pub mod setting;
pub mod transport;
pub mod u_color32;
pub mod virtual_key_codes;
