//! The decisions of a controller keyboard for Windows.
//!
//! Everything here is a function of plain values: what the pads read, what the
//! clock says, what the system answered. The windows, devices, files and sounds
//! themselves are the application's, which asks this library what to do next and
//! reports what came of it.
//!
//! - `xinput_backend`, `xusb_ioctl`, `pad_decode`: from readings of pads to button
//!   changes, on the desktop and on the sign-in screen.
//! - `native_keyboard`, `logon_focus`, `desktop`, `surface`: taking text input over
//!   from the system, and giving it back.
//! - `vk_ui`, `vk_frame`, `vk_renderer`, `vk_device`, `vk_icons`, `icon_raster`,
//!   `controller_art`, `downscale`: the keyboard's window and what it shows.
//! - `prompt_overlay`, `debug_overlay`, `controller_center`, `toast`,
//!   `desktop_window`, `xbox_vk`: the other windows.
//! - `speech_input`, `speech_wire`, `speech_stub`: dictation.
//! - `game_detect`, `monitor`: what is on screen.
//! - `keys`, `text`, `clock`, `win_stub`: shared ground.

pub mod clock;
pub mod controller_art;
pub mod controller_center;
pub mod debug_overlay;
pub mod desktop;
pub mod desktop_window;
pub mod downscale;
pub mod game_detect;
pub mod icon_raster;
pub mod keys;
pub mod logon_focus;
pub mod monitor;
pub mod native_keyboard;
pub mod pad_decode;
pub mod prompt_overlay;
pub mod speech_input;
pub mod speech_stub;
pub mod speech_wire;
pub mod surface;
pub mod text;
pub mod toast;
pub mod vk_device;
pub mod vk_frame;
pub mod vk_icons;
pub mod vk_renderer;
pub mod vk_ui;
pub mod win_stub;
pub mod xbox_vk;
pub mod xinput_backend;
pub mod xusb_ioctl;
