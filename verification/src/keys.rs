//! The keys of the on-screen keyboard.

use vstd::prelude::*;

verus! {

pub const VK_BACK: u16 = 0x08;
pub const VK_RETURN: u16 = 0x0d;
pub const VK_SPACE: u16 = 0x20;
pub const VK_LEFT: u16 = 0x25;
pub const VK_UP: u16 = 0x26;
pub const VK_RIGHT: u16 = 0x27;
pub const VK_DOWN: u16 = 0x28;

/// What a key does.
#[derive(Clone, Copy, Debug, PartialEq, Eq, Structural)]
pub enum KeyAction {
    Char(char),
    Vk(u16),
    Shift,
    CapsLock,
    Symbols,
    CloseVk,
    VoiceInput,
    Paste,
    PredictPrev,
    PredictNext,
}

/// A key: what it does and what is written on it.
#[derive(Debug)]
pub struct KeyCell {
    pub action: KeyAction,
    pub label: String,
    pub sublabel: Option<String>,
}

/// A row of keys, from left to right.
#[derive(Debug)]
pub struct KeyRow {
    pub keys: Vec<KeyCell>,
}

/// A place on the keyboard.
#[derive(Clone, Copy, Debug, PartialEq, Eq, Structural)]
pub struct KeyPos {
    pub row: usize,
    pub col: usize,
}

/// The look of the keyboard.
#[derive(Clone, Copy, Debug, PartialEq, Eq, Structural)]
pub enum VkStyle {
    Refined,
    Apple,
}

} // verus!
