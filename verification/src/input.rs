//! Controller input with state change detection.
//!
//! [`Controller`] keeps the current and previous pad readings so presses
//! and releases can be told apart from held buttons. Sampling the pad is
//! platform work done outside this library; each fresh reading is handed
//! to [`Controller::update`] as a plain value.

use vstd::prelude::*;

verus! {

/// A set of controller buttons as a bit mask.
#[derive(Debug, Clone, Copy, PartialEq, Eq, Structural)]
pub struct CtrlButtons(pub u32);

impl CtrlButtons {
    /// Whether every button of `other` is in this set.
    pub fn contains(self, other: CtrlButtons) -> (r: bool)
        ensures
            r == (self.0 & other.0 == other.0),
    {
        self.0 & other.0 == other.0
    }
}

/// One pad reading: the buttons held and the analog stick position.
#[derive(Debug, Clone, Copy, PartialEq, Eq, Structural)]
pub struct SceCtrlData {
    /// Buttons held during the reading.
    pub buttons: CtrlButtons,
    /// Analog stick X (0..=255, 128 is centre).
    pub lx: u8,
    /// Analog stick Y (0..=255, 128 is centre).
    pub ly: u8,
}

impl SceCtrlData {
    /// The neutral reading: no buttons, stick centred at 128.
    pub fn neutral() -> (r: Self)
        ensures
            r == (SceCtrlData { buttons: CtrlButtons(0), lx: 128, ly: 128 }),
    {
        SceCtrlData { buttons: CtrlButtons(0), lx: 128, ly: 128 }
    }
}

/// High-level controller input with state change detection. Feed one
/// reading per frame to [`Controller::update`], then query buttons.
pub struct Controller {
    /// The most recent reading.
    pub current: SceCtrlData,
    /// The reading from the frame before.
    pub previous: SceCtrlData,
}

impl Controller {
    /// A controller with zeroed initial state.
    pub fn new() -> (r: Self)
        ensures
            r.current == (SceCtrlData { buttons: CtrlButtons(0), lx: 0, ly: 0 }),
            r.previous == (SceCtrlData { buttons: CtrlButtons(0), lx: 0, ly: 0 }),
    {
        let zero = SceCtrlData { buttons: CtrlButtons(0), lx: 0, ly: 0 };
        Controller { current: zero, previous: zero }
    }

    /// Take in this frame's pad reading: the old current reading becomes
    /// the previous one.
    pub fn update(&mut self, reading: SceCtrlData)
        ensures
            final(self).current == reading,
            final(self).previous == old(self).current,
    {
        self.previous = self.current;
        self.current = reading;
    }

    /// Whether the button is currently held down.
    pub fn is_held(&self, button: CtrlButtons) -> (r: bool)
        ensures
            r == (self.current.buttons.0 & button.0 == button.0),
    {
        self.current.buttons.contains(button)
    }

    /// Whether the button was just pressed this frame: down now, not down
    /// last frame.
    pub fn is_pressed(&self, button: CtrlButtons) -> (r: bool)
        ensures
            r == ((self.current.buttons.0 & button.0 == button.0) && !(self.previous.buttons.0
                & button.0 == button.0)),
    {
        self.current.buttons.contains(button) && !self.previous.buttons.contains(button)
    }

    /// Whether the button was just released this frame: not down now, down
    /// last frame.
    pub fn is_released(&self, button: CtrlButtons) -> (r: bool)
        ensures
            r == (!(self.current.buttons.0 & button.0 == button.0) && (self.previous.buttons.0
                & button.0 == button.0)),
    {
        !self.current.buttons.contains(button) && self.previous.buttons.contains(button)
    }

    /// Raw analog stick X value (0..=255, 128 is centre).
    pub fn analog_x(&self) -> (r: u8)
        ensures
            r == self.current.lx,
    {
        self.current.lx
    }

    /// Raw analog stick Y value (0..=255, 128 is centre).
    pub fn analog_y(&self) -> (r: u8)
        ensures
            r == self.current.ly,
    {
        self.current.ly
    }

    /// The raw current reading.
    pub fn raw(&self) -> (r: &SceCtrlData)
        ensures
            r == self.current,
    {
        &self.current
    }

    /// The raw previous-frame reading.
    pub fn raw_previous(&self) -> (r: &SceCtrlData)
        ensures
            r == self.previous,
    {
        &self.previous
    }
}

impl Default for Controller {
    /// Same as [`Controller::new`].
    fn default() -> (r: Self)
        ensures
            r.current == (SceCtrlData { buttons: CtrlButtons(0), lx: 0, ly: 0 }),
            r.previous == (SceCtrlData { buttons: CtrlButtons(0), lx: 0, ly: 0 }),
    {
        Controller::new()
    }
}

} // verus!
