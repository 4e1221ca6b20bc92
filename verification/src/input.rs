//! The input tracker: converts a stream of raw, edge-triggered hardware
//! notifications into tri-state maps plus modifier, cursor and scroll
//! bookkeeping that application code polls once per fixed update step.
//!
//! Control identities are plain integer codes chosen by the host (for
//! example the discriminants of its key-code and button types); the tracker
//! only compares them for equality. Cursor and scroll coordinates are
//! carried as the raw bit patterns of the host's floating-point values and
//! are never interpreted here.

use vstd::prelude::*;

use crate::tristate::InputState;
use crate::tristate::StateMap;
use crate::tristate::decayed;

verus! {

/// Keyboard modifiers.
#[derive(Clone, Copy, Debug, PartialEq, Eq, Structural)]
pub struct KeyMods {
    /// Left "shift" key.
    pub lshift: bool,
    /// Right "shift" key.
    pub rshift: bool,
    /// Left "alt" key.
    pub lalt: bool,
    /// Right "alt" key.
    pub ralt: bool,
    /// Left "control" key.
    pub lcontrol: bool,
    /// Right "control" key.
    pub rcontrol: bool,
    /// Left "super" key. This is the "windows" key on PC and "command" key on Mac.
    pub lsuper: bool,
    /// Right "super" key. This is the "windows" key on PC and "command" key on Mac.
    pub rsuper: bool,
}

impl KeyMods {
    /// The modifier record with every key released.
    pub open spec fn all_released() -> KeyMods {
        KeyMods {
            lshift: false,
            rshift: false,
            lalt: false,
            ralt: false,
            lcontrol: false,
            rcontrol: false,
            lsuper: false,
            rsuper: false,
        }
    }
}

impl Default for KeyMods {
    /// Every modifier starts released.
    fn default() -> (r: KeyMods)
        ensures
            r == KeyMods::all_released(),
    {
        KeyMods {
            lshift: false,
            rshift: false,
            lalt: false,
            ralt: false,
            lcontrol: false,
            rcontrol: false,
            lsuper: false,
            rsuper: false,
        }
    }
}

/// Last-known cursor position: the raw bit patterns of the host's two
/// floating-point coordinates, stored and handed back uninterpreted.
#[derive(Clone, Copy, Debug, PartialEq, Eq, Structural)]
pub struct CursorPos {
    /// Bit pattern of the horizontal coordinate.
    pub x_bits: u64,
    /// Bit pattern of the vertical coordinate.
    pub y_bits: u64,
}

impl CursorPos {
    /// The coordinate the tracker starts at (both components zero).
    pub open spec fn origin() -> CursorPos {
        CursorPos { x_bits: 0, y_bits: 0 }
    }
}

/// The most recent scroll notification: raw bit patterns of the host's
/// floating-point deltas, in lines (wheel clicks) or pixels (touch
/// scrolling).
#[derive(Clone, Copy, Debug, PartialEq, Eq, Structural)]
#[allow(inconsistent_fields)]
pub enum ScrollDelta {
    /// Scroll measured in lines.
    Lines {
        /// Bit pattern of the horizontal line delta.
        x_bits: u32,
        /// Bit pattern of the vertical line delta.
        y_bits: u32,
    },
    /// Scroll measured in pixels.
    Pixels {
        /// Bit pattern of the horizontal pixel delta.
        x_bits: u64,
        /// Bit pattern of the vertical pixel delta.
        y_bits: u64,
    },
}

impl ScrollDelta {
    /// The "no scroll this tick" value: zero lines both ways.
    pub open spec fn neutral() -> ScrollDelta {
        ScrollDelta::Lines { x_bits: 0, y_bits: 0 }
    }
}

/// One raw hardware notification, as handed over by the host environment.
#[derive(Clone, Copy, Debug)]
pub enum RawEvent {
    /// A keyboard key changed state.
    Key {
        /// Physical key code, if the hardware reported a recognised one.
        physical: Option<u32>,
        /// Logical named-key symbol, if the key maps to one (printable
        /// character keys are not tracked by logical identity).
        logical: Option<u32>,
        /// Press edge (`true`) or release edge (`false`).
        pressed: bool,
        /// Auto-repeat notification for a key that is already down.
        repeat: bool,
        /// Synthetic notification, delivered for focus changes rather than
        /// for a physical transition.
        synthetic: bool,
    },
    /// The full modifier set changed.
    ModifiersChanged(KeyMods),
    /// The cursor moved.
    CursorMoved(CursorPos),
    /// The wheel or touchpad scrolled.
    Scroll(ScrollDelta),
    /// A mouse button changed state.
    MouseButton {
        /// Button identifier.
        button: u32,
        /// Press edge (`true`) or release edge (`false`).
        pressed: bool,
    },
    /// The host asked for the window to close.
    CloseRequested,
    /// Any other notification; the tracker ignores it.
    Other,
}

impl RawEvent {
    /// Whether this notification is the host's close request.
    pub fn is_close_requested(&self) -> (r: bool)
        ensures
            r == (*self is CloseRequested),
    {
        matches!(self, RawEvent::CloseRequested)
    }
}

/// The tri-state that one raw edge writes: a press edge writes `Pressed`,
/// a release edge writes `Released`.
pub open spec fn edge_state(pressed: bool) -> InputState {
    if pressed {
        InputState::Pressed
    } else {
        InputState::Released
    }
}

/// The physical-key map after one raw event: only a non-repeat,
/// non-synthetic key event with a resolved physical code writes an entry.
pub open spec fn physical_after(m: Map<u32, InputState>, event: RawEvent) -> Map<u32, InputState> {
    match event {
        RawEvent::Key { physical, pressed, repeat, synthetic, .. } => {
            if !repeat && !synthetic {
                match physical {
                    Some(code) => m.insert(code, edge_state(pressed)),
                    None => m,
                }
            } else {
                m
            }
        },
        _ => m,
    }
}

/// The logical-key map after one raw event: only a non-repeat,
/// non-synthetic key event with a named logical symbol writes an entry.
pub open spec fn logical_after(m: Map<u32, InputState>, event: RawEvent) -> Map<u32, InputState> {
    match event {
        RawEvent::Key { logical, pressed, repeat, synthetic, .. } => {
            if !repeat && !synthetic {
                match logical {
                    Some(sym) => m.insert(sym, edge_state(pressed)),
                    None => m,
                }
            } else {
                m
            }
        },
        _ => m,
    }
}

/// The mouse-button map after one raw event.
pub open spec fn buttons_after(m: Map<u32, InputState>, event: RawEvent) -> Map<u32, InputState> {
    match event {
        RawEvent::MouseButton { button, pressed } => m.insert(button, edge_state(pressed)),
        _ => m,
    }
}

/// The modifier record after one raw event: a modifier-change notification
/// overwrites it wholesale.
pub open spec fn mods_after(mods: KeyMods, event: RawEvent) -> KeyMods {
    match event {
        RawEvent::ModifiersChanged(m) => m,
        _ => mods,
    }
}

/// The cursor position after one raw event.
pub open spec fn cursor_after(pos: CursorPos, event: RawEvent) -> CursorPos {
    match event {
        RawEvent::CursorMoved(p) => p,
        _ => pos,
    }
}

/// The pending scroll delta after one raw event: the latest notification
/// wins; deltas are not accumulated within a tick.
pub open spec fn scroll_after(delta: ScrollDelta, event: RawEvent) -> ScrollDelta {
    match event {
        RawEvent::Scroll(d) => d,
        _ => delta,
    }
}

/// Repeat suppression: an auto-repeat key event leaves every tri-state map
/// unchanged, so it cannot reset a held control back to `Pressed`.
pub proof fn lemma_repeat_suppression(
    m: Map<u32, InputState>,
    physical: Option<u32>,
    logical: Option<u32>,
    pressed: bool,
    synthetic: bool,
)
    ensures
        physical_after(
            m,
            RawEvent::Key { physical, logical, pressed, repeat: true, synthetic },
        ) == m,
        logical_after(
            m,
            RawEvent::Key { physical, logical, pressed, repeat: true, synthetic },
        ) == m,
        buttons_after(
            m,
            RawEvent::Key { physical, logical, pressed, repeat: true, synthetic },
        ) == m,
{
}

/// Input handler.
#[derive(Debug)]
pub struct Input {
    mods: KeyMods,
    physical_keys: StateMap,
    logical_keys: StateMap,
    mouse_buttons: StateMap,
    cursor_pos: CursorPos,
    mouse_scroll: ScrollDelta,
}

impl Input {
    /// The tri-state map over physical key codes.
    pub closed spec fn physical_map(&self) -> Map<u32, InputState> {
        self.physical_keys@
    }

    /// The tri-state map over logical named-key symbols.
    pub closed spec fn logical_map(&self) -> Map<u32, InputState> {
        self.logical_keys@
    }

    /// The tri-state map over mouse buttons.
    pub closed spec fn button_map(&self) -> Map<u32, InputState> {
        self.mouse_buttons@
    }

    /// The current modifier record.
    pub closed spec fn mods_value(&self) -> KeyMods {
        self.mods
    }

    /// The last-known cursor position.
    pub closed spec fn cursor_value(&self) -> CursorPos {
        self.cursor_pos
    }

    /// The pending scroll delta.
    pub closed spec fn scroll_value(&self) -> ScrollDelta {
        self.mouse_scroll
    }

    /// Whether the tracker is in its start state: no control tracked, no
    /// modifier set, the cursor at the origin and no pending scroll.
    pub open spec fn is_fresh(&self) -> bool {
        &&& self.physical_map() == Map::<u32, InputState>::empty()
        &&& self.logical_map() == Map::<u32, InputState>::empty()
        &&& self.button_map() == Map::<u32, InputState>::empty()
        &&& self.mods_value() == KeyMods::all_released()
        &&& self.cursor_value() == CursorPos::origin()
        &&& self.scroll_value() == ScrollDelta::neutral()
    }

    /// A tracker in its start state.
    pub fn new() -> (r: Input)
        ensures
            r.is_fresh(),
    {
        Input {
            mods: KeyMods::default(),
            physical_keys: StateMap::new(),
            logical_keys: StateMap::new(),
            mouse_buttons: StateMap::new(),
            cursor_pos: CursorPos { x_bits: 0, y_bits: 0 },
            mouse_scroll: ScrollDelta::Lines { x_bits: 0, y_bits: 0 },
        }
    }

    /// Cursor position from the latest cursor-move notification.
    pub fn cursor_pos(&self) -> (r: CursorPos)
        ensures
            r == self.cursor_value(),
    {
        self.cursor_pos
    }

    /// Mouse scroll value.
    pub fn mouse_scroll(&self) -> (r: ScrollDelta)
        ensures
            r == self.scroll_value(),
    {
        self.mouse_scroll
    }

    /// Get current keyboard modifiers.
    pub fn key_mods(&self) -> (r: KeyMods)
        ensures
            r == self.mods_value(),
    {
        self.mods
    }

    /// All input states of physical keys.
    pub fn physical_keys(&self) -> (r: &StateMap)
        ensures
            r@ == self.physical_map(),
    {
        &self.physical_keys
    }

    /// Returns `true` if a physical key has just been pressed.
    pub fn is_physical_key_pressed(&self, scancode: u32) -> (r: bool)
        ensures
            r == (self.physical_map().contains_key(scancode) && self.physical_map()[scancode]
                is Pressed),
    {
        match self.physical_keys.get(scancode) {
            Some(state) => state.is_pressed(),
            None => false,
        }
    }

    /// Returns `true` if a physical key is down.
    pub fn is_physical_key_down(&self, scancode: u32) -> (r: bool)
        ensures
            r == (self.physical_map().contains_key(scancode) && (self.physical_map()[scancode]
                is Pressed || self.physical_map()[scancode] is Down)),
    {
        match self.physical_keys.get(scancode) {
            Some(state) => state.is_any_down(),
            None => false,
        }
    }

    /// Returns `true` if a physical key has just been released.
    pub fn is_physical_key_released(&self, scancode: u32) -> (r: bool)
        ensures
            r == (self.physical_map().contains_key(scancode) && self.physical_map()[scancode]
                is Released),
    {
        match self.physical_keys.get(scancode) {
            Some(state) => state.is_released(),
            None => false,
        }
    }

    /// All input states of logical keys.
    pub fn logical_keys(&self) -> (r: &StateMap)
        ensures
            r@ == self.logical_map(),
    {
        &self.logical_keys
    }

    /// Returns `true` if a logical key has just been pressed.
    pub fn is_logical_key_pressed(&self, key: u32) -> (r: bool)
        ensures
            r == (self.logical_map().contains_key(key) && self.logical_map()[key] is Pressed),
    {
        match self.logical_keys.get(key) {
            Some(state) => state.is_pressed(),
            None => false,
        }
    }

    /// Returns `true` if a logical key is down.
    pub fn is_logical_key_down(&self, key: u32) -> (r: bool)
        ensures
            r == (self.logical_map().contains_key(key) && (self.logical_map()[key] is Pressed
                || self.logical_map()[key] is Down)),
    {
        match self.logical_keys.get(key) {
            Some(state) => state.is_any_down(),
            None => false,
        }
    }

    /// Returns `true` if a logical key has just been released.
    pub fn is_logical_key_released(&self, key: u32) -> (r: bool)
        ensures
            r == (self.logical_map().contains_key(key) && self.logical_map()[key] is Released),
    {
        match self.logical_keys.get(key) {
            Some(state) => state.is_released(),
            None => false,
        }
    }

    /// All input states of mouse buttons.
    pub fn mouse_buttons(&self) -> (r: &StateMap)
        ensures
            r@ == self.button_map(),
    {
        &self.mouse_buttons
    }

    /// Returns `true` if a mouse button has just been pressed.
    pub fn is_mouse_button_pressed(&self, button: u32) -> (r: bool)
        ensures
            r == (self.button_map().contains_key(button) && self.button_map()[button] is Pressed),
    {
        match self.mouse_buttons.get(button) {
            Some(state) => state.is_pressed(),
            None => false,
        }
    }

    /// Returns `true` if a mouse button is down.
    pub fn is_mouse_button_down(&self, button: u32) -> (r: bool)
        ensures
            r == (self.button_map().contains_key(button) && (self.button_map()[button] is Pressed
                || self.button_map()[button] is Down)),
    {
        match self.mouse_buttons.get(button) {
            Some(state) => state.is_any_down(),
            None => false,
        }
    }

    /// Returns `true` if a mouse button has just been released.
    pub fn is_mouse_button_released(&self, button: u32) -> (r: bool)
        ensures
            r == (self.button_map().contains_key(button) && self.button_map()[button] is Released),
    {
        match self.mouse_buttons.get(button) {
            Some(state) => state.is_released(),
            None => false,
        }
    }

    /// The decay pass, run by the driver exactly once per host idle tick in
    /// which at least one fixed update step ran: `Pressed` entries become
    /// `Down`, `Down` entries stay, `Released` entries disappear, in every
    /// tri-state map, and the pending scroll delta is reset to neutral.
    pub fn update_keys(&mut self)
        ensures
            final(self).physical_map() == decayed(old(self).physical_map()),
            final(self).logical_map() == decayed(old(self).logical_map()),
            final(self).button_map() == decayed(old(self).button_map()),
            final(self).mods_value() == old(self).mods_value(),
            final(self).cursor_value() == old(self).cursor_value(),
            final(self).scroll_value() == ScrollDelta::neutral(),
    {
        self.physical_keys.decay();
        self.logical_keys.decay();
        self.mouse_buttons.decay();
        self.mouse_scroll = ScrollDelta::Lines { x_bits: 0, y_bits: 0 };
    }

    /// Feed one raw hardware notification into the tracker.
    ///
    /// A key event that is synthetic or an auto-repeat is ignored, so a
    /// held key cannot produce spurious repeated `Pressed` edges. Otherwise
    /// the physical entry and the logical entry are each written whenever
    /// their identity resolved; an unresolvable identity is silently
    /// skipped, not an error.
    pub fn process_event(&mut self, event: &RawEvent)
        ensures
            final(self).physical_map() == physical_after(old(self).physical_map(), *event),
            final(self).logical_map() == logical_after(old(self).logical_map(), *event),
            final(self).button_map() == buttons_after(old(self).button_map(), *event),
            final(self).mods_value() == mods_after(old(self).mods_value(), *event),
            final(self).cursor_value() == cursor_after(old(self).cursor_value(), *event),
            final(self).scroll_value() == scroll_after(old(self).scroll_value(), *event),
    {
        match event {
            RawEvent::Key { physical, logical, pressed, repeat, synthetic } => {
                if !*repeat && !*synthetic {
                    if let Some(code) = physical {
                        self.physical_keys.set(
                            *code,
                            if *pressed {
                                InputState::Pressed
                            } else {
                                InputState::Released
                            },
                        );
                    }
                    if let Some(sym) = logical {
                        self.logical_keys.set(
                            *sym,
                            if *pressed {
                                InputState::Pressed
                            } else {
                                InputState::Released
                            },
                        );
                    }
                }
            },
            RawEvent::ModifiersChanged(m) => {
                self.mods = *m;
            },
            RawEvent::CursorMoved(p) => {
                self.cursor_pos = *p;
            },
            RawEvent::Scroll(d) => {
                self.mouse_scroll = *d;
            },
            RawEvent::MouseButton { button, pressed } => {
                self.mouse_buttons.set(
                    *button,
                    if *pressed {
                        InputState::Pressed
                    } else {
                        InputState::Released
                    },
                );
            },
            RawEvent::CloseRequested => {},
            RawEvent::Other => {},
        }
    }
}

} // verus!
