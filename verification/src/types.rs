//! Plain geometry, keyboard-modifier and event-payload types.

use vstd::prelude::*;

verus! {

use core::cmp::Ordering;

/// A position in output space.
#[derive(Debug, Clone, Copy, PartialEq, Eq, Structural, Hash)]
pub struct Point {
    pub x: i32,
    pub y: i32,
}

/// The product order on points: equal when both coordinates are equal,
/// less when neither coordinate is greater (and they are not equal),
/// greater when neither coordinate is smaller; points that are ahead on
/// one axis and behind on the other are unordered.
pub open spec fn point_cmp(a: Point, b: Point) -> Option<Ordering> {
    if a.x == b.x && a.y == b.y {
        Some(Ordering::Equal)
    } else if a.x <= b.x && a.y <= b.y {
        Some(Ordering::Less)
    } else if a.x >= b.x && a.y >= b.y {
        Some(Ordering::Greater)
    } else {
        None
    }
}

impl PartialOrd for Point {
    fn partial_cmp(&self, other: &Point) -> Option<Ordering> {
        if self.x < other.x && self.y <= other.y {
            Some(Ordering::Less)
        } else if self.y < other.y && self.x <= other.x {
            Some(Ordering::Less)
        } else if self.x > other.x && self.y >= other.y {
            Some(Ordering::Greater)
        } else if self.y > other.y && self.x >= other.x {
            Some(Ordering::Greater)
        } else if self.x == other.x && self.y == other.y {
            Some(Ordering::Equal)
        } else {
            None
        }
    }
}

impl vstd::std_specs::cmp::PartialOrdSpecImpl for Point {
    open spec fn obeys_partial_cmp_spec() -> bool {
        true
    }

    open spec fn partial_cmp_spec(&self, other: &Point) -> Option<Ordering> {
        point_cmp(*self, *other)
    }
}

/// An extent in output space.
#[derive(Debug, Clone, Copy, PartialEq, Eq, Structural, Hash)]
pub struct Size {
    pub w: u32,
    pub h: u32,
}

/// The product order on sizes: equal when both dimensions are equal,
/// less when neither dimension is greater (and they are not equal),
/// greater when neither dimension is smaller; sizes that are ahead on one
/// dimension and behind on the other are unordered.
pub open spec fn size_cmp(a: Size, b: Size) -> Option<Ordering> {
    if a.w == b.w && a.h == b.h {
        Some(Ordering::Equal)
    } else if a.w <= b.w && a.h <= b.h {
        Some(Ordering::Less)
    } else if a.w >= b.w && a.h >= b.h {
        Some(Ordering::Greater)
    } else {
        None
    }
}

impl PartialOrd for Size {
    fn partial_cmp(&self, other: &Size) -> Option<Ordering> {
        if self.w < other.w && self.h <= other.h {
            Some(Ordering::Less)
        } else if self.h < other.h && self.w <= other.w {
            Some(Ordering::Less)
        } else if self.w > other.w && self.h >= other.h {
            Some(Ordering::Greater)
        } else if self.h > other.h && self.w >= other.w {
            Some(Ordering::Greater)
        } else if self.w == other.w && self.h == other.h {
            Some(Ordering::Equal)
        } else {
            None
        }
    }
}

impl vstd::std_specs::cmp::PartialOrdSpecImpl for Size {
    open spec fn obeys_partial_cmp_spec() -> bool {
        true
    }

    open spec fn partial_cmp_spec(&self, other: &Size) -> Option<Ordering> {
        size_cmp(*self, *other)
    }
}

/// A rectangle: an origin and a size.
#[derive(Debug, Clone, Copy, PartialEq, Eq, Structural, Hash)]
pub struct Geometry {
    pub origin: Point,
    pub size: Size,
}

/// The product order on rectangles, over the orders on origin and size:
/// equal when origin and size are equal, less when neither component is
/// greater (and they are not equal), greater when neither component is
/// smaller; rectangles whose components point in opposite directions, or
/// whose components are themselves unordered, are unordered.
pub open spec fn geometry_cmp(a: Geometry, b: Geometry) -> Option<Ordering> {
    if a.origin == b.origin && a.size == b.size {
        Some(Ordering::Equal)
    } else if (point_cmp(a.origin, b.origin) matches Some(Ordering::Less | Ordering::Equal)) && (
    size_cmp(a.size, b.size) matches Some(Ordering::Less | Ordering::Equal)) {
        Some(Ordering::Less)
    } else if (point_cmp(a.origin, b.origin) matches Some(
        Ordering::Greater | Ordering::Equal,
    )) && (size_cmp(a.size, b.size) matches Some(Ordering::Greater | Ordering::Equal)) {
        Some(Ordering::Greater)
    } else {
        None
    }
}

impl PartialOrd for Geometry {
    fn partial_cmp(&self, other: &Geometry) -> Option<Ordering> {
        if self.origin < other.origin && self.size <= other.size {
            Some(Ordering::Less)
        } else if self.size < other.size && self.origin <= other.origin {
            Some(Ordering::Less)
        } else if self.origin > other.origin && self.size >= other.size {
            Some(Ordering::Greater)
        } else if self.size > other.size && self.origin >= other.origin {
            Some(Ordering::Greater)
        } else if self.origin == other.origin && self.size == other.size {
            Some(Ordering::Equal)
        } else {
            None
        }
    }
}

impl vstd::std_specs::cmp::PartialOrdSpecImpl for Geometry {
    open spec fn obeys_partial_cmp_spec() -> bool {
        true
    }

    open spec fn partial_cmp_spec(&self, other: &Geometry) -> Option<Ordering> {
        geometry_cmp(*self, *other)
    }
}

/// Bit of [`ViewState`]: view is maximized.
pub const VIEW_STATE_MAXIMIZED: u32 = 0x1;

/// Bit of [`ViewState`]: view is shown in fullscreen.
pub const VIEW_STATE_FULLSCREEN: u32 = 0x2;

/// Bit of [`ViewState`]: view is resizing.
pub const VIEW_STATE_RESIZING: u32 = 0x4;

/// Bit of [`ViewState`]: view is moving.
pub const VIEW_STATE_MOVING: u32 = 0x8;

/// Bit of [`ViewState`]: view is active.
pub const VIEW_STATE_ACTIVATED: u32 = 0x10;

/// All bits of [`ViewState`] this layer knows.
pub const VIEW_STATE_MASK: u32 = 0x1f;

/// A bitmask over the states a view may hold.
#[derive(Debug, Clone, Copy, PartialEq, Eq, Structural, Hash)]
pub struct ViewState {
    bits: u32,
}

impl ViewState {
    /// The raw bits of this mask.
    pub closed spec fn spec_bits(self) -> u32 {
        self.bits
    }

    /// Wraps raw backend bits, dropping any bit this layer does not know.
    pub fn from_bits_truncate(bits: u32) -> (r: ViewState)
        ensures
            r.spec_bits() == bits & VIEW_STATE_MASK,
    {
        ViewState { bits: bits & VIEW_STATE_MASK }
    }

    /// Returns the raw bits of this mask.
    pub fn bits(self) -> (r: u32)
        ensures
            r == self.spec_bits(),
    {
        self.bits
    }

    /// The mask with no bit set.
    pub fn empty() -> (r: ViewState)
        ensures
            r.spec_bits() == 0,
    {
        ViewState { bits: 0 }
    }

    /// Whether every bit of `other` is set in this mask.
    pub fn contains(self, other: ViewState) -> (r: bool)
        ensures
            r <==> self.spec_bits() & other.spec_bits() == other.spec_bits(),
    {
        self.bits & other.bits == other.bits
    }

    /// The union of the two masks.
    pub fn union(self, other: ViewState) -> (r: ViewState)
        ensures
            r.spec_bits() == self.spec_bits() | other.spec_bits(),
    {
        ViewState { bits: self.bits | other.bits }
    }
}

/// Bit of [`ViewPropertyUpdate`]: the title changed.
pub const VIEW_PROPERTY_TITLE: u32 = 0x1;

/// Bit of [`ViewPropertyUpdate`]: the class changed.
pub const VIEW_PROPERTY_CLASS: u32 = 0x2;

/// Bit of [`ViewPropertyUpdate`]: the application id changed.
pub const VIEW_PROPERTY_APP_ID: u32 = 0x4;

/// Bit of [`ViewPropertyUpdate`]: the owning process id changed.
pub const VIEW_PROPERTY_PID: u32 = 0x8;

/// All bits of [`ViewPropertyUpdate`] this layer knows.
pub const VIEW_PROPERTY_MASK: u32 = 0xf;

/// A bitmask over the view properties that changed.
#[derive(Debug, Clone, Copy, PartialEq, Eq, Structural, Hash)]
pub struct ViewPropertyUpdate {
    bits: u32,
}

impl ViewPropertyUpdate {
    /// The raw bits of this mask.
    pub closed spec fn spec_bits(self) -> u32 {
        self.bits
    }

    /// Wraps raw backend bits, dropping any bit this layer does not know.
    pub fn from_bits_truncate(bits: u32) -> (r: ViewPropertyUpdate)
        ensures
            r.spec_bits() == bits & VIEW_PROPERTY_MASK,
    {
        ViewPropertyUpdate { bits: bits & VIEW_PROPERTY_MASK }
    }

    /// Returns the raw bits of this mask.
    pub fn bits(self) -> (r: u32)
        ensures
            r == self.spec_bits(),
    {
        self.bits
    }

    /// The mask with no bit set.
    pub fn empty() -> (r: ViewPropertyUpdate)
        ensures
            r.spec_bits() == 0,
    {
        ViewPropertyUpdate { bits: 0 }
    }

    /// Whether every bit of `other` is set in this mask.
    pub fn contains(self, other: ViewPropertyUpdate) -> (r: bool)
        ensures
            r <==> self.spec_bits() & other.spec_bits() == other.spec_bits(),
    {
        self.bits & other.bits == other.bits
    }

    /// The union of the two masks.
    pub fn union(self, other: ViewPropertyUpdate) -> (r: ViewPropertyUpdate)
        ensures
            r.spec_bits() == self.spec_bits() | other.spec_bits(),
    {
        ViewPropertyUpdate { bits: self.bits | other.bits }
    }
}

/// Bit of [`ResizeEdge`]: the top edge.
pub const RESIZE_EDGE_TOP: u32 = 0x1;

/// Bit of [`ResizeEdge`]: the bottom edge.
pub const RESIZE_EDGE_BOTTOM: u32 = 0x2;

/// Bit of [`ResizeEdge`]: the left edge.
pub const RESIZE_EDGE_LEFT: u32 = 0x4;

/// Bit of [`ResizeEdge`]: the right edge.
pub const RESIZE_EDGE_RIGHT: u32 = 0x8;

/// All bits of [`ResizeEdge`] this layer knows.
pub const RESIZE_EDGE_MASK: u32 = 0xf;

/// A bitmask over the edges taking part in an interactive resize.
#[derive(Debug, Clone, Copy, PartialEq, Eq, Structural, Hash)]
pub struct ResizeEdge {
    bits: u32,
}

impl ResizeEdge {
    /// The raw bits of this mask.
    pub closed spec fn spec_bits(self) -> u32 {
        self.bits
    }

    /// Wraps raw backend bits, dropping any bit this layer does not know.
    pub fn from_bits_truncate(bits: u32) -> (r: ResizeEdge)
        ensures
            r.spec_bits() == bits & RESIZE_EDGE_MASK,
    {
        ResizeEdge { bits: bits & RESIZE_EDGE_MASK }
    }

    /// Returns the raw bits of this mask.
    pub fn bits(self) -> (r: u32)
        ensures
            r == self.spec_bits(),
    {
        self.bits
    }

    /// The mask with no bit set.
    pub fn empty() -> (r: ResizeEdge)
        ensures
            r.spec_bits() == 0,
    {
        ResizeEdge { bits: 0 }
    }

    /// Whether every bit of `other` is set in this mask.
    pub fn contains(self, other: ResizeEdge) -> (r: bool)
        ensures
            r <==> self.spec_bits() & other.spec_bits() == other.spec_bits(),
    {
        self.bits & other.bits == other.bits
    }

    /// The union of the two masks.
    pub fn union(self, other: ResizeEdge) -> (r: ResizeEdge)
        ensures
            r.spec_bits() == self.spec_bits() | other.spec_bits(),
    {
        ResizeEdge { bits: self.bits | other.bits }
    }
}

/// Bit of [`ScrollAxis`]: the vertical axis.
pub const SCROLL_AXIS_VERTICAL: u8 = 0x1;

/// Bit of [`ScrollAxis`]: the horizontal axis.
pub const SCROLL_AXIS_HORIZONTAL: u8 = 0x2;

/// All bits of [`ScrollAxis`] this layer knows.
pub const SCROLL_AXIS_MASK: u8 = 0x3;

/// A bitmask over the axes of a scroll event.
#[derive(Debug, Clone, Copy, PartialEq, Eq, Structural, Hash)]
pub struct ScrollAxis {
    bits: u8,
}

impl ScrollAxis {
    /// The raw bits of this mask.
    pub closed spec fn spec_bits(self) -> u8 {
        self.bits
    }

    /// Wraps raw backend bits, dropping any bit this layer does not know.
    pub fn from_bits_truncate(bits: u8) -> (r: ScrollAxis)
        ensures
            r.spec_bits() == bits & SCROLL_AXIS_MASK,
    {
        ScrollAxis { bits: bits & SCROLL_AXIS_MASK }
    }

    /// Returns the raw bits of this mask.
    pub fn bits(self) -> (r: u8)
        ensures
            r == self.spec_bits(),
    {
        self.bits
    }

    /// The mask with no bit set.
    pub fn empty() -> (r: ScrollAxis)
        ensures
            r.spec_bits() == 0,
    {
        ScrollAxis { bits: 0 }
    }

    /// Whether every bit of `other` is set in this mask.
    pub fn contains(self, other: ScrollAxis) -> (r: bool)
        ensures
            r <==> self.spec_bits() & other.spec_bits() == other.spec_bits(),
    {
        self.bits & other.bits == other.bits
    }

    /// The union of the two masks.
    pub fn union(self, other: ScrollAxis) -> (r: ScrollAxis)
        ensures
            r.spec_bits() == self.spec_bits() | other.spec_bits(),
    {
        ScrollAxis { bits: self.bits | other.bits }
    }
}

/// Bit of [`Led`]: num lock.
pub const LED_NUM: u32 = 0x1;

/// Bit of [`Led`]: caps lock.
pub const LED_CAPS: u32 = 0x2;

/// Bit of [`Led`]: scroll lock.
pub const LED_SCROLL: u32 = 0x4;

/// All bits of [`Led`] this layer knows.
pub const LED_MASK: u32 = 0x7;

/// A bitmask over the keyboard leds.
#[derive(Debug, Clone, Copy, PartialEq, Eq, Structural, Hash)]
pub struct Led {
    bits: u32,
}

impl Led {
    /// The raw bits of this mask.
    pub closed spec fn spec_bits(self) -> u32 {
        self.bits
    }

    /// Wraps raw backend bits, dropping any bit this layer does not know.
    pub fn from_bits_truncate(bits: u32) -> (r: Led)
        ensures
            r.spec_bits() == bits & LED_MASK,
    {
        Led { bits: bits & LED_MASK }
    }

    /// Returns the raw bits of this mask.
    pub fn bits(self) -> (r: u32)
        ensures
            r == self.spec_bits(),
    {
        self.bits
    }

    /// The mask with no bit set.
    pub fn empty() -> (r: Led)
        ensures
            r.spec_bits() == 0,
    {
        Led { bits: 0 }
    }

    /// Whether every bit of `other` is set in this mask.
    pub fn contains(self, other: Led) -> (r: bool)
        ensures
            r <==> self.spec_bits() & other.spec_bits() == other.spec_bits(),
    {
        self.bits & other.bits == other.bits
    }

    /// The union of the two masks.
    pub fn union(self, other: Led) -> (r: Led)
        ensures
            r.spec_bits() == self.spec_bits() | other.spec_bits(),
    {
        Led { bits: self.bits | other.bits }
    }
}

/// Bit of [`Modifier`]: the shift key.
pub const MOD_SHIFT: u32 = 0x1;

/// Bit of [`Modifier`]: the caps key.
pub const MOD_CAPS: u32 = 0x2;

/// Bit of [`Modifier`]: the control key.
pub const MOD_CTRL: u32 = 0x4;

/// Bit of [`Modifier`]: the alt key.
pub const MOD_ALT: u32 = 0x8;

/// Bit of [`Modifier`]: the second modifier.
pub const MOD_MOD2: u32 = 0x10;

/// Bit of [`Modifier`]: the third modifier.
pub const MOD_MOD3: u32 = 0x20;

/// Bit of [`Modifier`]: the logo (windows/command) key.
pub const MOD_LOGO: u32 = 0x40;

/// Bit of [`Modifier`]: the fifth modifier.
pub const MOD_MOD5: u32 = 0x80;

/// All bits of [`Modifier`] this layer knows.
pub const MOD_MASK: u32 = 0xff;

/// A bitmask over the keyboard modifiers.
#[derive(Debug, Clone, Copy, PartialEq, Eq, Structural, Hash)]
pub struct Modifier {
    bits: u32,
}

impl Modifier {
    /// The raw bits of this mask.
    pub closed spec fn spec_bits(self) -> u32 {
        self.bits
    }

    /// Wraps raw backend bits, dropping any bit this layer does not know.
    pub fn from_bits_truncate(bits: u32) -> (r: Modifier)
        ensures
            r.spec_bits() == bits & MOD_MASK,
    {
        Modifier { bits: bits & MOD_MASK }
    }

    /// Returns the raw bits of this mask.
    pub fn bits(self) -> (r: u32)
        ensures
            r == self.spec_bits(),
    {
        self.bits
    }

    /// The mask with no bit set.
    pub fn empty() -> (r: Modifier)
        ensures
            r.spec_bits() == 0,
    {
        Modifier { bits: 0 }
    }

    /// Whether every bit of `other` is set in this mask.
    pub fn contains(self, other: Modifier) -> (r: bool)
        ensures
            r <==> self.spec_bits() & other.spec_bits() == other.spec_bits(),
    {
        self.bits & other.bits == other.bits
    }

    /// The union of the two masks.
    pub fn union(self, other: Modifier) -> (r: Modifier)
        ensures
            r.spec_bits() == self.spec_bits() | other.spec_bits(),
    {
        Modifier { bits: self.bits | other.bits }
    }
}

/// The keyboard modifiers and leds in force during an input event.
#[derive(Debug, Clone, Copy, PartialEq, Eq, Structural, Hash)]
pub struct Modifiers {
    /// The keyboard leds that are lit.
    pub leds: Led,
    /// The modifier keys that are held.
    pub mods: Modifier,
}

impl Modifiers {
    /// No led lit and no modifier held.
    pub fn empty() -> (r: Modifiers)
        ensures
            r.leds.spec_bits() == 0,
            r.mods.spec_bits() == 0,
    {
        Modifiers { leds: Led::empty(), mods: Modifier::empty() }
    }

    /// Wraps the raw led and modifier bits of a backend event, dropping
    /// any bit this layer does not know.
    pub fn from_raw(leds: u32, mods: u32) -> (r: Modifiers)
        ensures
            r.leds.spec_bits() == leds & LED_MASK,
            r.mods.spec_bits() == mods & MOD_MASK,
    {
        Modifiers { leds: Led::from_bits_truncate(leds), mods: Modifier::from_bits_truncate(mods) }
    }

    /// Returns the raw led and modifier bits, in this order.
    pub fn raw(self) -> (r: (u32, u32))
        ensures
            r.0 == self.leds.spec_bits(),
            r.1 == self.mods.spec_bits(),
    {
        (self.leds.bits(), self.mods.bits())
    }
}

/// The state of a key, as delivered by the backend.
#[derive(Debug, Clone, Copy, PartialEq, Eq, Structural, Hash)]
pub enum KeyState {
    /// Backend code 0: a key was released.
    Released,
    /// Backend code 1: a key was pressed.
    Pressed,
}

/// The variant of [`KeyState`] a raw backend code denotes, if any.
pub open spec fn key_state_from(value: u32) -> Option<KeyState> {
    if value == 0 {
        Some(KeyState::Released)
    } else if value == 1 {
        Some(KeyState::Pressed)
    } else {
        None
    }
}

/// The raw backend code of a [`KeyState`] variant.
pub open spec fn key_state_code(value: KeyState) -> u32 {
    match value {
        KeyState::Released => 0,
        KeyState::Pressed => 1,
    }
}

impl KeyState {
    /// Decodes a raw backend code; `None` for an unrecognized code.
    pub fn from_u32(value: u32) -> (r: Option<KeyState>)
        ensures
            r == key_state_from(value),
    {
        if value == 0 {
            Some(KeyState::Released)
        } else if value == 1 {
            Some(KeyState::Pressed)
        } else {
            None
        }
    }

    /// Encodes this variant as its raw backend code.
    pub fn to_u32(self) -> (r: u32)
        ensures
            r == key_state_code(self),
    {
        match self {
            KeyState::Released => 0,
            KeyState::Pressed => 1,
        }
    }
}

/// The state of a pointer button, as delivered by the backend.
#[derive(Debug, Clone, Copy, PartialEq, Eq, Structural, Hash)]
pub enum ButtonState {
    /// Backend code 0: a button was released.
    Released,
    /// Backend code 1: a button was pressed.
    Pressed,
}

/// The variant of [`ButtonState`] a raw backend code denotes, if any.
pub open spec fn button_state_from(value: u32) -> Option<ButtonState> {
    if value == 0 {
        Some(ButtonState::Released)
    } else if value == 1 {
        Some(ButtonState::Pressed)
    } else {
        None
    }
}

/// The raw backend code of a [`ButtonState`] variant.
pub open spec fn button_state_code(value: ButtonState) -> u32 {
    match value {
        ButtonState::Released => 0,
        ButtonState::Pressed => 1,
    }
}

impl ButtonState {
    /// Decodes a raw backend code; `None` for an unrecognized code.
    pub fn from_u32(value: u32) -> (r: Option<ButtonState>)
        ensures
            r == button_state_from(value),
    {
        if value == 0 {
            Some(ButtonState::Released)
        } else if value == 1 {
            Some(ButtonState::Pressed)
        } else {
            None
        }
    }

    /// Encodes this variant as its raw backend code.
    pub fn to_u32(self) -> (r: u32)
        ensures
            r == button_state_code(self),
    {
        match self {
            ButtonState::Released => 0,
            ButtonState::Pressed => 1,
        }
    }
}

/// The kind of a touch event, as delivered by the backend.
#[derive(Debug, Clone, Copy, PartialEq, Eq, Structural, Hash)]
pub enum TouchType {
    /// Backend code 0: touch down.
    Down,
    /// Backend code 1: touch up.
    Up,
    /// Backend code 2: touch motion.
    Motion,
    /// Backend code 3: end of a set of touchpoints at one device sample time.
    Frame,
    /// Backend code 4: the touch sequence was cancelled.
    Cancel,
}

/// The variant of [`TouchType`] a raw backend code denotes, if any.
pub open spec fn touch_type_from(value: u32) -> Option<TouchType> {
    if value == 0 {
        Some(TouchType::Down)
    } else if value == 1 {
        Some(TouchType::Up)
    } else if value == 2 {
        Some(TouchType::Motion)
    } else if value == 3 {
        Some(TouchType::Frame)
    } else if value == 4 {
        Some(TouchType::Cancel)
    } else {
        None
    }
}

/// The raw backend code of a [`TouchType`] variant.
pub open spec fn touch_type_code(value: TouchType) -> u32 {
    match value {
        TouchType::Down => 0,
        TouchType::Up => 1,
        TouchType::Motion => 2,
        TouchType::Frame => 3,
        TouchType::Cancel => 4,
    }
}

impl TouchType {
    /// Decodes a raw backend code; `None` for an unrecognized code.
    pub fn from_u32(value: u32) -> (r: Option<TouchType>)
        ensures
            r == touch_type_from(value),
    {
        if value == 0 {
            Some(TouchType::Down)
        } else if value == 1 {
            Some(TouchType::Up)
        } else if value == 2 {
            Some(TouchType::Motion)
        } else if value == 3 {
            Some(TouchType::Frame)
        } else if value == 4 {
            Some(TouchType::Cancel)
        } else {
            None
        }
    }

    /// Encodes this variant as its raw backend code.
    pub fn to_u32(self) -> (r: u32)
        ensures
            r == touch_type_code(self),
    {
        match self {
            TouchType::Down => 0,
            TouchType::Up => 1,
            TouchType::Motion => 2,
            TouchType::Frame => 3,
            TouchType::Cancel => 4,
        }
    }
}

/// The backend driving the compositor, as delivered by the backend.
#[derive(Debug, Clone, Copy, PartialEq, Eq, Structural, Hash)]
pub enum BackendType {
    /// Backend code 0: no backend.
    Null,
    /// Backend code 1: the drm backend.
    DRM,
    /// Backend code 2: the x11 backend.
    X11,
}

/// The variant of [`BackendType`] a raw backend code denotes, if any.
pub open spec fn backend_type_from(value: u32) -> Option<BackendType> {
    if value == 0 {
        Some(BackendType::Null)
    } else if value == 1 {
        Some(BackendType::DRM)
    } else if value == 2 {
        Some(BackendType::X11)
    } else {
        None
    }
}

/// The raw backend code of a [`BackendType`] variant.
pub open spec fn backend_type_code(value: BackendType) -> u32 {
    match value {
        BackendType::Null => 0,
        BackendType::DRM => 1,
        BackendType::X11 => 2,
    }
}

impl BackendType {
    /// Decodes a raw backend code; `None` for an unrecognized code.
    pub fn from_u32(value: u32) -> (r: Option<BackendType>)
        ensures
            r == backend_type_from(value),
    {
        if value == 0 {
            Some(BackendType::Null)
        } else if value == 1 {
            Some(BackendType::DRM)
        } else if value == 2 {
            Some(BackendType::X11)
        } else {
            None
        }
    }

    /// Encodes this variant as its raw backend code.
    pub fn to_u32(self) -> (r: u32)
        ensures
            r == backend_type_code(self),
    {
        match self {
            BackendType::Null => 0,
            BackendType::DRM => 1,
            BackendType::X11 => 2,
        }
    }
}

} // verus!
