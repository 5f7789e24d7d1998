//! Rectangles, sizes and the avoid areas of a window.
use vstd::prelude::*;

verus! {

/// A rectangle in window coordinates.
#[derive(Clone, Copy, Debug, PartialEq, Eq, Structural)]
pub struct Rect {
    pub top: i32,
    pub left: i32,
    pub width: i32,
    pub height: i32,
}

impl Rect {
    /// The empty rectangle at the origin.
    pub open spec fn zero() -> Rect {
        Rect { top: 0, left: 0, width: 0, height: 0 }
    }
}

impl Default for Rect {
    fn default() -> (r: Rect)
        ensures
            r == Rect::zero(),
    {
        Rect { top: 0, left: 0, width: 0, height: 0 }
    }
}

/// The size of a window.
#[derive(Clone, Copy, Debug, PartialEq, Eq, Structural)]
pub struct Size {
    pub width: i32,
    pub height: i32,
}

/// The size of a surface, as the platform reports it.
#[derive(Clone, Copy, Debug, PartialEq, Eq, Structural)]
pub struct SurfaceSize {
    pub width: u64,
    pub height: u64,
}

/// The position of a surface, in whole units.
#[derive(Clone, Copy, Debug, PartialEq, Eq, Structural)]
pub struct SurfaceOffset {
    pub x: i32,
    pub y: i32,
}

/// The low 32 bits of `v`, read as a two's complement number.
pub open spec fn low_i32(v: u64) -> int {
    let low = v as int % 0x1_0000_0000;
    if low < 0x8000_0000 {
        low
    } else {
        low - 0x1_0000_0000
    }
}

/// The 64 bits of `v`, read as a two's complement number.
pub open spec fn as_i64(v: u64) -> int {
    if v < 0x8000_0000_0000_0000 {
        v as int
    } else {
        v - 0x1_0000_0000_0000_0000
    }
}

/// Keeps the low 32 bits of `v`.
pub fn truncate_to_i32(v: u64) -> (r: i32)
    ensures
        r == low_i32(v),
{
    assert(v % 0x1_0000_0000 < 0x8000_0000 ==> (v as i32) == v % 0x1_0000_0000) by (bit_vector);
    assert(v % 0x1_0000_0000 >= 0x8000_0000 ==> (v as i32) == v % 0x1_0000_0000 - 0x1_0000_0000)
        by (bit_vector);
    #[verifier::truncate]
    (v as i32)
}

/// Reads `v` as a signed number of the same width.
pub fn reinterpret_as_i64(v: u64) -> (r: i64)
    ensures
        r == as_i64(v),
{
    assert(v < 0x8000_0000_0000_0000u64 ==> (v as i64) == v) by (bit_vector);
    assert(v >= 0x8000_0000_0000_0000u64 ==> (v as i64) == v - 0x1_0000_0000_0000_0000)
        by (bit_vector);
    #[verifier::truncate]
    (v as i64)
}

/// The rectangle that a surface of this size at this offset covers.
pub open spec fn rect_of_surface(size: SurfaceSize, offset: SurfaceOffset) -> Rect {
    Rect {
        top: offset.y,
        left: offset.x,
        width: low_i32(size.width) as i32,
        height: low_i32(size.height) as i32,
    }
}

/// The window size that belongs to a surface of this size.
pub open spec fn size_of_surface(size: SurfaceSize) -> Size {
    Size { width: low_i32(size.width) as i32, height: low_i32(size.height) as i32 }
}

/// The rectangle that a surface covers.
pub fn surface_rect(size: SurfaceSize, offset: SurfaceOffset) -> (r: Rect)
    ensures
        r == rect_of_surface(size, offset),
{
    Rect {
        top: offset.y,
        left: offset.x,
        width: truncate_to_i32(size.width),
        height: truncate_to_i32(size.height),
    }
}

/// The window size that a resize event carries.
pub fn surface_size(size: SurfaceSize) -> (r: Size)
    ensures
        r == size_of_surface(size),
{
    Size { width: truncate_to_i32(size.width), height: truncate_to_i32(size.height) }
}

/// What takes up part of a window.
#[derive(Clone, Copy, Debug, PartialEq, Eq, Hash, Structural)]
pub enum AvoidAreaType {
    System,
    Cutout,
    SystemGesture,
    Keyboard,
    NavigationIndicator,
    Unknown(i32),
}

impl AvoidAreaType {
    /// The platform's number for this type.
    pub open spec fn code_of(self) -> i32 {
        match self {
            AvoidAreaType::System => 0,
            AvoidAreaType::Cutout => 1,
            AvoidAreaType::SystemGesture => 2,
            AvoidAreaType::Keyboard => 3,
            AvoidAreaType::NavigationIndicator => 4,
            AvoidAreaType::Unknown(code) => code,
        }
    }

    /// The type that a number stands for.
    pub open spec fn of_code(code: i32) -> AvoidAreaType {
        if code == 0 {
            AvoidAreaType::System
        } else if code == 1 {
            AvoidAreaType::Cutout
        } else if code == 2 {
            AvoidAreaType::SystemGesture
        } else if code == 3 {
            AvoidAreaType::Keyboard
        } else if code == 4 {
            AvoidAreaType::NavigationIndicator
        } else {
            AvoidAreaType::Unknown(code)
        }
    }

    /// Whether this is the type that its number stands for, so that no named type is
    /// hidden behind `Unknown`.
    pub open spec fn is_canonical(self) -> bool {
        self == AvoidAreaType::of_code(self.code_of())
    }

    /// The platform's number for this type.
    pub fn code(self) -> (r: i32)
        ensures
            r == self.code_of(),
    {
        match self {
            AvoidAreaType::System => 0,
            AvoidAreaType::Cutout => 1,
            AvoidAreaType::SystemGesture => 2,
            AvoidAreaType::Keyboard => 3,
            AvoidAreaType::NavigationIndicator => 4,
            AvoidAreaType::Unknown(code) => code,
        }
    }
}

impl From<i32> for AvoidAreaType {
    fn from(code: i32) -> (r: AvoidAreaType) {
        match code {
            0 => AvoidAreaType::System,
            1 => AvoidAreaType::Cutout,
            2 => AvoidAreaType::SystemGesture,
            3 => AvoidAreaType::Keyboard,
            4 => AvoidAreaType::NavigationIndicator,
            _ => AvoidAreaType::Unknown(code),
        }
    }
}

impl vstd::std_specs::convert::FromSpecImpl<i32> for AvoidAreaType {
    open spec fn obeys_from_spec() -> bool {
        true
    }

    open spec fn from_spec(code: i32) -> AvoidAreaType {
        AvoidAreaType::of_code(code)
    }
}

/// The part of a window that something of one type takes up.
#[derive(Clone, Copy, Debug, PartialEq, Eq, Structural)]
pub struct AvoidArea {
    pub visible: bool,
    pub left_rect: Rect,
    pub top_rect: Rect,
    pub right_rect: Rect,
    pub bottom_rect: Rect,
}

/// The size that a resize event carries is that of the rectangle noted for the
/// surface.
pub proof fn resize_agrees_with_rect(size: SurfaceSize, offset: SurfaceOffset)
    ensures
        rect_of_surface(size, offset).width == size_of_surface(size).width,
        rect_of_surface(size, offset).height == size_of_surface(size).height,
{
}

/// Reading a number and asking for it again gives the number back, and what is read is
/// the type that its number stands for.
pub proof fn avoid_area_type_keeps_code(code: i32)
    ensures
        AvoidAreaType::of_code(code).code_of() == code,
        AvoidAreaType::of_code(code).is_canonical(),
{
}

/// Types that their numbers stand for are told apart by these numbers.
pub proof fn canonical_types_differ_in_code(a: AvoidAreaType, b: AvoidAreaType)
    requires
        a.is_canonical(),
        b.is_canonical(),
    ensures
        a.code_of() == b.code_of() <==> a == b,
{
}

/// Keeping the low 32 bits changes a number by a multiple of 2^32 only, and leaves alone
/// what fits.
pub proof fn truncation_keeps_low_bits(v: u64)
    ensures
        i32::MIN <= low_i32(v) <= i32::MAX,
        (v - low_i32(v)) % 0x1_0000_0000 == 0,
        v <= i32::MAX ==> low_i32(v) == v,
{
}

/// Reading a number as a signed one changes it by 2^64 or not at all, and leaves alone
/// what fits.
pub proof fn reinterpretation_keeps_bits(v: u64)
    ensures
        i64::MIN <= as_i64(v) <= i64::MAX,
        as_i64(v) == v || as_i64(v) + 0x1_0000_0000_0000_0000 == v,
        v <= i64::MAX ==> as_i64(v) == v,
{
}

/// The rectangle of a surface has its corner at the surface's offset, and the surface's
/// width and height as far as 32 bits hold them; so has the size that goes with it.
pub proof fn surface_keeps_place_and_size(size: SurfaceSize, offset: SurfaceOffset)
    ensures
        rect_of_surface(size, offset).left == offset.x,
        rect_of_surface(size, offset).top == offset.y,
        (size.width - rect_of_surface(size, offset).width) % 0x1_0000_0000 == 0,
        (size.height - rect_of_surface(size, offset).height) % 0x1_0000_0000 == 0,
        (size.width - size_of_surface(size).width) % 0x1_0000_0000 == 0,
        (size.height - size_of_surface(size).height) % 0x1_0000_0000 == 0,
{
    truncation_keeps_low_bits(size.width);
    truncation_keeps_low_bits(size.height);
}

/// The named types have the numbers from 0 to 4, in the order in which they are handed
/// out together, and only other numbers read as unknown.
pub proof fn named_avoid_area_types_have_small_codes(code: i32)
    ensures
        AvoidAreaType::System.code_of() == 0,
        AvoidAreaType::Cutout.code_of() == 1,
        AvoidAreaType::SystemGesture.code_of() == 2,
        AvoidAreaType::Keyboard.code_of() == 3,
        AvoidAreaType::NavigationIndicator.code_of() == 4,
        AvoidAreaType::of_code(code) is Unknown <==> !(0 <= code <= 4),
        AvoidAreaType::Unknown(code).code_of() == code,
{
}

/// The rectangle that stands for nothing has no extent and lies at the origin.
pub proof fn zero_rect_is_empty()
    ensures
        Rect::zero().top == 0 && Rect::zero().left == 0,
        Rect::zero().width == 0 && Rect::zero().height == 0,
{
}

} // verus!
