//! Colors of three channels.

use vstd::prelude::*;

verus! {

/// A color of three channels: red, green and blue.
#[derive(Clone, Copy, Debug, PartialEq, Eq)]
pub struct SerializedRGB<T> {
    pub r: T,
    pub g: T,
    pub b: T,
}

/// A color of three bytes.
pub type ColorU8 = SerializedRGB<u8>;

impl<T> SerializedRGB<T> {
    pub fn new(r: T, g: T, b: T) -> (c: Self)
        ensures
            c.r == r,
            c.g == g,
            c.b == b,
    {
        Self { r, g, b }
    }
}

impl<T: Copy> From<&[T; 3]> for SerializedRGB<T> {
    /// The color whose channels are the three items of an array.
    fn from(value: &[T; 3]) -> (c: Self) {
        Self { r: value[0], g: value[1], b: value[2] }
    }
}

impl<T: Copy> vstd::std_specs::convert::FromSpecImpl<&[T; 3]> for SerializedRGB<T> {
    open spec fn obeys_from_spec() -> bool {
        true
    }

    open spec fn from_spec(value: &[T; 3]) -> Self {
        SerializedRGB { r: value[0], g: value[1], b: value[2] }
    }
}

impl<T> Into<[T; 3]> for SerializedRGB<T> {
    /// The three channels as an array.
    fn into(self) -> (a: [T; 3]) {
        [self.r, self.g, self.b]
    }
}

impl<T> vstd::std_specs::convert::IntoSpecImpl<[T; 3]> for SerializedRGB<T> {
    open spec fn obeys_into_spec() -> bool {
        true
    }

    open spec fn into_spec(self) -> [T; 3] {
        [self.r, self.g, self.b]
    }
}

} // verus!
