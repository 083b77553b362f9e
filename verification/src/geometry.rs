//! The shapes a layout is made of.
//!
//! The service stores geometry and hands it back; it never computes with it.
//! A coordinate is therefore carried as the bit pattern of its binary64 value,
//! which keeps every number exactly as it was received.

use vstd::prelude::*;

verus! {

/// A number of the wire format: an IEEE 754 binary64 value, held by its bits.
#[derive(Clone, Copy, Debug, PartialEq, Eq)]
pub struct Num {
    pub bits: u64,
}

impl Num {
    /// The number whose binary64 representation is `bits`.
    pub fn from_bits(bits: u64) -> (n: Num)
        ensures
            n.bits == bits,
    {
        Num { bits }
    }

    /// The binary64 representation of this number.
    pub fn to_bits(self) -> (bits: u64)
        ensures
            bits == self.bits,
    {
        self.bits
    }
}

/// A styled polyline. `points` is read in pairs as (x, y). An odd number of
/// them is stored like any other, and so is a `stroke_width` that is not
/// positive or a `stroke` that names no colour.
#[derive(Debug, PartialEq, Eq)]
pub struct Wall {
    pub points: Vec<Num>,
    pub stroke: String,
    pub stroke_width: Num,
}

/// What a [`Wall`] holds, as mathematical values.
pub struct WallView {
    pub points: Seq<Num>,
    pub stroke: Seq<char>,
    pub stroke_width: Num,
}

impl View for Wall {
    type V = WallView;

    open spec fn view(&self) -> WallView {
        WallView { points: self.points@, stroke: self.stroke@, stroke_width: self.stroke_width }
    }
}

impl Clone for Wall {
    fn clone(&self) -> (copy: Self)
        ensures
            copy@ == self@,
    {
        Wall {
            points: self.points.clone(),
            stroke: self.stroke.clone(),
            stroke_width: self.stroke_width,
        }
    }
}

/// A styled axis-aligned rectangle with its top-left corner at (`x`, `y`).
/// Extents may be zero or negative.
#[derive(Debug, PartialEq, Eq)]
pub struct Pattern {
    pub x: Num,
    pub y: Num,
    pub width: Num,
    pub height: Num,
    pub fill: String,
}

/// What a [`Pattern`] holds, as mathematical values.
pub struct PatternView {
    pub x: Num,
    pub y: Num,
    pub width: Num,
    pub height: Num,
    pub fill: Seq<char>,
}

impl View for Pattern {
    type V = PatternView;

    open spec fn view(&self) -> PatternView {
        PatternView {
            x: self.x,
            y: self.y,
            width: self.width,
            height: self.height,
            fill: self.fill@,
        }
    }
}

impl Clone for Pattern {
    fn clone(&self) -> (copy: Self)
        ensures
            copy@ == self@,
    {
        Pattern {
            x: self.x,
            y: self.y,
            width: self.width,
            height: self.height,
            fill: self.fill.clone(),
        }
    }
}

/// One snapshot of a floor plan. The order of walls and of patterns is the
/// order in which they are drawn, and is kept.
#[derive(Debug, PartialEq, Eq)]
pub struct Layout {
    pub walls: Vec<Wall>,
    pub patterns: Vec<Pattern>,
}

/// What a [`Layout`] holds, as mathematical values.
pub struct LayoutView {
    pub walls: Seq<WallView>,
    pub patterns: Seq<PatternView>,
}

impl View for Layout {
    type V = LayoutView;

    open spec fn view(&self) -> LayoutView {
        LayoutView {
            walls: self.walls@.map_values(|w: Wall| w@),
            patterns: self.patterns@.map_values(|p: Pattern| p@),
        }
    }
}

impl Clone for Layout {
    fn clone(&self) -> (copy: Self)
        ensures
            copy@ == self@,
    {
        let walls = self.walls.clone();
        let patterns = self.patterns.clone();
        assert(walls@.map_values(|w: Wall| w@) =~= self.walls@.map_values(|w: Wall| w@));
        assert(patterns@.map_values(|p: Pattern| p@) =~= self.patterns@.map_values(
            |p: Pattern| p@,
        ));
        Layout { walls, patterns }
    }
}

} // verus!
