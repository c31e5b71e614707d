//! Keyword-valued style properties.

use vstd::prelude::*;
use crate::text::str_eq;
use super::ParseValue;

verus! {

/// Controls the direction in which items are layed out.
#[derive(Copy, Clone, Debug, Eq, PartialEq, Structural)]
pub enum FlexDirection {
    /// Items are layed out vertically from top to bottom.
    Column,
    /// Items are layed out vertically from bottom to top.
    ColumnReverse,
    /// Items are layed out horizontally in the layout direction (either left to
    /// right or right to left).
    Row,
    /// Items are layed out horizontally in the reverse layout direction (either
    /// right to left or left to right).
    RowReverse,
}

impl ParseValue for FlexDirection {
    /// The variant named by its CSS keyword.
    open spec fn spec_parse(s: Seq<char>) -> Option<Self> {
        if s == "column"@ {
            Some(FlexDirection::Column)
        } else if s == "column-reverse"@ {
            Some(FlexDirection::ColumnReverse)
        } else if s == "row"@ {
            Some(FlexDirection::Row)
        } else if s == "row-reverse"@ {
            Some(FlexDirection::RowReverse)
        } else {
            None
        }
    }

    fn parse(s: &str) -> (r: Option<Self>) {
        if str_eq(s, "column") {
            Some(FlexDirection::Column)
        } else if str_eq(s, "column-reverse") {
            Some(FlexDirection::ColumnReverse)
        } else if str_eq(s, "row") {
            Some(FlexDirection::Row)
        } else if str_eq(s, "row-reverse") {
            Some(FlexDirection::RowReverse)
        } else {
            None
        }
    }
}

/// Controls how items are aligned along the main axis of a flexbox.
#[derive(Copy, Clone, Debug, Eq, PartialEq, Structural)]
pub enum Align {
    /// Items are aligned at the start of the cross axis.
    FlexStart,
    /// Items are aligned at the center along the main axis.
    Center,
    /// Items are aligned at the end of the cross axis.
    FlexEnd,
    /// Items are stretched between the start and end of the cross axis.
    Stretch,
    /// Items are spaced evenly between, the first item starts at the start of
    /// the cross axis and the last item ends at the end of the cross axis.
    SpaceBetween,
    /// Items are spaced evenly around, the first item starts after the start of
    /// the cross axis and the last item ends before the end of the cross axis.
    SpaceAround,
}

impl ParseValue for Align {
    /// The variant named by its CSS keyword.
    open spec fn spec_parse(s: Seq<char>) -> Option<Self> {
        if s == "flex-start"@ {
            Some(Align::FlexStart)
        } else if s == "center"@ {
            Some(Align::Center)
        } else if s == "flex-end"@ {
            Some(Align::FlexEnd)
        } else if s == "stretch"@ {
            Some(Align::Stretch)
        } else if s == "space-between"@ {
            Some(Align::SpaceBetween)
        } else if s == "space-around"@ {
            Some(Align::SpaceAround)
        } else {
            None
        }
    }

    fn parse(s: &str) -> (r: Option<Self>) {
        if str_eq(s, "flex-start") {
            Some(Align::FlexStart)
        } else if str_eq(s, "center") {
            Some(Align::Center)
        } else if str_eq(s, "flex-end") {
            Some(Align::FlexEnd)
        } else if str_eq(s, "stretch") {
            Some(Align::Stretch)
        } else if str_eq(s, "space-between") {
            Some(Align::SpaceBetween)
        } else if str_eq(s, "space-around") {
            Some(Align::SpaceAround)
        } else {
            None
        }
    }
}

/// Controls how content is justified along the cross axis of a flexbox.
#[derive(Copy, Clone, Debug, Eq, PartialEq, Structural)]
pub enum Justify {
    /// Content is justified at the start of the main axis.
    FlexStart,
    /// Content is justified at the center along the cross axis.
    Center,
    /// Content is justified at the end of the main axis.
    FlexEnd,
    /// Content is spaced evenly between, the first content starts at the start
    /// of the main axis and the last content ends at the end of the main axis.
    SpaceBetween,
    /// Items are spaced evenly around, the first content starts after the start
    /// of the main axis and the last content ends before the end of the main
    /// axis.
    SpaceAround,
    /// Items are evenly spaced: the space between items is equal to the space
    /// between the first and last item and both ends of the main axis
    /// respectively.
    SpaceEvenly,
}

impl ParseValue for Justify {
    /// The variant named by its CSS keyword.
    open spec fn spec_parse(s: Seq<char>) -> Option<Self> {
        if s == "flex-start"@ {
            Some(Justify::FlexStart)
        } else if s == "center"@ {
            Some(Justify::Center)
        } else if s == "flex-end"@ {
            Some(Justify::FlexEnd)
        } else if s == "space-between"@ {
            Some(Justify::SpaceBetween)
        } else if s == "space-around"@ {
            Some(Justify::SpaceAround)
        } else if s == "space-evenly"@ {
            Some(Justify::SpaceEvenly)
        } else {
            None
        }
    }

    fn parse(s: &str) -> (r: Option<Self>) {
        if str_eq(s, "flex-start") {
            Some(Justify::FlexStart)
        } else if str_eq(s, "center") {
            Some(Justify::Center)
        } else if str_eq(s, "flex-end") {
            Some(Justify::FlexEnd)
        } else if str_eq(s, "space-between") {
            Some(Justify::SpaceBetween)
        } else if str_eq(s, "space-around") {
            Some(Justify::SpaceAround)
        } else if str_eq(s, "space-evenly") {
            Some(Justify::SpaceEvenly)
        } else {
            None
        }
    }
}

} // verus!
