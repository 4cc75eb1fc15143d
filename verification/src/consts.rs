//! The fixed measures of the page and of its two sections. Lengths on the
//! page are whole millimetres from the lower left corner; font sizes, line
//! heights and spacings are whole points.

use vstd::prelude::*;

verus! {

/// Width of the page, ISO A4.
pub const PAGE_X: u32 = 210;

/// Height of the page, ISO A4.
pub const PAGE_Y: u32 = 297;

/// Distance of every section from the left edge of the page.
pub const MARGIN_X: u32 = 10;

/// Height at which the name starts.
pub const HEADER_Y: u32 = 285;

/// Font size of the name.
pub const NAME_SIZE: u32 = 24;

/// Font size of the profession below the name.
pub const PROFESSION_SIZE: u32 = 13;

/// Line height within the header.
pub const HEADER_LINE_HEIGHT: u32 = 20;

/// Character spacing within the header.
pub const HEADER_SPACING: u32 = 3;

/// How far the profession is lifted from its line.
pub const PROFESSION_OFFSET: u32 = 5;

/// Height at which the heading of the contact section starts.
pub const CONTACT_Y: u32 = 270;

/// Font size of the heading of the contact section.
pub const CONTACT_HEADING_SIZE: u32 = 10;

/// Font size of the four contact lines.
pub const CONTACT_LINE_SIZE: u32 = 9;

/// Line height of the heading of the contact section.
pub const CONTACT_HEADING_LINE_HEIGHT: u32 = 10;

/// Line height of the four contact lines.
pub const CONTACT_LINE_HEIGHT: u32 = 11;

/// Character spacing within the contact section.
pub const CONTACT_SPACING: u32 = 1;

/// Where the divider of the contact section lies. It is a fixed place on
/// the page and does not follow the width of the heading.
pub const DIVIDER_X: u32 = 160;

pub const DIVIDER_Y: u32 = 275;

/// Blue part of the divider's fill colour; its red and green parts are 0.
pub const DIVIDER_BLUE: u32 = 210;

} // verus!
