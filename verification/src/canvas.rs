//! What a page is made of: drawing operations at places given in whole
//! millimetres and points, recorded on the one layer of a document.

use crate::api::views;
use vstd::prelude::*;

verus! {

/// A font of the writer that loaded it, by its place among the writer's
/// fonts.
#[derive(Debug, Clone, Copy, PartialEq, Eq)]
pub struct FontHandle {
    index: usize,
}

impl FontHandle {
    /// The handle of the font that was loaded first.
    pub closed spec fn primary() -> FontHandle {
        FontHandle { index: 0 }
    }

    /// The place of the font among the fonts of its writer.
    pub closed spec fn position(&self) -> nat {
        self.index as nat
    }

    /// The handle of the font that a writer loaded first.
    pub(crate) fn first() -> (r: FontHandle)
        ensures
            r == FontHandle::primary(),
    {
        FontHandle { index: 0 }
    }

    /// The place of the font among the fonts of its writer.
    pub fn index(&self) -> (r: usize)
        ensures
            r == self.position(),
    {
        self.index
    }

    /// The primary font is the first one.
    pub proof fn lemma_primary_is_first()
        ensures
            FontHandle::primary().position() == 0,
    {
    }
}

/// The sections that a page can hold.
#[derive(Debug, Clone, Copy, PartialEq, Eq)]
pub enum SectionKind {
    Header,
    Contact,
}

/// How the glyphs of a text are painted.
#[derive(Debug, Clone, Copy, PartialEq, Eq)]
pub enum TextRenderingMode {
    Fill,
    Stroke,
}

/// A colour by its red, green and blue parts.
#[derive(Debug, Clone, Copy, PartialEq, Eq)]
pub struct Rgb {
    pub r: u32,
    pub g: u32,
    pub b: u32,
}

/// A place on the page, in millimetres from the lower left corner.
#[derive(Debug, Clone, Copy, PartialEq, Eq)]
pub struct Point {
    pub x: u32,
    pub y: u32,
}

/// A shape made of points; the flag beside a point says whether the point
/// belongs to a curve.
#[derive(Debug, Clone, PartialEq, Eq)]
pub struct Line {
    pub points: Vec<(Point, bool)>,
    pub is_closed: bool,
    pub has_fill: bool,
    pub has_stroke: bool,
    pub is_clipping_path: bool,
}

/// What a value of [`Line`] is in contracts: each text as the sequence of
/// its characters, each list as the sequence of its items.
pub struct LineView {
    pub points: Seq<(Point, bool)>,
    pub is_closed: bool,
    pub has_fill: bool,
    pub has_stroke: bool,
    pub is_clipping_path: bool,
}

impl View for Line {
    type V = LineView;

    open spec fn view(&self) -> LineView {
        LineView {
            points: self.points@,
            is_closed: self.is_closed,
            has_fill: self.has_fill,
            has_stroke: self.has_stroke,
            is_clipping_path: self.is_clipping_path,
        }
    }
}

/// One drawing operation. Places are in millimetres; font sizes, line
/// heights, spacings and offsets are in points.
#[derive(Debug, Clone, PartialEq, Eq)]
pub enum DrawOp {
    /// Starts the text of a section.
    BeginTextSection(SectionKind),
    SetFont { font: FontHandle, size: u32 },
    SetTextCursor { x: u32, y: u32 },
    SetLineHeight(u32),
    SetCharacterSpacing(u32),
    SetLineOffset(u32),
    SetTextRenderingMode(TextRenderingMode),
    WriteText { text: String, font: FontHandle },
    AddLineBreak,
    SetFillColor(Rgb),
    AddShape(Line),
    /// Ends the text of the section that was started last.
    EndTextSection,
}

/// What a value of [`DrawOp`] is in contracts: each text as the sequence of
/// its characters, each list as the sequence of its items.
pub enum DrawOpView {
    BeginTextSection(SectionKind),
    SetFont { font: FontHandle, size: u32 },
    SetTextCursor { x: u32, y: u32 },
    SetLineHeight(u32),
    SetCharacterSpacing(u32),
    SetLineOffset(u32),
    SetTextRenderingMode(TextRenderingMode),
    WriteText { text: Seq<char>, font: FontHandle },
    AddLineBreak,
    SetFillColor(Rgb),
    AddShape(LineView),
    EndTextSection,
}

impl View for DrawOp {
    type V = DrawOpView;

    open spec fn view(&self) -> DrawOpView {
        match self {
            DrawOp::BeginTextSection(kind) => DrawOpView::BeginTextSection(*kind),
            DrawOp::SetFont { font, size } => DrawOpView::SetFont { font: *font, size: *size },
            DrawOp::SetTextCursor { x, y } => DrawOpView::SetTextCursor { x: *x, y: *y },
            DrawOp::SetLineHeight(height) => DrawOpView::SetLineHeight(*height),
            DrawOp::SetCharacterSpacing(spacing) => DrawOpView::SetCharacterSpacing(*spacing),
            DrawOp::SetLineOffset(offset) => DrawOpView::SetLineOffset(*offset),
            DrawOp::SetTextRenderingMode(mode) => DrawOpView::SetTextRenderingMode(*mode),
            DrawOp::WriteText { text, font } => DrawOpView::WriteText { text: text@, font: *font },
            DrawOp::AddLineBreak => DrawOpView::AddLineBreak,
            DrawOp::SetFillColor(color) => DrawOpView::SetFillColor(*color),
            DrawOp::AddShape(line) => DrawOpView::AddShape(line@),
            DrawOp::EndTextSection => DrawOpView::EndTextSection,
        }
    }
}

/// The drawing operations of one page, in the order in which they are to
/// be carried out.
#[derive(Debug, Clone, PartialEq, Eq)]
pub struct Layer {
    pub ops: Vec<DrawOp>,
}

impl View for Layer {
    type V = Seq<DrawOpView>;

    open spec fn view(&self) -> Seq<DrawOpView> {
        views(self.ops@)
    }
}

impl Layer {
    /// A layer on which nothing was drawn.
    pub fn new() -> (r: Layer)
        ensures
            r@ == Seq::<DrawOpView>::empty(),
    {
        let r = Layer { ops: Vec::new() };
        assert(r@ =~= Seq::<DrawOpView>::empty());
        r
    }

    /// Records `op` behind the operations that are there.
    pub fn add_operation(&mut self, op: DrawOp)
        ensures
            final(self)@ == old(self)@.push(op@),
    {
        assert(views(self.ops@.push(op)) =~= views(self.ops@).push(op@));
        self.ops.push(op);
    }
}

/// A document of one page with one layer.
#[derive(Debug, Clone, PartialEq, Eq)]
pub struct Document {
    pub title: String,
    /// Width of the page in millimetres.
    pub width: u32,
    /// Height of the page in millimetres.
    pub height: u32,
    pub layer_name: String,
    pub layer: Layer,
}

/// What a value of [`Document`] is in contracts: each text as the sequence of
/// its characters, each list as the sequence of its items.
pub struct DocumentView {
    pub title: Seq<char>,
    pub width: u32,
    pub height: u32,
    pub layer_name: Seq<char>,
    pub layer: Seq<DrawOpView>,
}

impl View for Document {
    type V = DocumentView;

    open spec fn view(&self) -> DocumentView {
        DocumentView {
            title: self.title@,
            width: self.width,
            height: self.height,
            layer_name: self.layer_name@,
            layer: self.layer@,
        }
    }
}

impl DrawOpView {
    /// The font that the operation refers to, if it refers to one.
    pub open spec fn font(self) -> Option<FontHandle> {
        match self {
            DrawOpView::SetFont { font, .. } => Some(font),
            DrawOpView::WriteText { font, .. } => Some(font),
            _ => None,
        }
    }

    /// Whether the operation starts or ends a section.
    pub open spec fn is_boundary(self) -> bool {
        self is BeginTextSection || self is EndTextSection
    }
}

} // verus!
