//! The layout of a résumé on its page: each section is a run of drawing
//! operations at fixed places, and a page holds the sections that the
//! résumé has.

use crate::api::{
    views, ContactDetailsView, DocumentData, DocumentDataView, DocumentShape, DocumentShapeView,
};
use crate::canvas::{
    Document, DocumentView, DrawOp, DrawOpView, FontHandle, Layer, Line, LineView, Point, Rgb,
    SectionKind, TextRenderingMode,
};
use crate::consts;
use crate::errors::{AssetError, Error, ErrorView};
use crate::resolver::{resolve, resolved};
use crate::text::joined;
use vstd::prelude::*;

verus! {

/// The divider of the contact section: one point at its fixed place, a
/// closed shape with fill and stroke.
pub open spec fn divider() -> LineView {
    LineView {
        points: seq![(Point { x: consts::DIVIDER_X, y: consts::DIVIDER_Y }, true)],
        is_closed: true,
        has_fill: true,
        has_stroke: true,
        is_clipping_path: false,
    }
}

/// The operations of the header section. The name comes first, large and
/// at the top left of the page; the profession follows on the next line,
/// smaller.
pub open spec fn header_ops(font: FontHandle, name: Seq<char>, profession: Seq<char>) -> Seq<
    DrawOpView,
> {
    seq![
        DrawOpView::BeginTextSection(SectionKind::Header),
        DrawOpView::SetFont { font: font, size: consts::NAME_SIZE },
        DrawOpView::SetTextCursor { x: consts::MARGIN_X, y: consts::HEADER_Y },
        DrawOpView::SetLineHeight(consts::HEADER_LINE_HEIGHT),
        DrawOpView::SetCharacterSpacing(consts::HEADER_SPACING),
        DrawOpView::SetTextRenderingMode(TextRenderingMode::Stroke),
        DrawOpView::WriteText { text: name, font: font },
        DrawOpView::SetFont { font: font, size: consts::PROFESSION_SIZE },
        DrawOpView::AddLineBreak,
        DrawOpView::SetLineOffset(consts::PROFESSION_OFFSET),
        DrawOpView::SetTextRenderingMode(TextRenderingMode::Stroke),
        DrawOpView::WriteText { text: profession, font: font },
        DrawOpView::AddLineBreak,
        DrawOpView::EndTextSection,
    ]
}

/// The operations of the contact section: the heading, the divider, then
/// one line each for the e-mail address, the website, the telephone number
/// and the address, in this order.
pub open spec fn contact_ops(font: FontHandle, details: ContactDetailsView) -> Seq<DrawOpView> {
    seq![
        DrawOpView::BeginTextSection(SectionKind::Contact),
        DrawOpView::SetLineHeight(consts::CONTACT_HEADING_LINE_HEIGHT),
        DrawOpView::SetCharacterSpacing(consts::CONTACT_SPACING),
        DrawOpView::SetTextRenderingMode(TextRenderingMode::Stroke),
        DrawOpView::SetFont { font: font, size: consts::CONTACT_HEADING_SIZE },
        DrawOpView::SetTextCursor { x: consts::MARGIN_X, y: consts::CONTACT_Y },
        DrawOpView::WriteText { text: "CONTACT DETAILS"@, font: font },
        DrawOpView::SetLineHeight(consts::CONTACT_LINE_HEIGHT),
        DrawOpView::SetFillColor(Rgb { r: 0, g: 0, b: consts::DIVIDER_BLUE }),
        DrawOpView::AddShape(divider()),
        DrawOpView::AddLineBreak,
        DrawOpView::SetFont { font: font, size: consts::CONTACT_LINE_SIZE },
        DrawOpView::WriteText { text: "EMAIL:      "@ + details.email, font: font },
        DrawOpView::AddLineBreak,
        DrawOpView::WriteText { text: "PORTFOLIO:  "@ + details.website, font: font },
        DrawOpView::AddLineBreak,
        DrawOpView::WriteText { text: "PHONE #:    "@ + details.phone, font: font },
        DrawOpView::AddLineBreak,
        DrawOpView::WriteText { text: "LOCATION:   "@ + details.address, font: font },
        DrawOpView::EndTextSection,
    ]
}

/// The operations of a whole page: the header section where the data has
/// a header, then the contact section where it has contact details.
pub open spec fn page_ops(font: FontHandle, data: DocumentDataView) -> Seq<DrawOpView> {
    let header = match data.header {
        Some(h) => header_ops(font, h.name, h.profession),
        None => Seq::empty(),
    };
    let contact = match data.contact_details {
        Some(c) => contact_ops(font, c),
        None => Seq::empty(),
    };
    header + contact
}

/// Holds the document that is being drawn and the fonts that it uses. A
/// writer starts without a font; it can draw once a font is loaded.
#[derive(Debug, Clone, PartialEq, Eq)]
pub struct ResumeWriter {
    pub doc: Document,
    /// Where each font is to be read from; the font of a handle is the one
    /// at the handle's index.
    pub fonts: Vec<String>,
}

/// What a value of [`ResumeWriter`] is in contracts: the view of its
/// document, and its fonts as the sequence of their paths.
pub struct ResumeWriterView {
    pub doc: DocumentView,
    pub fonts: Seq<Seq<char>>,
}

impl View for ResumeWriter {
    type V = ResumeWriterView;

    open spec fn view(&self) -> ResumeWriterView {
        ResumeWriterView { doc: self.doc@, fonts: views(self.fonts@) }
    }
}

impl ResumeWriter {
    /// Whether a font is loaded, so that the writer can draw.
    pub open spec fn is_ready(&self) -> bool {
        self@.fonts.len() > 0
    }

    /// A writer for an empty page of the fixed size, without a font.
    pub fn new(title: String) -> (r: ResumeWriter)
        ensures
            r@ == (ResumeWriterView {
                doc: DocumentView {
                    title: title@,
                    width: consts::PAGE_X,
                    height: consts::PAGE_Y,
                    layer_name: "L1"@,
                    layer: Seq::empty(),
                },
                fonts: Seq::empty(),
            }),
            !r.is_ready(),
    {
        let r = ResumeWriter {
            doc: Document {
                title,
                width: consts::PAGE_X,
                height: consts::PAGE_Y,
                layer_name: "L1".to_string(),
                layer: Layer::new(),
            },
            fonts: Vec::new(),
        };
        assert(r@.fonts =~= Seq::<Seq<char>>::empty());
        r
    }

    /// Adds the font of the résumé to the writer's fonts. The document
    /// stays as it is.
    pub fn load_fonts(self) -> (r: ResumeWriter)
        ensures
            r@ == (ResumeWriterView {
                fonts: self@.fonts.push("assets/fonts/lucon.ttf"@),
                ..self@
            }),
            r.is_ready(),
    {
        let mut writer = self;
        let path = "assets/fonts/lucon.ttf".to_string();
        assert(views(writer.fonts@.push(path)) =~= views(writer.fonts@).push(path@));
        writer.fonts.push(path);
        writer
    }

    /// The font that was loaded first.
    pub fn get_primary_font(&self) -> (r: FontHandle)
        requires
            self.is_ready(),
        ensures
            r == FontHandle::primary(),
    {
        FontHandle::first()
    }

    /// Draws the header section behind what is on the layer.
    pub fn header_section(layer: &mut Layer, font: FontHandle, name: String, profession: String)
        ensures
            final(layer)@ == old(layer)@ + header_ops(font, name@, profession@),
    {
        layer.add_operation(DrawOp::BeginTextSection(SectionKind::Header));
        layer.add_operation(DrawOp::SetFont { font, size: consts::NAME_SIZE });
        layer.add_operation(DrawOp::SetTextCursor { x: consts::MARGIN_X, y: consts::HEADER_Y });
        layer.add_operation(DrawOp::SetLineHeight(consts::HEADER_LINE_HEIGHT));
        layer.add_operation(DrawOp::SetCharacterSpacing(consts::HEADER_SPACING));
        layer.add_operation(DrawOp::SetTextRenderingMode(TextRenderingMode::Stroke));
        layer.add_operation(DrawOp::WriteText { text: name, font });
        layer.add_operation(DrawOp::SetFont { font, size: consts::PROFESSION_SIZE });
        layer.add_operation(DrawOp::AddLineBreak);
        layer.add_operation(DrawOp::SetLineOffset(consts::PROFESSION_OFFSET));
        layer.add_operation(DrawOp::SetTextRenderingMode(TextRenderingMode::Stroke));
        layer.add_operation(DrawOp::WriteText { text: profession, font });
        layer.add_operation(DrawOp::AddLineBreak);
        layer.add_operation(DrawOp::EndTextSection);
        assert(layer@ =~= old(layer)@ + header_ops(font, name@, profession@));
    }

    /// Draws the contact section behind what is on the layer. `data` holds
    /// the e-mail address, the website, the telephone number and the
    /// address.
    pub fn contact_section(
        layer: &mut Layer,
        font: FontHandle,
        data: (String, String, String, String),
    )
        ensures
            final(layer)@ == old(layer)@ + contact_ops(
                font,
                ContactDetailsView {
                    email: data.0@,
                    website: data.1@,
                    phone: data.2@,
                    address: data.3@,
                },
            ),
    {
        let (email, website, phone, address) = data;
        let mut points: Vec<(Point, bool)> = Vec::new();
        points.push((Point { x: consts::DIVIDER_X, y: consts::DIVIDER_Y }, true));
        let underline = Line {
            points,
            is_closed: true,
            has_fill: true,
            has_stroke: true,
            is_clipping_path: false,
        };
        assert(underline@.points =~= divider().points);

        layer.add_operation(DrawOp::BeginTextSection(SectionKind::Contact));
        layer.add_operation(DrawOp::SetLineHeight(consts::CONTACT_HEADING_LINE_HEIGHT));
        layer.add_operation(DrawOp::SetCharacterSpacing(consts::CONTACT_SPACING));
        layer.add_operation(DrawOp::SetTextRenderingMode(TextRenderingMode::Stroke));
        layer.add_operation(DrawOp::SetFont { font, size: consts::CONTACT_HEADING_SIZE });
        layer.add_operation(DrawOp::SetTextCursor { x: consts::MARGIN_X, y: consts::CONTACT_Y });
        layer.add_operation(DrawOp::WriteText { text: "CONTACT DETAILS".to_string(), font });
        layer.add_operation(DrawOp::SetLineHeight(consts::CONTACT_LINE_HEIGHT));
        layer.add_operation(
            DrawOp::SetFillColor(Rgb { r: 0, g: 0, b: consts::DIVIDER_BLUE }),
        );
        layer.add_operation(DrawOp::AddShape(underline));
        layer.add_operation(DrawOp::AddLineBreak);
        layer.add_operation(DrawOp::SetFont { font, size: consts::CONTACT_LINE_SIZE });
        layer.add_operation(
            DrawOp::WriteText { text: joined("EMAIL:      ", email.as_str()), font },
        );
        layer.add_operation(DrawOp::AddLineBreak);
        layer.add_operation(
            DrawOp::WriteText { text: joined("PORTFOLIO:  ", website.as_str()), font },
        );
        layer.add_operation(DrawOp::AddLineBreak);
        layer.add_operation(
            DrawOp::WriteText { text: joined("PHONE #:    ", phone.as_str()), font },
        );
        layer.add_operation(DrawOp::AddLineBreak);
        layer.add_operation(
            DrawOp::WriteText { text: joined("LOCATION:   ", address.as_str()), font },
        );
        layer.add_operation(DrawOp::EndTextSection);
        assert(layer@ =~= old(layer)@ + contact_ops(
            font,
            ContactDetailsView {
                email: data.0@,
                website: data.1@,
                phone: data.2@,
                address: data.3@,
            },
        ));
    }
}

/// Checks the fixed resources that `document` needs before it is drawn.
/// There is nothing to check yet: it succeeds for every document.
pub fn assets(document: &DocumentShape) -> (r: Result<(), AssetError>)
    ensures
        r is Ok,
{
    Ok(())
}

/// A page that is drawn and waits to be turned into bytes: the document,
/// the fonts that its operations refer to, and the name of the file that
/// the bytes are meant for.
#[derive(Debug, Clone, PartialEq, Eq)]
pub struct RenderedDocument {
    pub doc: Document,
    /// Where each font is to be read from; the font of a handle is the one
    /// at the handle's index.
    pub fonts: Vec<String>,
    pub filename: String,
}

/// What a value of [`RenderedDocument`] is in contracts: each text as the sequence of
/// its characters, each list as the sequence of its items.
pub struct RenderedDocumentView {
    pub doc: DocumentView,
    pub fonts: Seq<Seq<char>>,
    pub filename: Seq<char>,
}

impl View for RenderedDocument {
    type V = RenderedDocumentView;

    open spec fn view(&self) -> RenderedDocumentView {
        RenderedDocumentView {
            doc: self.doc@,
            fonts: views(self.fonts@),
            filename: self.filename@,
        }
    }
}

/// The page that is drawn from `data`: it has the title of the résumé and
/// the fixed size, its one font is the primary font, and its layer holds
/// the sections that `data` has.
pub open spec fn rendered(data: DocumentDataView) -> RenderedDocumentView {
    RenderedDocumentView {
        doc: DocumentView {
            title: data.title,
            width: consts::PAGE_X,
            height: consts::PAGE_Y,
            layer_name: "L1"@,
            layer: page_ops(FontHandle::primary(), data),
        },
        fonts: seq!["assets/fonts/lucon.ttf"@],
        filename: data.filename,
    }
}

/// Draws the page of a résumé: makes a writer with the title, loads the
/// font, and draws each section that `data` has, the header before the
/// contact details. A section that `data` lacks is left out.
pub fn draw(data: DocumentData) -> (r: RenderedDocument)
    ensures
        r@ == rendered(data@),
{
    let writer = ResumeWriter::new(data.title).load_fonts();
    let font = writer.get_primary_font();
    let ResumeWriter { doc, fonts } = writer;
    let mut doc = doc;
    if let Some(header) = data.header {
        ResumeWriter::header_section(&mut doc.layer, font, header.name, header.profession);
    }
    if let Some(contact) = data.contact_details {
        ResumeWriter::contact_section(
            &mut doc.layer,
            font,
            (contact.email, contact.website, contact.phone, contact.address),
        );
    }
    let r = RenderedDocument { doc, fonts, filename: data.filename };
    proof {
        assert(r@.fonts =~= rendered(data@).fonts);
        assert(r@.doc.layer =~= rendered(data@).doc.layer);
    }
    r
}

/// What rendering a shape gives: the page drawn from the resolved data,
/// or the failure of the resolution.
pub open spec fn rendering(shape: DocumentShapeView) -> Result<RenderedDocumentView, ErrorView> {
    match resolved(shape) {
        Ok(data) => Ok(rendered(data)),
        Err(e) => Err(ErrorView::Resolution(e)),
    }
}

/// The view of what `render` returned.
pub open spec fn render_view(r: Result<RenderedDocument, Error>) -> Result<
    RenderedDocumentView,
    ErrorView,
> {
    match r {
        Ok(page) => Ok(page@),
        Err(e) => Err(e@),
    }
}

/// Resolves `shape` and draws its page. It fails where `shape` does not
/// resolve, with the failure of the resolution, and on no other input.
pub fn render(shape: DocumentShape) -> (r: Result<RenderedDocument, Error>)
    ensures
        render_view(r) == rendering(shape@),
{
    match resolve(shape) {
        Ok(data) => Ok(draw(data)),
        Err(e) => Err(Error::Resolution(e)),
    }
}

/// The places in `ops` at which a section of the kind `kind` starts.
pub open spec fn section_starts(ops: Seq<DrawOpView>, kind: SectionKind) -> Set<int> {
    Set::new(|i: int| 0 <= i < ops.len() && ops[i] == DrawOpView::BeginTextSection(kind))
}

/// A section is drawn exactly where the data has it. Without a header no
/// header section starts anywhere on the page; with a header exactly one
/// starts, as the first operation. Without contact details no contact
/// section starts; with them exactly one starts, right behind the header
/// section or first where there is none.
pub proof fn lemma_sections_follow_data(font: FontHandle, data: DocumentDataView)
    ensures
        section_starts(page_ops(font, data), SectionKind::Header) == if data.header is Some {
            set![0int]
        } else {
            Set::<int>::empty()
        },
        section_starts(page_ops(font, data), SectionKind::Contact) == if data.contact_details
            is Some {
            if data.header is Some {
                set![14int]
            } else {
                set![0int]
            }
        } else {
            Set::<int>::empty()
        },
{
    let ops = page_ops(font, data);
    let header_starts = if data.header is Some {
        set![0int]
    } else {
        Set::<int>::empty()
    };
    let contact_starts = if data.contact_details is Some {
        if data.header is Some {
            set![14int]
        } else {
            set![0int]
        }
    } else {
        Set::<int>::empty()
    };
    assert forall|i: int|
        section_starts(ops, SectionKind::Header).contains(i) == header_starts.contains(
            i,
        ) by {
        lemma_op_kinds(font, data, i);
    }
    assert forall|i: int|
        section_starts(ops, SectionKind::Contact).contains(i) == contact_starts.contains(
            i,
        ) by {
        lemma_op_kinds(font, data, i);
    }
    assert(section_starts(ops, SectionKind::Header) =~= header_starts);
    assert(section_starts(ops, SectionKind::Contact) =~= contact_starts);
}

/// Which operation of a page starts a section: only the first of each
/// section that is drawn.
proof fn lemma_op_kinds(font: FontHandle, data: DocumentDataView, i: int)
    ensures
        ({
            let ops = page_ops(font, data);
            let offset: int = if data.header is Some {
                14
            } else {
                0
            };
            &&& (0 <= i < ops.len() && ops[i] == DrawOpView::BeginTextSection(SectionKind::Header))
                <==> (data.header is Some && i == 0)
            &&& (0 <= i < ops.len() && ops[i] == DrawOpView::BeginTextSection(
                SectionKind::Contact,
            )) <==> (data.contact_details is Some && i == offset)
        }),
{
    let header = match data.header {
        Some(h) => header_ops(font, h.name, h.profession),
        None => Seq::empty(),
    };
    let contact = match data.contact_details {
        Some(c) => contact_ops(font, c),
        None => Seq::empty(),
    };
    let ops = header + contact;
    assert(ops == page_ops(font, data));
    if 0 <= i < ops.len() {
        if i < header.len() {
            assert(ops[i] == header[i]);
        } else {
            assert(ops[i] == contact[i - header.len()]);
        }
    }
}

/// The header section holds the name before the profession, both in its
/// own font sizes, and starts them at the fixed place at the top left of
/// the page.
pub proof fn lemma_header_layout(font: FontHandle, name: Seq<char>, profession: Seq<char>)
    ensures
        header_ops(font, name, profession).len() == 14,
        header_ops(font, name, profession)[1] == (DrawOpView::SetFont { font: font, size: 24 }),
        header_ops(font, name, profession)[2] == (DrawOpView::SetTextCursor { x: 10, y: 285 }),
        header_ops(font, name, profession)[6] == (DrawOpView::WriteText {
            text: name,
            font: font,
        }),
        header_ops(font, name, profession)[7] == (DrawOpView::SetFont { font: font, size: 13 }),
        header_ops(font, name, profession)[11] == (DrawOpView::WriteText {
            text: profession,
            font: font,
        }),
{
}

/// Without a header nothing of a header is drawn: the page holds the
/// contact section alone, or nothing where there are no contact details
/// either.
pub proof fn lemma_page_without_header(font: FontHandle, data: DocumentDataView)
    requires
        data.header is None,
    ensures
        page_ops(font, data) == match data.contact_details {
            Some(c) => contact_ops(font, c),
            None => Seq::empty(),
        },
{
    let contact = match data.contact_details {
        Some(c) => contact_ops(font, c),
        None => Seq::empty(),
    };
    assert(page_ops(font, data) =~= contact);
}

/// With a header the page starts with the header section, which places the
/// cursor at the fixed place of the header. What follows it does not depend
/// on the header: it is the page that the same data gives without one.
pub proof fn lemma_page_with_header(font: FontHandle, data: DocumentDataView)
    requires
        data.header is Some,
    ensures
        page_ops(font, data) == header_ops(font, data.header->0.name, data.header->0.profession)
            + page_ops(font, DocumentDataView { header: None, ..data }),
        page_ops(font, data)[2] == (DrawOpView::SetTextCursor { x: 10, y: 285 }),
{
    lemma_page_without_header(font, DocumentDataView { header: None, ..data });
}

/// Whether `ops` is one whole section of the kind `kind`: it starts the
/// section, ends it with its last operation, and neither starts nor ends a
/// section in between.
pub open spec fn is_section(ops: Seq<DrawOpView>, kind: SectionKind) -> bool {
    &&& ops.len() >= 2
    &&& ops[0] == DrawOpView::BeginTextSection(kind)
    &&& ops[ops.len() - 1] == DrawOpView::EndTextSection
    &&& forall|i: int| 0 < i < ops.len() - 1 ==> !(#[trigger] ops[i]).is_boundary()
}

/// Whether `ops` relies on nothing that was set before it: it chooses a font
/// and places the cursor ahead of every text that it writes.
pub open spec fn starts_fresh(ops: Seq<DrawOpView>) -> bool {
    exists|f: int, c: int|
        {
            &&& 0 <= f < ops.len() && ops[f] is SetFont
            &&& 0 <= c < ops.len() && ops[c] is SetTextCursor
            &&& forall|k: int|
                0 <= k < ops.len() && (#[trigger] ops[k]) is WriteText ==> f < k && c < k
        }
}

/// The header section is whole and on its own: its drawer starts the
/// section, ends it, and chooses the font and the place of the cursor
/// itself before it writes. So the section comes out the same whatever was
/// drawn before it.
pub proof fn lemma_header_stands_alone(font: FontHandle, name: Seq<char>, profession: Seq<char>)
    ensures
        is_section(header_ops(font, name, profession), SectionKind::Header),
        starts_fresh(header_ops(font, name, profession)),
{
    let ops = header_ops(font, name, profession);
    assert(ops.len() == 14);
    assert forall|i: int| 0 < i < ops.len() - 1 implies !(#[trigger] ops[i]).is_boundary() by {
        lemma_header_op_kinds(font, name, profession, i);
    }
    assert forall|k: int| 0 <= k < ops.len() && (#[trigger] ops[k]) is WriteText implies 1 < k && 2
        < k by {
        lemma_header_op_kinds(font, name, profession, k);
    }
    assert(ops[1] is SetFont);
    assert(ops[2] is SetTextCursor);
}

/// What kind of operation stands at each place of the header section.
proof fn lemma_header_op_kinds(font: FontHandle, name: Seq<char>, profession: Seq<char>, i: int)
    requires
        0 <= i < 14,
    ensures
        header_ops(font, name, profession)[i].is_boundary() <==> i == 0 || i == 13,
        header_ops(font, name, profession)[i] is WriteText <==> i == 6 || i == 11,
{
    let ops = header_ops(font, name, profession);
    if i == 0 {
    } else if i == 1 {
    } else if i == 2 {
    } else if i == 3 {
    } else if i == 4 {
    } else if i == 5 {
    } else if i == 6 {
    } else if i == 7 {
    } else if i == 8 {
    } else if i == 9 {
    } else if i == 10 {
    } else if i == 11 {
    } else if i == 12 {
    } else {
    }
}

/// The contact section is whole and on its own, as the header section is.
pub proof fn lemma_contact_stands_alone(font: FontHandle, details: ContactDetailsView)
    ensures
        is_section(contact_ops(font, details), SectionKind::Contact),
        starts_fresh(contact_ops(font, details)),
{
    let ops = contact_ops(font, details);
    assert(ops.len() == 20);
    assert forall|i: int| 0 < i < ops.len() - 1 implies !(#[trigger] ops[i]).is_boundary() by {
        lemma_contact_op_kinds(font, details, i);
    }
    assert forall|k: int| 0 <= k < ops.len() && (#[trigger] ops[k]) is WriteText implies 4 < k && 5
        < k by {
        lemma_contact_op_kinds(font, details, k);
    }
    assert(ops[4] is SetFont);
    assert(ops[5] is SetTextCursor);
}

/// What kind of operation stands at each place of the contact section.
proof fn lemma_contact_op_kinds(font: FontHandle, details: ContactDetailsView, i: int)
    requires
        0 <= i < 20,
    ensures
        contact_ops(font, details)[i].is_boundary() <==> i == 0 || i == 19,
        contact_ops(font, details)[i] is WriteText <==> i == 6 || i == 12 || i == 14 || i == 16
            || i == 18,
{
    let ops = contact_ops(font, details);
    if i == 0 {
    } else if i == 1 {
    } else if i == 2 {
    } else if i == 3 {
    } else if i == 4 {
    } else if i == 5 {
    } else if i == 6 {
    } else if i == 7 {
    } else if i == 8 {
    } else if i == 9 {
    } else if i == 10 {
    } else if i == 11 {
    } else if i == 12 {
    } else if i == 13 {
    } else if i == 14 {
    } else if i == 15 {
    } else if i == 16 {
    } else if i == 17 {
    } else if i == 18 {
    } else {
    }
}

impl RenderedDocumentView {
    /// Whether each operation that refers to a font refers to one of the
    /// fonts of the document.
    pub open spec fn fonts_are_loaded(self) -> bool {
        forall|i: int|
            0 <= i < self.doc.layer.len() ==> match (#[trigger] self.doc.layer[i]).font() {
                Some(font) => font.position() < self.fonts.len(),
                None => true,
            }
    }
}

/// A page is drawn with a font that its document has: no operation of a
/// rendered page refers to a font that is not loaded.
pub proof fn lemma_rendered_fonts_are_loaded(data: DocumentDataView)
    ensures
        rendered(data).fonts_are_loaded(),
{
    let font = FontHandle::primary();
    FontHandle::lemma_primary_is_first();
    let page = rendered(data);
    let header = match data.header {
        Some(h) => header_ops(font, h.name, h.profession),
        None => Seq::empty(),
    };
    let contact = match data.contact_details {
        Some(c) => contact_ops(font, c),
        None => Seq::empty(),
    };
    assert(page.doc.layer == header + contact);
    assert(page.fonts.len() == 1);
    assert forall|i: int| 0 <= i < page.doc.layer.len() implies match (
    #[trigger] page.doc.layer[i]).font() {
        Some(used) => used.position() < page.fonts.len(),
        None => true,
    } by {
        if i < header.len() {
            assert(page.doc.layer[i] == header[i]);
        } else {
            assert(page.doc.layer[i] == contact[i - header.len()]);
        }
    }
}

} // verus!
