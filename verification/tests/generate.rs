use portform::api::{ContactDetails, DocumentShape, Header};
use portform::errors::{Error, ResolutionError};
use portform::canvas::{
    Document, DrawOp, FontHandle, Layer, Line, Point, Rgb, SectionKind, TextRenderingMode,
};
use portform::generate::{assets, draw, render, RenderedDocument, ResumeWriter};
use portform::resolver::resolve;

fn primary_font() -> FontHandle {
    ResumeWriter::new("T".to_string()).load_fonts().get_primary_font()
}

fn text(value: &str, font: FontHandle) -> DrawOp {
    DrawOp::WriteText { text: value.to_string(), font }
}

fn expected_header(font: FontHandle, name: &str, profession: &str) -> Vec<DrawOp> {
    vec![
        DrawOp::BeginTextSection(SectionKind::Header),
        DrawOp::SetFont { font, size: 24 },
        DrawOp::SetTextCursor { x: 10, y: 285 },
        DrawOp::SetLineHeight(20),
        DrawOp::SetCharacterSpacing(3),
        DrawOp::SetTextRenderingMode(TextRenderingMode::Stroke),
        text(name, font),
        DrawOp::SetFont { font, size: 13 },
        DrawOp::AddLineBreak,
        DrawOp::SetLineOffset(5),
        DrawOp::SetTextRenderingMode(TextRenderingMode::Stroke),
        text(profession, font),
        DrawOp::AddLineBreak,
        DrawOp::EndTextSection,
    ]
}

fn expected_contact(
    font: FontHandle,
    email: &str,
    website: &str,
    phone: &str,
    address: &str,
) -> Vec<DrawOp> {
    vec![
        DrawOp::BeginTextSection(SectionKind::Contact),
        DrawOp::SetLineHeight(10),
        DrawOp::SetCharacterSpacing(1),
        DrawOp::SetTextRenderingMode(TextRenderingMode::Stroke),
        DrawOp::SetFont { font, size: 10 },
        DrawOp::SetTextCursor { x: 10, y: 270 },
        text("CONTACT DETAILS", font),
        DrawOp::SetLineHeight(11),
        DrawOp::SetFillColor(Rgb { r: 0, g: 0, b: 210 }),
        DrawOp::AddShape(Line {
            points: vec![(Point { x: 160, y: 275 }, true)],
            is_closed: true,
            has_fill: true,
            has_stroke: true,
            is_clipping_path: false,
        }),
        DrawOp::AddLineBreak,
        DrawOp::SetFont { font, size: 9 },
        text(&format!("EMAIL:      {}", email), font),
        DrawOp::AddLineBreak,
        text(&format!("PORTFOLIO:  {}", website), font),
        DrawOp::AddLineBreak,
        text(&format!("PHONE #:    {}", phone), font),
        DrawOp::AddLineBreak,
        text(&format!("LOCATION:   {}", address), font),
        DrawOp::EndTextSection,
    ]
}

fn jane() -> DocumentShape {
    let mut shape = DocumentShape::default();
    shape.filename = Some("out.pdf".to_string());
    shape.title = Some("T".to_string());
    shape.header =
        Some(Header { name: "Jane Doe".to_string(), profession: "Engineer".to_string() });
    shape.contact_details = Some(ContactDetails {
        email: "j@x.com".to_string(),
        website: "x.com".to_string(),
        phone: "555".to_string(),
        address: "Earth".to_string(),
    });
    shape
}

fn position_of(ops: &[DrawOp], wanted: &DrawOp) -> usize {
    ops.iter().position(|op| op == wanted).expect("the operation is on the page")
}

fn count_of(ops: &[DrawOp], wanted: &DrawOp) -> usize {
    ops.iter().filter(|op| *op == wanted).count()
}

#[test]
fn a_new_writer_has_an_empty_page_and_no_font() {
    let writer = ResumeWriter::new("My title".to_string());
    assert_eq!(writer.doc.title, "My title");
    assert_eq!(writer.doc.width, 210);
    assert_eq!(writer.doc.height, 297);
    assert_eq!(writer.doc.layer_name, "L1");
    assert_eq!(writer.doc.layer, Layer { ops: vec![] });
    assert!(writer.fonts.is_empty());
}

#[test]
fn load_fonts_adds_the_font_of_the_resume() {
    let writer = ResumeWriter::new("T".to_string()).load_fonts();
    assert_eq!(writer.fonts, vec!["assets/fonts/lucon.ttf".to_string()]);
    assert_eq!(writer.doc.title, "T");
    assert!(writer.doc.layer.ops.is_empty());
}

#[test]
fn the_primary_font_is_the_first_one() {
    let writer = ResumeWriter::new("T".to_string()).load_fonts().load_fonts();
    assert_eq!(writer.fonts.len(), 2);
    assert_eq!(writer.get_primary_font().index(), 0);
}

#[test]
fn add_operation_records_behind_what_is_there() {
    let mut layer = Layer::new();
    assert!(layer.ops.is_empty());
    layer.add_operation(DrawOp::AddLineBreak);
    layer.add_operation(DrawOp::SetLineHeight(7));
    assert_eq!(layer.ops, vec![DrawOp::AddLineBreak, DrawOp::SetLineHeight(7)]);
}

#[test]
fn header_section_draws_the_name_above_the_profession() {
    let font = primary_font();
    let mut layer = Layer::new();
    ResumeWriter::header_section(
        &mut layer,
        font,
        "Jane Doe".to_string(),
        "Engineer".to_string(),
    );
    assert_eq!(layer.ops, expected_header(font, "Jane Doe", "Engineer"));
    let name = position_of(&layer.ops, &text("Jane Doe", font));
    let profession = position_of(&layer.ops, &text("Engineer", font));
    assert!(name < profession);
}

#[test]
fn header_section_keeps_what_was_drawn() {
    let font = primary_font();
    let mut layer = Layer::new();
    layer.add_operation(DrawOp::AddLineBreak);
    ResumeWriter::header_section(&mut layer, font, String::new(), String::new());
    let mut expected = vec![DrawOp::AddLineBreak];
    expected.extend(expected_header(font, "", ""));
    assert_eq!(layer.ops, expected);
}

#[test]
fn contact_section_draws_four_lines_in_order() {
    let font = primary_font();
    let mut layer = Layer::new();
    ResumeWriter::contact_section(
        &mut layer,
        font,
        ("j@x.com".to_string(), "x.com".to_string(), "555".to_string(), "Earth".to_string()),
    );
    assert_eq!(layer.ops, expected_contact(font, "j@x.com", "x.com", "555", "Earth"));
    let email = position_of(&layer.ops, &text("EMAIL:      j@x.com", font));
    let website = position_of(&layer.ops, &text("PORTFOLIO:  x.com", font));
    let phone = position_of(&layer.ops, &text("PHONE #:    555", font));
    let address = position_of(&layer.ops, &text("LOCATION:   Earth", font));
    assert!(email < website && website < phone && phone < address);
}

#[test]
fn the_divider_does_not_follow_the_texts() {
    let font = primary_font();
    let mut short = Layer::new();
    ResumeWriter::contact_section(
        &mut short,
        font,
        (String::new(), String::new(), String::new(), String::new()),
    );
    let mut long = Layer::new();
    ResumeWriter::contact_section(
        &mut long,
        font,
        ("e".repeat(300), "w".repeat(300), "p".repeat(300), "a".repeat(300)),
    );
    assert_eq!(short.ops[9], long.ops[9]);
    assert!(matches!(short.ops[9], DrawOp::AddShape(_)));
}

#[test]
fn rendering_without_header_draws_no_header_section() {
    let mut shape = jane();
    shape.header = None;
    let page = render(shape).expect("both names are set");
    let font = primary_font();
    assert_eq!(count_of(&page.doc.layer.ops, &DrawOp::BeginTextSection(SectionKind::Header)), 0);
    assert_eq!(page.doc.layer.ops, expected_contact(font, "j@x.com", "x.com", "555", "Earth"));
}

#[test]
fn rendering_with_header_draws_one_header_section_at_its_place() {
    let mut shape = jane();
    shape.contact_details = None;
    let page = render(shape).expect("both names are set");
    let ops = &page.doc.layer.ops;
    assert_eq!(count_of(ops, &DrawOp::BeginTextSection(SectionKind::Header)), 1);
    assert_eq!(ops[0], DrawOp::BeginTextSection(SectionKind::Header));
    assert_eq!(ops[2], DrawOp::SetTextCursor { x: 10, y: 285 });
    assert_eq!(count_of(ops, &DrawOp::BeginTextSection(SectionKind::Contact)), 0);
    assert_eq!(ops.len(), 14);
}

#[test]
fn rendering_without_sections_draws_nothing() {
    let mut shape = DocumentShape::default();
    shape.title = Some("T".to_string());
    let page = render(shape).expect("both names are set");
    assert!(page.doc.layer.ops.is_empty());
    assert_eq!(page.doc.title, "T");
    assert_eq!(page.filename, "My_Current_Resume.pdf");
    assert_eq!(page.fonts, vec!["assets/fonts/lucon.ttf".to_string()]);
}

#[test]
fn rendering_the_whole_resume() {
    let page = render(jane()).expect("both names are set");
    let font = primary_font();
    let mut expected = expected_header(font, "Jane Doe", "Engineer");
    expected.extend(expected_contact(font, "j@x.com", "x.com", "555", "Earth"));
    assert_eq!(
        page,
        RenderedDocument {
            doc: Document {
                title: "T".to_string(),
                width: 210,
                height: 297,
                layer_name: "L1".to_string(),
                layer: Layer { ops: expected },
            },
            fonts: vec!["assets/fonts/lucon.ttf".to_string()],
            filename: "out.pdf".to_string(),
        }
    );
    let ops = &page.doc.layer.ops;
    let name = position_of(ops, &text("Jane Doe", font));
    let profession = position_of(ops, &text("Engineer", font));
    let email = position_of(ops, &text("EMAIL:      j@x.com", font));
    let website = position_of(ops, &text("PORTFOLIO:  x.com", font));
    let phone = position_of(ops, &text("PHONE #:    555", font));
    let address = position_of(ops, &text("LOCATION:   Earth", font));
    assert!(name < profession);
    assert!(profession < email);
    assert!(email < website && website < phone && phone < address);
    assert_eq!(count_of(ops, &DrawOp::BeginTextSection(SectionKind::Header)), 1);
    assert_eq!(count_of(ops, &DrawOp::BeginTextSection(SectionKind::Contact)), 1);
    assert_eq!(count_of(ops, &DrawOp::EndTextSection), 2);
}

#[test]
fn the_contact_section_is_the_same_with_and_without_header() {
    let with = render(jane()).expect("both names are set");
    let mut shape = jane();
    shape.header = None;
    let without = render(shape).expect("both names are set");
    assert_eq!(with.doc.layer.ops[14..], without.doc.layer.ops[..]);
}

#[test]
fn rendering_fails_as_resolving_fails() {
    let mut shape = jane();
    shape.title = None;
    assert_eq!(
        render(shape),
        Err(Error::Resolution(ResolutionError::MissingField("title".to_string())))
    );
    let mut shape = jane();
    shape.filename = None;
    assert_eq!(
        render(shape),
        Err(Error::Resolution(ResolutionError::MissingField("filename".to_string())))
    );
}

#[test]
fn draw_is_what_render_does_after_resolving() {
    let data = resolve(jane()).expect("both names are set");
    assert_eq!(Ok(draw(data)), render(jane()));
}

#[test]
fn assets_has_nothing_to_refuse() {
    assert_eq!(assets(&DocumentShape::default()), Ok(()));
    assert_eq!(assets(&jane()), Ok(()));
}

#[test]
fn texts_are_drawn_as_they_are() {
    let font = primary_font();
    let mut layer = Layer::new();
    ResumeWriter::header_section(
        &mut layer,
        font,
        "Zoë  Müller-Łódź ".to_string(),
        " ".to_string(),
    );
    assert_eq!(layer.ops[6], text("Zoë  Müller-Łódź ", font));
    assert_eq!(layer.ops[11], text(" ", font));
}
