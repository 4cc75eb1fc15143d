use portform::api::{ContactDetails, DocumentShape, Header, Skill, Summary};
use portform::errors::ResolutionError;
use portform::resolver::resolve;

#[test]
fn a_shape_without_title_does_not_resolve() {
    let mut shape = DocumentShape::default();
    shape.title = None;
    assert_eq!(resolve(shape), Err(ResolutionError::MissingField("title".to_string())));
}

#[test]
fn a_shape_without_file_name_does_not_resolve() {
    let mut shape = DocumentShape::default();
    shape.filename = None;
    assert_eq!(resolve(shape), Err(ResolutionError::MissingField("filename".to_string())));
}

#[test]
fn the_title_is_asked_for_first() {
    let mut shape = DocumentShape::default();
    shape.title = None;
    shape.filename = None;
    shape.header =
        Some(Header { name: "Jane Doe".to_string(), profession: "Engineer".to_string() });
    assert_eq!(resolve(shape), Err(ResolutionError::MissingField("title".to_string())));
}

#[test]
fn the_two_names_alone_resolve_to_data_without_sections() {
    let mut shape = DocumentShape::default();
    shape.filename = Some("out.pdf".to_string());
    shape.title = Some("T".to_string());
    let data = resolve(shape).expect("both names are set");
    assert_eq!(data.filename, "out.pdf");
    assert_eq!(data.title, "T");
    assert_eq!(data.header, None);
    assert_eq!(data.summary, None);
    assert_eq!(data.employment_history, None);
    assert_eq!(data.projects, None);
    assert_eq!(data.contact_details, None);
    assert_eq!(data.skillset, None);
    assert_eq!(data.certifications, None);
}

#[test]
fn an_empty_title_is_a_title() {
    let mut shape = DocumentShape::default();
    shape.title = Some(String::new());
    let data = resolve(shape).expect("an empty title is set");
    assert_eq!(data.title, "");
}

#[test]
fn the_sections_go_over_unchanged() {
    let header = Header { name: "Jane Doe".to_string(), profession: "Engineer".to_string() };
    let contact = ContactDetails {
        email: "j@x.com".to_string(),
        website: "x.com".to_string(),
        phone: "555".to_string(),
        address: "Earth".to_string(),
    };
    let mut shape = DocumentShape::default();
    shape.header = Some(header.clone());
    shape.summary = Some(Summary { body: "b".to_string() });
    shape.contact_details = Some(contact.clone());
    shape.skillset = Some(vec![Skill { name: "rust".to_string() }]);
    let data = resolve(shape).expect("both names are set");
    assert_eq!(data.filename, "My_Current_Resume.pdf");
    assert_eq!(data.header, Some(header));
    assert_eq!(data.summary, Some(Summary { body: "b".to_string() }));
    assert_eq!(data.contact_details, Some(contact));
    assert_eq!(data.skillset, Some(vec![Skill { name: "rust".to_string() }]));
    assert_eq!(data.projects, None);
}
