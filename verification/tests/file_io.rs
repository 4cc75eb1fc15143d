use portform::api::{DocumentShape, Header, Skill};
use portform::errors::{Error, PersistenceError};
use portform::file_io::{ConfigFileHandler, FileHandler, Stored};

#[test]
fn reading_nothing_gives_the_default_shape() {
    assert_eq!(ConfigFileHandler::read(Stored::Absent), Ok(DocumentShape::default()));
}

#[test]
fn reading_hands_the_record_on_unchanged() {
    let mut full = DocumentShape::default();
    full.header = Some(Header { name: "Jane Doe".to_string(), profession: String::new() });
    full.skillset = Some(vec![Skill { name: "rust".to_string() }]);
    full.projects = Some(vec![]);
    assert_eq!(ConfigFileHandler::read(Stored::Parsed(full.clone())), Ok(full));

    let empty = DocumentShape {
        filename: None,
        title: None,
        header: None,
        summary: None,
        employment_history: None,
        projects: None,
        contact_details: None,
        skillset: None,
        certifications: None,
    };
    assert_eq!(ConfigFileHandler::read(Stored::Parsed(empty.clone())), Ok(empty));
}

#[test]
fn reading_fails_where_the_record_is_of_no_use() {
    assert_eq!(
        ConfigFileHandler::read(Stored::Unparsable("expected value".to_string())),
        Err(Error::Persistence(PersistenceError::Unparsable("expected value".to_string())))
    );
    assert_eq!(
        ConfigFileHandler::read(Stored::Unreadable("denied".to_string())),
        Err(Error::Persistence(PersistenceError::Unreadable("denied".to_string())))
    );
}
