use portform::errors::{
    AssetError, Error, PersistenceError, ResolutionError, SerializationError,
};

#[test]
fn persistence_errors_say_what_failed() {
    assert_eq!(
        PersistenceError::Unreadable("denied".to_string()).message(),
        "cannot read the configuration: denied"
    );
    assert_eq!(
        PersistenceError::Unwritable("disk full".to_string()).message(),
        "cannot write the configuration: disk full"
    );
    assert_eq!(
        PersistenceError::Unparsable("line 3".to_string()).message(),
        "cannot parse the configuration: line 3"
    );
}

#[test]
fn resolution_errors_name_the_field() {
    assert_eq!(
        ResolutionError::MissingField("title".to_string()).message(),
        "missing required field: title"
    );
}

#[test]
fn asset_errors_name_the_path() {
    let error = AssetError {
        path: "assets/fonts/lucon.ttf".to_string(),
        detail: "not found".to_string(),
    };
    assert_eq!(error.message(), "cannot load assets/fonts/lucon.ttf: not found");
}

#[test]
fn serialization_errors_give_the_detail() {
    let error = SerializationError { detail: "broken".to_string() };
    assert_eq!(error.message(), "cannot assemble the document: broken");
}

#[test]
fn an_error_speaks_as_what_it_holds() {
    let inner = ResolutionError::MissingField("filename".to_string());
    assert_eq!(Error::Resolution(inner.clone()).message(), inner.message());
    let inner = PersistenceError::Unparsable(String::new());
    assert_eq!(Error::Persistence(inner.clone()).message(), "cannot parse the configuration: ");
    let inner = AssetError { path: "p".to_string(), detail: "d".to_string() };
    assert_eq!(Error::Asset(inner).message(), "cannot load p: d");
    let inner = SerializationError { detail: "d".to_string() };
    assert_eq!(Error::Serialization(inner).message(), "cannot assemble the document: d");
}
