use portform::api::{
    Certification, ContactDetails, DocumentShape, Header, HistoryEntry, Project, Skill, Summary,
};
use portform::store::{ContactPatch, Entry, FieldValue, Mutation};

fn empty_shape() -> DocumentShape {
    DocumentShape {
        filename: None,
        title: None,
        header: None,
        summary: None,
        employment_history: None,
        projects: None,
        contact_details: None,
        skillset: None,
        certifications: None,
    }
}

fn skill(name: &str) -> Skill {
    Skill { name: name.to_string() }
}

fn job(position: &str) -> HistoryEntry {
    HistoryEntry {
        position: position.to_string(),
        location: "Berlin".to_string(),
        dates_employed: ("2019".to_string(), "2021".to_string()),
        description: "built things".to_string(),
    }
}

#[test]
fn default_shape_has_the_two_names_and_no_section() {
    let shape = DocumentShape::default();
    assert_eq!(shape.filename, Some("My_Current_Resume.pdf".to_string()));
    assert_eq!(shape.title, Some("Joshua_Diehl_Software_Professional".to_string()));
    assert_eq!(shape.header, None);
    assert_eq!(shape.summary, None);
    assert_eq!(shape.employment_history, None);
    assert_eq!(shape.projects, None);
    assert_eq!(shape.contact_details, None);
    assert_eq!(shape.skillset, None);
    assert_eq!(shape.certifications, None);
}

#[test]
fn set_field_overwrites_the_file_name() {
    let mut shape = DocumentShape::default();
    shape.set_field(FieldValue::Filename(Some("cv.pdf".to_string())));
    assert_eq!(shape.filename, Some("cv.pdf".to_string()));
    assert_eq!(shape.title, Some("Joshua_Diehl_Software_Professional".to_string()));
}

#[test]
fn set_field_twice_keeps_only_the_second_value() {
    let mut twice = DocumentShape::default();
    twice.set_field(FieldValue::Header(Header {
        name: "Jane Doe".to_string(),
        profession: "Engineer".to_string(),
    }));
    twice.set_field(FieldValue::Header(Header {
        name: "J. Doe".to_string(),
        profession: String::new(),
    }));
    let mut once = DocumentShape::default();
    once.set_field(FieldValue::Header(Header {
        name: "J. Doe".to_string(),
        profession: String::new(),
    }));
    assert_eq!(twice, once);
    assert_eq!(
        twice.header,
        Some(Header { name: "J. Doe".to_string(), profession: String::new() })
    );
}

#[test]
fn set_field_can_unset_a_name() {
    let mut shape = DocumentShape::default();
    shape.set_field(FieldValue::Title(None));
    assert_eq!(shape.title, None);
    assert_eq!(shape.filename, Some("My_Current_Resume.pdf".to_string()));
}

#[test]
fn set_field_keeps_an_empty_text_apart_from_unset() {
    let mut shape = empty_shape();
    shape.set_field(FieldValue::Title(Some(String::new())));
    assert_eq!(shape.title, Some(String::new()));
    assert_ne!(shape.title, None);
}

#[test]
fn set_field_sets_the_summary() {
    let mut shape = empty_shape();
    shape.set_field(FieldValue::Summary(Summary { body: "short".to_string() }));
    assert_eq!(shape.summary, Some(Summary { body: "short".to_string() }));
    assert_eq!(shape.header, None);
}

#[test]
fn append_entry_creates_the_list() {
    let mut shape = empty_shape();
    shape.append_entry(Entry::Skill(skill("rust")));
    assert_eq!(shape.skillset, Some(vec![skill("rust")]));
    assert_eq!(shape.projects, None);
    assert_eq!(shape.employment_history, None);
    assert_eq!(shape.certifications, None);
}

#[test]
fn append_entry_keeps_the_order_of_the_calls() {
    let mut shape = empty_shape();
    let names = ["a", "b", "c", "d", "e"];
    for name in names {
        shape.append_entry(Entry::Skill(skill(name)));
    }
    let list = shape.skillset.expect("the list is set");
    assert_eq!(list.len(), 5);
    for (i, name) in names.iter().enumerate() {
        assert_eq!(list[i], skill(name));
    }
}

#[test]
fn append_entry_does_not_deduplicate() {
    let mut shape = empty_shape();
    shape.append_entry(Entry::Employment(job("dev")));
    shape.append_entry(Entry::Employment(job("dev")));
    assert_eq!(shape.employment_history, Some(vec![job("dev"), job("dev")]));
}

#[test]
fn append_entry_goes_to_the_list_of_its_kind() {
    let mut shape = empty_shape();
    let project = Project {
        name: "p".to_string(),
        description: "d".to_string(),
        deployment: "x.org".to_string(),
    };
    let certification =
        Certification { date_issued: "2020".to_string(), name: "cert".to_string() };
    shape.append_entry(Entry::Project(project.clone()));
    shape.append_entry(Entry::Certification(certification.clone()));
    shape.append_entry(Entry::Employment(job("lead")));
    assert_eq!(shape.projects, Some(vec![project]));
    assert_eq!(shape.certifications, Some(vec![certification]));
    assert_eq!(shape.employment_history, Some(vec![job("lead")]));
    assert_eq!(shape.skillset, None);
}

#[test]
fn update_contact_replaces_what_is_given() {
    let mut shape = empty_shape();
    shape.contact_details = Some(ContactDetails {
        email: "j@x.com".to_string(),
        website: "x.com".to_string(),
        phone: "555".to_string(),
        address: "Earth".to_string(),
    });
    shape.update_contact(ContactPatch {
        email: None,
        website: Some("y.org".to_string()),
        phone: None,
        address: Some(String::new()),
    });
    assert_eq!(
        shape.contact_details,
        Some(ContactDetails {
            email: "j@x.com".to_string(),
            website: "y.org".to_string(),
            phone: "555".to_string(),
            address: String::new(),
        })
    );
}

#[test]
fn update_contact_starts_from_empty_details() {
    let mut shape = empty_shape();
    shape.update_contact(ContactPatch {
        email: Some("j@x.com".to_string()),
        website: None,
        phone: None,
        address: None,
    });
    assert_eq!(
        shape.contact_details,
        Some(ContactDetails {
            email: "j@x.com".to_string(),
            website: String::new(),
            phone: String::new(),
            address: String::new(),
        })
    );
}

#[test]
fn apply_makes_the_change_it_is_given() {
    let mut by_apply = empty_shape();
    by_apply.apply(Mutation::Overwrite(FieldValue::Filename(Some("a.pdf".to_string()))));
    by_apply.apply(Mutation::Append(Entry::Skill(skill("go"))));
    by_apply.apply(Mutation::Contact(ContactPatch {
        email: None,
        website: None,
        phone: Some("1".to_string()),
        address: None,
    }));
    let mut direct = empty_shape();
    direct.set_field(FieldValue::Filename(Some("a.pdf".to_string())));
    direct.append_entry(Entry::Skill(skill("go")));
    direct.update_contact(ContactPatch {
        email: None,
        website: None,
        phone: Some("1".to_string()),
        address: None,
    });
    assert_eq!(by_apply, direct);
    assert_eq!(by_apply.filename, Some("a.pdf".to_string()));
    assert_eq!(by_apply.skillset, Some(vec![skill("go")]));
}

#[test]
fn history_entry_clone_is_equal() {
    let entry = job("dev");
    assert_eq!(entry.clone(), entry);
}

#[test]
fn append_entry_extends_a_list_that_is_set_and_empty() {
    let mut shape = empty_shape();
    shape.skillset = Some(vec![]);
    shape.append_entry(Entry::Skill(skill("rust")));
    assert_eq!(shape.skillset, Some(vec![skill("rust")]));
}

#[test]
fn append_entry_keeps_the_entries_that_were_there() {
    let mut shape = empty_shape();
    shape.employment_history = Some(vec![job("first"), job("second")]);
    shape.append_entry(Entry::Employment(job("third")));
    assert_eq!(
        shape.employment_history,
        Some(vec![job("first"), job("second"), job("third")])
    );
}

#[test]
fn a_change_to_one_field_leaves_the_others() {
    let mut shape = empty_shape();
    shape.filename = Some("cv.pdf".to_string());
    shape.header = Some(Header { name: "J".to_string(), profession: "E".to_string() });
    shape.skillset = Some(vec![skill("a")]);
    shape.projects = Some(vec![]);
    let before = shape.clone();
    shape.set_field(FieldValue::Summary(Summary { body: "Zusammenfassung é".to_string() }));
    assert_eq!(shape.summary, Some(Summary { body: "Zusammenfassung é".to_string() }));
    shape.summary = None;
    assert_eq!(shape, before);
}
