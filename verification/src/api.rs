//! The résumé record: the partial shape that is stored and changed one field
//! at a time, and the resolved data that the page is drawn from.

use vstd::prelude::*;

verus! {

/// The views of the items of `items`, in the same order.
pub open spec fn views<T: View>(items: Seq<T>) -> Seq<T::V> {
    items.map_values(|item: T| item@)
}

/// The view of a text that may be unset.
pub open spec fn text_view(text: Option<String>) -> Option<Seq<char>> {
    match text {
        Some(t) => Some(t@),
        None => None,
    }
}

/// The views of the items of a list that may be unset.
pub open spec fn list_view<T: View>(list: Option<Vec<T>>) -> Option<Seq<T::V>> {
    match list {
        Some(items) => Some(views(items@)),
        None => None,
    }
}

/// Pushing an item onto a list pushes its view onto the list's views.
pub proof fn lemma_views_push<T: View>(items: Seq<T>, item: T)
    ensures
        views(items.push(item)) == views(items).push(item@),
{
    assert(views(items.push(item)) =~= views(items).push(item@));
}

/// The name at the top of the page and the profession below it.
#[derive(Debug, Clone, PartialEq, Eq)]
pub struct Header {
    pub name: String,
    pub profession: String,
}

/// What a value of [`Header`] is in contracts: each text as the sequence of
/// its characters, each list as the sequence of its items.
pub struct HeaderView {
    pub name: Seq<char>,
    pub profession: Seq<char>,
}

impl View for Header {
    type V = HeaderView;

    open spec fn view(&self) -> HeaderView {
        HeaderView { name: self.name@, profession: self.profession@ }
    }
}

/// The summary paragraph.
#[derive(Debug, Clone, PartialEq, Eq)]
pub struct Summary {
    pub body: String,
}

/// What a value of [`Summary`] is in contracts: each text as the sequence of
/// its characters, each list as the sequence of its items.
pub struct SummaryView {
    pub body: Seq<char>,
}

impl View for Summary {
    type V = SummaryView;

    open spec fn view(&self) -> SummaryView {
        SummaryView { body: self.body@ }
    }
}

/// How to reach the person.
#[derive(Debug, Clone, PartialEq, Eq)]
pub struct ContactDetails {
    pub email: String,
    pub website: String,
    pub phone: String,
    pub address: String,
}

/// What a value of [`ContactDetails`] is in contracts: each text as the sequence of
/// its characters, each list as the sequence of its items.
pub struct ContactDetailsView {
    pub email: Seq<char>,
    pub website: Seq<char>,
    pub phone: Seq<char>,
    pub address: Seq<char>,
}

impl View for ContactDetails {
    type V = ContactDetailsView;

    open spec fn view(&self) -> ContactDetailsView {
        ContactDetailsView {
            email: self.email@,
            website: self.website@,
            phone: self.phone@,
            address: self.address@,
        }
    }
}

/// One position held, with the dates it started and ended.
#[derive(Debug, PartialEq, Eq)]
pub struct HistoryEntry {
    pub position: String,
    pub location: String,
    pub dates_employed: (String, String),
    pub description: String,
}

/// What a value of [`HistoryEntry`] is in contracts: each text as the sequence of
/// its characters, each list as the sequence of its items.
pub struct HistoryEntryView {
    pub position: Seq<char>,
    pub location: Seq<char>,
    pub dates_employed: (Seq<char>, Seq<char>),
    pub description: Seq<char>,
}

impl View for HistoryEntry {
    type V = HistoryEntryView;

    open spec fn view(&self) -> HistoryEntryView {
        HistoryEntryView {
            position: self.position@,
            location: self.location@,
            dates_employed: (self.dates_employed.0@, self.dates_employed.1@),
            description: self.description@,
        }
    }
}

impl Clone for HistoryEntry {
    fn clone(&self) -> (r: HistoryEntry)
        ensures
            r@ == self@,
    {
        HistoryEntry {
            position: self.position.clone(),
            location: self.location.clone(),
            dates_employed: (self.dates_employed.0.clone(), self.dates_employed.1.clone()),
            description: self.description.clone(),
        }
    }
}

pub type EmploymentHistory = Vec<HistoryEntry>;

/// One skill.
#[derive(Debug, Clone, PartialEq, Eq)]
pub struct Skill {
    pub name: String,
}

/// What a value of [`Skill`] is in contracts: each text as the sequence of
/// its characters, each list as the sequence of its items.
pub struct SkillView {
    pub name: Seq<char>,
}

impl View for Skill {
    type V = SkillView;

    open spec fn view(&self) -> SkillView {
        SkillView { name: self.name@ }
    }
}

pub type SkillSet = Vec<Skill>;

/// One certification and the date it was issued.
#[derive(Debug, Clone, PartialEq, Eq)]
pub struct Certification {
    pub date_issued: String,
    pub name: String,
}

/// What a value of [`Certification`] is in contracts: each text as the sequence of
/// its characters, each list as the sequence of its items.
pub struct CertificationView {
    pub date_issued: Seq<char>,
    pub name: Seq<char>,
}

impl View for Certification {
    type V = CertificationView;

    open spec fn view(&self) -> CertificationView {
        CertificationView { date_issued: self.date_issued@, name: self.name@ }
    }
}

pub type Certifications = Vec<Certification>;

/// One project and where it is deployed.
#[derive(Debug, Clone, PartialEq, Eq)]
pub struct Project {
    pub name: String,
    pub description: String,
    pub deployment: String,
}

/// What a value of [`Project`] is in contracts: each text as the sequence of
/// its characters, each list as the sequence of its items.
pub struct ProjectView {
    pub name: Seq<char>,
    pub description: Seq<char>,
    pub deployment: Seq<char>,
}

impl View for Project {
    type V = ProjectView;

    open spec fn view(&self) -> ProjectView {
        ProjectView {
            name: self.name@,
            description: self.description@,
            deployment: self.deployment@,
        }
    }
}

pub type Projects = Vec<Project>;

/// One period of education.
#[derive(Debug, PartialEq, Eq)]
pub struct EducationEntry {
    pub dates: (String, String),
    pub name: String,
    pub location: String,
    pub description: String,
}

/// What a value of [`EducationEntry`] is in contracts: each text as the sequence of
/// its characters, each list as the sequence of its items.
pub struct EducationEntryView {
    pub dates: (Seq<char>, Seq<char>),
    pub name: Seq<char>,
    pub location: Seq<char>,
    pub description: Seq<char>,
}

impl View for EducationEntry {
    type V = EducationEntryView;

    open spec fn view(&self) -> EducationEntryView {
        EducationEntryView {
            dates: (self.dates.0@, self.dates.1@),
            name: self.name@,
            location: self.location@,
            description: self.description@,
        }
    }
}

impl Clone for EducationEntry {
    fn clone(&self) -> (r: EducationEntry)
        ensures
            r@ == self@,
    {
        EducationEntry {
            dates: (self.dates.0.clone(), self.dates.1.clone()),
            name: self.name.clone(),
            location: self.location.clone(),
            description: self.description.clone(),
        }
    }
}

pub type Education = Vec<EducationEntry>;

/// What has been set of a résumé so far. A field that is `None` is unset,
/// which is not the same as set to an empty text.
#[derive(Debug, Clone, PartialEq, Eq)]
pub struct DocumentShape {
    pub filename: Option<String>,
    pub title: Option<String>,
    pub header: Option<Header>,
    pub summary: Option<Summary>,
    pub employment_history: Option<EmploymentHistory>,
    pub projects: Option<Projects>,
    pub contact_details: Option<ContactDetails>,
    pub skillset: Option<SkillSet>,
    pub certifications: Option<Certifications>,
}

/// What a value of [`DocumentShape`] is in contracts: each text as the sequence of
/// its characters, each list as the sequence of its items.
pub struct DocumentShapeView {
    pub filename: Option<Seq<char>>,
    pub title: Option<Seq<char>>,
    pub header: Option<HeaderView>,
    pub summary: Option<SummaryView>,
    pub employment_history: Option<Seq<HistoryEntryView>>,
    pub projects: Option<Seq<ProjectView>>,
    pub contact_details: Option<ContactDetailsView>,
    pub skillset: Option<Seq<SkillView>>,
    pub certifications: Option<Seq<CertificationView>>,
}

impl View for DocumentShape {
    type V = DocumentShapeView;

    open spec fn view(&self) -> DocumentShapeView {
        DocumentShapeView {
            filename: text_view(self.filename),
            title: text_view(self.title),
            header: match self.header {
                Some(h) => Some(h@),
                None => None,
            },
            summary: match self.summary {
                Some(s) => Some(s@),
                None => None,
            },
            employment_history: list_view(self.employment_history),
            projects: list_view(self.projects),
            contact_details: match self.contact_details {
                Some(c) => Some(c@),
                None => None,
            },
            skillset: list_view(self.skillset),
            certifications: list_view(self.certifications),
        }
    }
}

impl DocumentShapeView {
    /// The shape of a résumé of which nothing was set yet: the two names
    /// have their defaults and every section is unset.
    pub open spec fn initial() -> DocumentShapeView {
        DocumentShapeView {
            filename: Some("My_Current_Resume.pdf"@),
            title: Some("Joshua_Diehl_Software_Professional"@),
            header: None,
            summary: None,
            employment_history: None,
            projects: None,
            contact_details: None,
            skillset: None,
            certifications: None,
        }
    }
}

impl Default for DocumentShape {
    fn default() -> (r: DocumentShape)
        ensures
            r@ == DocumentShapeView::initial(),
    {
        DocumentShape {
            filename: Some("My_Current_Resume.pdf".to_string()),
            title: Some("Joshua_Diehl_Software_Professional".to_string()),
            header: None,
            summary: None,
            employment_history: None,
            projects: None,
            contact_details: None,
            skillset: None,
            certifications: None,
        }
    }
}

/// A résumé that a page can be drawn from: the two names are there, and
/// each section is there or left out.
#[derive(Debug, Clone, PartialEq, Eq)]
pub struct DocumentData {
    pub filename: String,
    pub title: String,
    pub header: Option<Header>,
    pub summary: Option<Summary>,
    pub employment_history: Option<EmploymentHistory>,
    pub projects: Option<Projects>,
    pub contact_details: Option<ContactDetails>,
    pub skillset: Option<SkillSet>,
    pub certifications: Option<Certifications>,
}

/// What a value of [`DocumentData`] is in contracts: each text as the sequence of
/// its characters, each list as the sequence of its items.
pub struct DocumentDataView {
    pub filename: Seq<char>,
    pub title: Seq<char>,
    pub header: Option<HeaderView>,
    pub summary: Option<SummaryView>,
    pub employment_history: Option<Seq<HistoryEntryView>>,
    pub projects: Option<Seq<ProjectView>>,
    pub contact_details: Option<ContactDetailsView>,
    pub skillset: Option<Seq<SkillView>>,
    pub certifications: Option<Seq<CertificationView>>,
}

impl View for DocumentData {
    type V = DocumentDataView;

    open spec fn view(&self) -> DocumentDataView {
        DocumentDataView {
            filename: self.filename@,
            title: self.title@,
            header: match self.header {
                Some(h) => Some(h@),
                None => None,
            },
            summary: match self.summary {
                Some(s) => Some(s@),
                None => None,
            },
            employment_history: list_view(self.employment_history),
            projects: list_view(self.projects),
            contact_details: match self.contact_details {
                Some(c) => Some(c@),
                None => None,
            },
            skillset: list_view(self.skillset),
            certifications: list_view(self.certifications),
        }
    }
}

} // verus!
