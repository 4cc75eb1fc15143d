//! The changes to the record: a single-valued field is overwritten, an
//! entry is appended to its list, and the contact details are replaced one
//! by one. Every change is a function from the record to the record.

use crate::api::{
    lemma_views_push, list_view, text_view, views, Certification, CertificationView,
    ContactDetails, ContactDetailsView, DocumentShape, DocumentShapeView, Header, HeaderView,
    HistoryEntry, HistoryEntryView, Project, ProjectView, Skill, SkillView, Summary, SummaryView,
};
use vstd::prelude::*;

verus! {

/// A new value for one of the fields that hold a single value. `None` for
/// a name unsets it.
#[derive(Debug, Clone, PartialEq, Eq)]
pub enum FieldValue {
    Filename(Option<String>),
    Title(Option<String>),
    Header(Header),
    Summary(Summary),
}

/// What a value of [`FieldValue`] is in contracts: each text as the sequence of
/// its characters, each list as the sequence of its items.
pub enum FieldValueView {
    Filename(Option<Seq<char>>),
    Title(Option<Seq<char>>),
    Header(HeaderView),
    Summary(SummaryView),
}

impl View for FieldValue {
    type V = FieldValueView;

    open spec fn view(&self) -> FieldValueView {
        match self {
            FieldValue::Filename(name) => FieldValueView::Filename(text_view(*name)),
            FieldValue::Title(title) => FieldValueView::Title(text_view(*title)),
            FieldValue::Header(header) => FieldValueView::Header(header@),
            FieldValue::Summary(summary) => FieldValueView::Summary(summary@),
        }
    }
}

impl FieldValueView {
    /// Whether `self` and `other` are values for the same field.
    pub open spec fn same_field(self, other: FieldValueView) -> bool {
        match (self, other) {
            (FieldValueView::Filename(_), FieldValueView::Filename(_)) => true,
            (FieldValueView::Title(_), FieldValueView::Title(_)) => true,
            (FieldValueView::Header(_), FieldValueView::Header(_)) => true,
            (FieldValueView::Summary(_), FieldValueView::Summary(_)) => true,
            _ => false,
        }
    }
}

/// The four lists of a résumé that grow by one entry at a time.
#[derive(Debug, Clone, Copy, PartialEq, Eq, Structural)]
pub enum Collection {
    Employment,
    Projects,
    Skills,
    Certifications,
}

/// A new entry for one of the lists.
#[derive(Debug, Clone, PartialEq, Eq)]
pub enum Entry {
    Employment(HistoryEntry),
    Project(Project),
    Skill(Skill),
    Certification(Certification),
}

/// What a value of [`Entry`] is in contracts: each text as the sequence of
/// its characters, each list as the sequence of its items.
pub enum EntryView {
    Employment(HistoryEntryView),
    Project(ProjectView),
    Skill(SkillView),
    Certification(CertificationView),
}

impl View for Entry {
    type V = EntryView;

    open spec fn view(&self) -> EntryView {
        match self {
            Entry::Employment(entry) => EntryView::Employment(entry@),
            Entry::Project(project) => EntryView::Project(project@),
            Entry::Skill(skill) => EntryView::Skill(skill@),
            Entry::Certification(certification) => EntryView::Certification(certification@),
        }
    }
}

impl EntryView {
    /// The list that the entry belongs to.
    pub open spec fn collection(self) -> Collection {
        match self {
            EntryView::Employment(_) => Collection::Employment,
            EntryView::Project(_) => Collection::Projects,
            EntryView::Skill(_) => Collection::Skills,
            EntryView::Certification(_) => Collection::Certifications,
        }
    }
}

/// New values for some of the contact details; a detail that is `None`
/// here is left as it is.
#[derive(Debug, Clone, PartialEq, Eq)]
pub struct ContactPatch {
    pub email: Option<String>,
    pub website: Option<String>,
    pub phone: Option<String>,
    pub address: Option<String>,
}

/// What a value of [`ContactPatch`] is in contracts: each text as the sequence of
/// its characters, each list as the sequence of its items.
pub struct ContactPatchView {
    pub email: Option<Seq<char>>,
    pub website: Option<Seq<char>>,
    pub phone: Option<Seq<char>>,
    pub address: Option<Seq<char>>,
}

impl View for ContactPatch {
    type V = ContactPatchView;

    open spec fn view(&self) -> ContactPatchView {
        ContactPatchView {
            email: text_view(self.email),
            website: text_view(self.website),
            phone: text_view(self.phone),
            address: text_view(self.address),
        }
    }
}

/// `given` where there is one, else `kept`.
pub open spec fn replaced(kept: Seq<char>, given: Option<Seq<char>>) -> Seq<char> {
    match given {
        Some(text) => text,
        None => kept,
    }
}

impl ContactDetailsView {
    /// Contact details of which every one is the empty text.
    pub open spec fn blank() -> ContactDetailsView {
        ContactDetailsView {
            email: Seq::empty(),
            website: Seq::empty(),
            phone: Seq::empty(),
            address: Seq::empty(),
        }
    }

    /// The details with those that `patch` gives replaced.
    pub open spec fn patched(self, patch: ContactPatchView) -> ContactDetailsView {
        ContactDetailsView {
            email: replaced(self.email, patch.email),
            website: replaced(self.website, patch.website),
            phone: replaced(self.phone, patch.phone),
            address: replaced(self.address, patch.address),
        }
    }
}

/// The list after `item` was appended: `item` alone where there was no
/// list yet, else the old items followed by `item`.
pub open spec fn appended<T>(list: Option<Seq<T>>, item: T) -> Seq<T> {
    match list {
        Some(items) => items.push(item),
        None => seq![item],
    }
}

impl DocumentShapeView {
    /// The shape with one single-valued field overwritten. Nothing of the
    /// field's old value is kept, and no other field changes.
    pub open spec fn set_field(self, value: FieldValueView) -> DocumentShapeView {
        match value {
            FieldValueView::Filename(name) => DocumentShapeView { filename: name, ..self },
            FieldValueView::Title(title) => DocumentShapeView { title: title, ..self },
            FieldValueView::Header(header) => DocumentShapeView { header: Some(header), ..self },
            FieldValueView::Summary(summary) => DocumentShapeView {
                summary: Some(summary),
                ..self
            },
        }
    }

    /// The shape with `entry` at the end of its list. No other list and no
    /// field changes.
    pub open spec fn append_entry(self, entry: EntryView) -> DocumentShapeView {
        match entry {
            EntryView::Employment(e) => DocumentShapeView {
                employment_history: Some(appended(self.employment_history, e)),
                ..self
            },
            EntryView::Project(p) => DocumentShapeView {
                projects: Some(appended(self.projects, p)),
                ..self
            },
            EntryView::Skill(s) => DocumentShapeView {
                skillset: Some(appended(self.skillset, s)),
                ..self
            },
            EntryView::Certification(c) => DocumentShapeView {
                certifications: Some(appended(self.certifications, c)),
                ..self
            },
        }
    }

    /// The shape after the entries of `entries` were appended one after the
    /// other, the first of them first.
    pub open spec fn append_all(self, entries: Seq<EntryView>) -> DocumentShapeView
        decreases entries.len(),
    {
        if entries.len() == 0 {
            self
        } else {
            self.append_all(entries.drop_last()).append_entry(entries.last())
        }
    }

    /// The entries of one list, in their order; none where the list is
    /// unset.
    pub open spec fn entries(self, collection: Collection) -> Seq<EntryView> {
        match collection {
            Collection::Employment => match self.employment_history {
                Some(items) => items.map_values(|e: HistoryEntryView| EntryView::Employment(e)),
                None => Seq::empty(),
            },
            Collection::Projects => match self.projects {
                Some(items) => items.map_values(|p: ProjectView| EntryView::Project(p)),
                None => Seq::empty(),
            },
            Collection::Skills => match self.skillset {
                Some(items) => items.map_values(|s: SkillView| EntryView::Skill(s)),
                None => Seq::empty(),
            },
            Collection::Certifications => match self.certifications {
                Some(items) => items.map_values(|c: CertificationView| EntryView::Certification(c)),
                None => Seq::empty(),
            },
        }
    }

    /// Whether one list is set.
    pub open spec fn has_list(self, collection: Collection) -> bool {
        match collection {
            Collection::Employment => self.employment_history is Some,
            Collection::Projects => self.projects is Some,
            Collection::Skills => self.skillset is Some,
            Collection::Certifications => self.certifications is Some,
        }
    }

    /// The shape with the contact details changed as `patch` says. Where
    /// there were no contact details yet, the details that `patch` leaves
    /// out are the empty text.
    pub open spec fn update_contact(self, patch: ContactPatchView) -> DocumentShapeView {
        let before = match self.contact_details {
            Some(details) => details,
            None => ContactDetailsView::blank(),
        };
        DocumentShapeView { contact_details: Some(before.patched(patch)), ..self }
    }
}

/// One change to the record: every change that can be asked for is one
/// of these.
#[derive(Debug, Clone, PartialEq, Eq)]
pub enum Mutation {
    /// Overwrites a single-valued field.
    Overwrite(FieldValue),
    /// Appends an entry to its list.
    Append(Entry),
    /// Replaces some of the contact details.
    Contact(ContactPatch),
}

/// What a value of [`Mutation`] is in contracts: each text as the sequence of
/// its characters, each list as the sequence of its items.
pub enum MutationView {
    Overwrite(FieldValueView),
    Append(EntryView),
    Contact(ContactPatchView),
}

impl View for Mutation {
    type V = MutationView;

    open spec fn view(&self) -> MutationView {
        match self {
            Mutation::Overwrite(value) => MutationView::Overwrite(value@),
            Mutation::Append(entry) => MutationView::Append(entry@),
            Mutation::Contact(patch) => MutationView::Contact(patch@),
        }
    }
}

impl DocumentShapeView {
    /// The shape after one change.
    pub open spec fn apply(self, mutation: MutationView) -> DocumentShapeView {
        match mutation {
            MutationView::Overwrite(value) => self.set_field(value),
            MutationView::Append(entry) => self.append_entry(entry),
            MutationView::Contact(patch) => self.update_contact(patch),
        }
    }
}

/// `item` appended to `list`, which becomes a list of one where it was
/// unset.
fn push_onto<T: View>(list: &mut Option<Vec<T>>, item: T)
    ensures
        list_view(*final(list)) == Some(appended(list_view(*old(list)), item@)),
{
    match list.take() {
        Some(mut items) => {
            proof {
                lemma_views_push(items@, item);
            }
            items.push(item);
            *list = Some(items);
        },
        None => {
            let mut items = Vec::new();
            proof {
                lemma_views_push(items@, item);
                assert(views(items@) =~= Seq::<T::V>::empty());
                assert(Seq::<T::V>::empty().push(item@) =~= seq![item@]);
            }
            items.push(item);
            *list = Some(items);
        },
    }
}

/// `given` where there is one, else `kept`.
fn replace_text(kept: String, given: Option<String>) -> (r: String)
    ensures
        r@ == replaced(kept@, text_view(given)),
{
    match given {
        Some(text) => text,
        None => kept,
    }
}

impl DocumentShape {
    /// Overwrites one single-valued field. The old value is dropped whole.
    pub fn set_field(&mut self, value: FieldValue)
        ensures
            final(self)@ == old(self)@.set_field(value@),
    {
        match value {
            FieldValue::Filename(name) => {
                self.filename = name;
            },
            FieldValue::Title(title) => {
                self.title = title;
            },
            FieldValue::Header(header) => {
                self.header = Some(header);
            },
            FieldValue::Summary(summary) => {
                self.summary = Some(summary);
            },
        }
    }

    /// Puts `entry` at the end of its list, which is created where it was
    /// unset. The entries that were there stay, in their order.
    pub fn append_entry(&mut self, entry: Entry)
        ensures
            final(self)@ == old(self)@.append_entry(entry@),
    {
        match entry {
            Entry::Employment(e) => {
                push_onto(&mut self.employment_history, e);
            },
            Entry::Project(p) => {
                push_onto(&mut self.projects, p);
            },
            Entry::Skill(s) => {
                push_onto(&mut self.skillset, s);
            },
            Entry::Certification(c) => {
                push_onto(&mut self.certifications, c);
            },
        }
    }

    /// Makes one change to the record.
    pub fn apply(&mut self, mutation: Mutation)
        ensures
            final(self)@ == old(self)@.apply(mutation@),
    {
        match mutation {
            Mutation::Overwrite(value) => self.set_field(value),
            Mutation::Append(entry) => self.append_entry(entry),
            Mutation::Contact(patch) => self.update_contact(patch),
        }
    }

    /// Replaces the contact details that `patch` gives and keeps the
    /// others. Where there were no contact details yet, those that `patch`
    /// leaves out become the empty text.
    pub fn update_contact(&mut self, patch: ContactPatch)
        ensures
            final(self)@ == old(self)@.update_contact(patch@),
    {
        let before = match self.contact_details.take() {
            Some(details) => details,
            None => ContactDetails {
                email: String::new(),
                website: String::new(),
                phone: String::new(),
                address: String::new(),
            },
        };
        self.contact_details = Some(
            ContactDetails {
                email: replace_text(before.email, patch.email),
                website: replace_text(before.website, patch.website),
                phone: replace_text(before.phone, patch.phone),
                address: replace_text(before.address, patch.address),
            },
        );
    }
}

/// Setting a field twice leaves the second value alone: the shape is the
/// one that setting the second value at once would have given.
pub proof fn lemma_set_field_overwrites(
    shape: DocumentShapeView,
    first: FieldValueView,
    second: FieldValueView,
)
    requires
        first.same_field(second),
    ensures
        shape.set_field(first).set_field(second) == shape.set_field(second),
{
}

/// Appending entries that all belong to one list puts them behind the
/// entries that the list had, in the order in which they were appended.
pub proof fn lemma_append_all_extends(
    shape: DocumentShapeView,
    collection: Collection,
    entries: Seq<EntryView>,
)
    requires
        forall|i: int| 0 <= i < entries.len() ==> (#[trigger] entries[i]).collection() == collection,
    ensures
        shape.append_all(entries).entries(collection) == shape.entries(collection) + entries,
        entries.len() > 0 ==> shape.append_all(entries).has_list(collection),
        entries.len() == 0 ==> shape.append_all(entries) == shape,
    decreases entries.len(),
{
    if entries.len() == 0 {
        assert(shape.entries(collection) + entries =~= shape.entries(collection));
    } else {
        let front = entries.drop_last();
        let last = entries.last();
        lemma_append_all_extends(shape, collection, front);
        let before = shape.append_all(front);
        assert(last.collection() == collection);
        assert(before.append_entry(last).entries(collection) =~= before.entries(collection).push(
            last,
        ));
        assert((shape.entries(collection) + front).push(last) =~= shape.entries(collection)
            + entries);
    }
}

/// Appending `entries.len()` entries to a list that was unset gives a list
/// of exactly these entries, in the order in which they were appended.
pub proof fn lemma_append_all_from_unset(
    shape: DocumentShapeView,
    collection: Collection,
    entries: Seq<EntryView>,
)
    requires
        !shape.has_list(collection),
        forall|i: int| 0 <= i < entries.len() ==> (#[trigger] entries[i]).collection() == collection,
    ensures
        shape.append_all(entries).entries(collection) == entries,
        shape.append_all(entries).entries(collection).len() == entries.len(),
        shape.append_all(entries).has_list(collection) <==> entries.len() > 0,
{
    lemma_append_all_extends(shape, collection, entries);
    assert(shape.entries(collection) + entries =~= entries);
}

} // verus!
