//! From the partial record to the data that a page is drawn from.

use crate::api::{DocumentData, DocumentDataView, DocumentShape, DocumentShapeView};
use crate::errors::{ResolutionError, ResolutionErrorView};
use vstd::prelude::*;

verus! {

/// What resolving a shape gives. The title and the file name must be set:
/// where the title is unset that is the failure, else where the file name is
/// unset. Every section goes over as it is, set or unset, and nothing is
/// made up for a section that is unset.
pub open spec fn resolved(shape: DocumentShapeView) -> Result<
    DocumentDataView,
    ResolutionErrorView,
> {
    if shape.title is None {
        Err(ResolutionErrorView::MissingField("title"@))
    } else if shape.filename is None {
        Err(ResolutionErrorView::MissingField("filename"@))
    } else {
        Ok(
            DocumentDataView {
                filename: shape.filename->0,
                title: shape.title->0,
                header: shape.header,
                summary: shape.summary,
                employment_history: shape.employment_history,
                projects: shape.projects,
                contact_details: shape.contact_details,
                skillset: shape.skillset,
                certifications: shape.certifications,
            },
        )
    }
}

/// The view of what `resolve` returned.
pub open spec fn resolution_view(r: Result<DocumentData, ResolutionError>) -> Result<
    DocumentDataView,
    ResolutionErrorView,
> {
    match r {
        Ok(data) => Ok(data@),
        Err(e) => Err(e@),
    }
}

/// Checks that the title and the file name are set and hands the sections
/// over unchanged.
pub fn resolve(shape: DocumentShape) -> (r: Result<DocumentData, ResolutionError>)
    ensures
        resolution_view(r) == resolved(shape@),
{
    let title = match shape.title {
        Some(title) => title,
        None => {
            return Err(ResolutionError::MissingField("title".to_string()));
        },
    };
    let filename = match shape.filename {
        Some(filename) => filename,
        None => {
            return Err(ResolutionError::MissingField("filename".to_string()));
        },
    };
    Ok(
        DocumentData {
            filename,
            title,
            header: shape.header,
            summary: shape.summary,
            employment_history: shape.employment_history,
            projects: shape.projects,
            contact_details: shape.contact_details,
            skillset: shape.skillset,
            certifications: shape.certifications,
        },
    )
}

/// A shape without a title does not resolve: the failure names the title,
/// whatever else is set.
pub proof fn lemma_title_is_required(shape: DocumentShapeView)
    requires
        shape.title is None,
    ensures
        resolved(shape) == Err::<DocumentDataView, ResolutionErrorView>(
            ResolutionErrorView::MissingField("title"@),
        ),
{
}

/// A shape with a title and a file name resolves, and a section that is
/// unset in the shape is unset in the data.
pub proof fn lemma_sections_pass_through(shape: DocumentShapeView)
    requires
        shape.title is Some,
        shape.filename is Some,
    ensures
        resolved(shape) is Ok,
        resolved(shape)->Ok_0.header == shape.header,
        resolved(shape)->Ok_0.summary == shape.summary,
        resolved(shape)->Ok_0.employment_history == shape.employment_history,
        resolved(shape)->Ok_0.projects == shape.projects,
        resolved(shape)->Ok_0.contact_details == shape.contact_details,
        resolved(shape)->Ok_0.skillset == shape.skillset,
        resolved(shape)->Ok_0.certifications == shape.certifications,
{
}

} // verus!
