use vstd::prelude::*;

verus! {

/// A header field of an article document.
#[derive(Clone, Copy, Debug, PartialEq, Eq, Structural)]
pub enum Field {
    Title,
    PubDatetime,
    Description,
    ModDatetime,
    Featured,
    Draft,
    Author,
    Tags,
    Dek,
    OgImage,
    CanonicalUrl,
    HideEditPost,
    Timezone,
}

/// Why a document could not be read as an article, or an article not be written as a document.
#[derive(Clone, Copy, Debug, PartialEq, Eq, Structural)]
pub enum Defect {
    /// The text does not begin with a delimited header, or the header is empty.
    NoHeader,
    /// The header is not a table of named fields.
    NotATable,
    /// A required field is absent.
    Missing(Field),
    /// A field is present and holds a value of the wrong kind.
    Invalid(Field),
    /// A timestamp lies outside of what can be written as a date and time.
    Unrepresentable(Field),
}

/// What an operation of the store or of the repository tracker reports when it does not succeed.
#[derive(Debug)]
pub enum StoreError {
    /// No repository has been configured (`missing` is `None`), or a configured path does not
    /// exist (`missing` names it).
    NotConfigured { missing: Option<String> },
    /// No document exists for the slug.
    NotFound { slug: String },
    /// A document already exists for the slug.
    AlreadyExists { slug: String },
    /// The document has no usable header, or the article cannot be written as one.
    MalformedDocument { defect: Defect },
    /// The repository cannot be opened, or its head or parent commit cannot be resolved.
    RepositoryUnavailable { detail: String },
    /// The external client that pushes commits reported a failure.
    PushFailed { diagnostic: String },
    /// A file or repository operation failed underneath.
    IoFailure { detail: String },
}

/// What a `StoreError` says, with its texts as sequences of characters.
pub enum ErrorView {
    NotConfigured(Option<Seq<char>>),
    NotFound(Seq<char>),
    AlreadyExists(Seq<char>),
    MalformedDocument(Defect),
    RepositoryUnavailable(Seq<char>),
    PushFailed(Seq<char>),
    IoFailure(Seq<char>),
}

impl View for StoreError {
    type V = ErrorView;

    open spec fn view(&self) -> ErrorView {
        match self {
            StoreError::NotConfigured { missing } => ErrorView::NotConfigured(
                match missing {
                    Some(path) => Some(path@),
                    None => None,
                },
            ),
            StoreError::NotFound { slug } => ErrorView::NotFound(slug@),
            StoreError::AlreadyExists { slug } => ErrorView::AlreadyExists(slug@),
            StoreError::MalformedDocument { defect } => ErrorView::MalformedDocument(*defect),
            StoreError::RepositoryUnavailable { detail } => ErrorView::RepositoryUnavailable(
                detail@,
            ),
            StoreError::PushFailed { diagnostic } => ErrorView::PushFailed(diagnostic@),
            StoreError::IoFailure { detail } => ErrorView::IoFailure(detail@),
        }
    }
}

/// A result with both of its sides taken by their views.
pub open spec fn view_result<T: View>(r: Result<T, StoreError>) -> Result<T::V, ErrorView> {
    match r {
        Ok(value) => Ok(value@),
        Err(error) => Err(error@),
    }
}

} // verus!
