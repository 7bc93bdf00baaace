use vstd::prelude::*;
use vstd::string::StringExecFns;
use crate::error::{view_result, ErrorView, StoreError};
use crate::frontmatter::{
    decoded, encoded, parse_frontmatter, serialize_frontmatter, ArticleFrontmatter,
    FrontmatterView,
};
use crate::paths::{joined, path_join};
use crate::settings::AppSettings;
use crate::text::opt_text;

verus! {

/// An article: a document of the store, read in full.
#[derive(Debug, Clone)]
pub struct Article {
    pub slug: String,
    pub frontmatter: ArticleFrontmatter,
    pub content: String,
    pub filepath: String,
}

/// A new article, to be stored under its slug.
#[derive(Debug)]
pub struct CreateArticleRequest {
    pub slug: String,
    pub frontmatter: ArticleFrontmatter,
    pub content: String,
}

/// A new header and content for an article, and a new slug where it is to be renamed.
#[derive(Debug)]
pub struct UpdateArticleRequest {
    pub slug: Option<String>,
    pub frontmatter: ArticleFrontmatter,
    pub content: String,
}

/// What was found where a document was looked for.
#[derive(Debug)]
pub enum FileRead {
    /// There is no such file.
    Missing,
    /// The file is there and could not be read, for this reason.
    Unreadable(String),
    Text(String),
}

/// A change to make to the document directory.
#[derive(Debug)]
pub enum Step {
    /// Write the content to the file, in place of what it held.
    Write { path: String, content: String },
    Rename { from: String, to: String },
    Remove { path: String },
}

/// What an `Article` holds, with its texts as sequences of characters.
pub struct ArticleView {
    pub slug: Seq<char>,
    pub frontmatter: FrontmatterView,
    pub content: Seq<char>,
    pub filepath: Seq<char>,
}

impl View for Article {
    type V = ArticleView;

    open spec fn view(&self) -> ArticleView {
        ArticleView {
            slug: self.slug@,
            frontmatter: self.frontmatter@,
            content: self.content@,
            filepath: self.filepath@,
        }
    }
}

/// What a `Step` says, with its texts as sequences of characters.
pub enum StepView {
    Write(Seq<char>, Seq<char>),
    Rename(Seq<char>, Seq<char>),
    Remove(Seq<char>),
}

impl View for Step {
    type V = StepView;

    open spec fn view(&self) -> StepView {
        match self {
            Step::Write { path, content } => StepView::Write(path@, content@),
            Step::Rename { from, to } => StepView::Rename(from@, to@),
            Step::Remove { path } => StepView::Remove(path@),
        }
    }
}

/// Steps, by their views.
pub open spec fn view_steps(steps: Seq<Step>) -> Seq<StepView> {
    Seq::new(steps.len(), |i: int| steps[i]@)
}

/// What was found where a document was looked for, by its view.
pub enum FileReadView {
    Missing,
    Unreadable(Seq<char>),
    Text(Seq<char>),
}

impl View for FileRead {
    type V = FileReadView;

    open spec fn view(&self) -> FileReadView {
        match self {
            FileRead::Missing => FileReadView::Missing,
            FileRead::Unreadable(detail) => FileReadView::Unreadable(detail@),
            FileRead::Text(text) => FileReadView::Text(text@),
        }
    }
}

/// The extension of the files that hold articles.
pub open spec fn document_extension() -> Seq<char> {
    "mdx"@
}

/// The name of the file that holds the article of a slug.
pub open spec fn file_name_of(slug: Seq<char>) -> Seq<char> {
    slug + "."@ + document_extension()
}

/// The directory that holds the documents.
pub open spec fn articles_dir_of(settings: AppSettings) -> Seq<char> {
    joined(settings.repository_path@, settings.articles_path@)
}

/// The file that holds the article of a slug.
pub open spec fn path_of(settings: AppSettings, slug: Seq<char>) -> Seq<char> {
    joined(articles_dir_of(settings), file_name_of(slug))
}

/// The directory that holds the documents, once a repository is configured.
pub fn get_articles_dir(settings: &AppSettings) -> (r: Result<String, StoreError>)
    ensures
        view_result(r) == if settings.is_configured {
            Ok::<Seq<char>, ErrorView>(articles_dir_of(*settings))
        } else {
            Err(ErrorView::NotConfigured(None))
        },
{
    if !settings.is_configured {
        return Err(StoreError::NotConfigured { missing: None });
    }
    Ok(path_join(settings.repository_path.as_str(), settings.articles_path.as_str()))
}

/// The file that holds the article of a slug, once a repository is configured.
pub fn article_path(settings: &AppSettings, slug: &str) -> (r: Result<String, StoreError>)
    ensures
        view_result(r) == if settings.is_configured {
            Ok::<Seq<char>, ErrorView>(path_of(*settings, slug@))
        } else {
            Err(ErrorView::NotConfigured(None))
        },
{
    let dir = match get_articles_dir(settings) {
        Ok(dir) => dir,
        Err(error) => {
            return Err(error);
        },
    };
    let mut name = String::from_str(slug);
    name.append(".");
    name.append("mdx");
    Ok(path_join(dir.as_str(), name.as_str()))
}

/// An article and the steps that store it, by their views.
pub open spec fn view_planned(r: Result<(Article, Vec<Step>), StoreError>) -> Result<
    (ArticleView, Seq<StepView>),
    ErrorView,
> {
    match r {
        Ok((article, steps)) => Ok((article@, view_steps(steps@))),
        Err(error) => Err(error@),
    }
}

/// Steps that may have been planned, by their views.
pub open spec fn view_removal(r: Result<Vec<Step>, StoreError>) -> Result<
    Seq<StepView>,
    ErrorView,
> {
    match r {
        Ok(steps) => Ok(view_steps(steps@)),
        Err(error) => Err(error@),
    }
}

/// The article that a slug has, given what was found in its file.
pub open spec fn fetched(settings: AppSettings, slug: Seq<char>, file: FileReadView) -> Result<
    ArticleView,
    ErrorView,
> {
    if !settings.is_configured {
        Err(ErrorView::NotConfigured(None))
    } else {
        match file {
            FileReadView::Missing => Err(ErrorView::NotFound(slug)),
            FileReadView::Unreadable(detail) => Err(ErrorView::IoFailure(detail)),
            FileReadView::Text(text) => match decoded(text) {
                Err(error) => Err(error),
                Ok((frontmatter, content)) => Ok(
                    ArticleView {
                        slug,
                        frontmatter,
                        content,
                        filepath: path_of(settings, slug),
                    },
                ),
            },
        }
    }
}

/// The article that is stored under a slug, and the steps that store it, given the
/// document that is written for it.
pub open spec fn stored(
    settings: AppSettings,
    slug: Seq<char>,
    frontmatter: FrontmatterView,
    content: Seq<char>,
    document: Seq<char>,
    steps_before: Seq<StepView>,
) -> (ArticleView, Seq<StepView>) {
    (
        ArticleView { slug, frontmatter, content, filepath: path_of(settings, slug) },
        steps_before.push(StepView::Write(path_of(settings, slug), document)),
    )
}

/// What creating an article gives: the article and the one step that writes its file,
/// given whether a file of this slug exists.
pub open spec fn created(
    settings: AppSettings,
    slug: Seq<char>,
    frontmatter: FrontmatterView,
    content: Seq<char>,
    exists: bool,
) -> Result<(ArticleView, Seq<StepView>), ErrorView> {
    if !settings.is_configured {
        Err(ErrorView::NotConfigured(None))
    } else if exists {
        Err(ErrorView::AlreadyExists(slug))
    } else {
        match encoded(frontmatter, content) {
            Err(error) => Err(error),
            Ok(document) => Ok(
                stored(settings, slug, frontmatter, content, document, Seq::empty()),
            ),
        }
    }
}

/// What updating an article gives: the article, and the steps that rename its file where
/// a new slug is asked for and then write it, given whether the files of the old and of the
/// new slug exist.
pub open spec fn updated(
    settings: AppSettings,
    slug: Seq<char>,
    new_slug: Option<Seq<char>>,
    frontmatter: FrontmatterView,
    content: Seq<char>,
    exists: bool,
    target_exists: bool,
) -> Result<(ArticleView, Seq<StepView>), ErrorView> {
    let target = match new_slug {
        Some(other) => other,
        None => slug,
    };
    if !settings.is_configured {
        Err(ErrorView::NotConfigured(None))
    } else if !exists {
        Err(ErrorView::NotFound(slug))
    } else if target != slug && target_exists {
        Err(ErrorView::AlreadyExists(target))
    } else {
        match encoded(frontmatter, content) {
            Err(error) => Err(error),
            Ok(document) => Ok(
                stored(
                    settings,
                    target,
                    frontmatter,
                    content,
                    document,
                    if target != slug {
                        seq![StepView::Rename(path_of(settings, slug), path_of(settings, target))]
                    } else {
                        Seq::empty()
                    },
                ),
            ),
        }
    }
}

/// What deleting an article gives: the one step that removes its file, given whether the
/// file exists.
pub open spec fn deleted(settings: AppSettings, slug: Seq<char>, exists: bool) -> Result<
    Seq<StepView>,
    ErrorView,
> {
    if !settings.is_configured {
        Err(ErrorView::NotConfigured(None))
    } else if !exists {
        Err(ErrorView::NotFound(slug))
    } else {
        Ok(seq![StepView::Remove(path_of(settings, slug))])
    }
}

/// Reads the article of a slug from what was found in its file, `article_path` of the slug.
///
/// No article is found where the file is missing. A file that cannot be read as a document
/// is reported as malformed.
pub fn get_article(settings: &AppSettings, slug: String, file: FileRead) -> (r: Result<
    Article,
    StoreError,
>)
    ensures
        view_result(r) == fetched(*settings, slug@, file@),
{
    let filepath = match article_path(settings, slug.as_str()) {
        Ok(path) => path,
        Err(error) => {
            return Err(error);
        },
    };
    let text = match file {
        FileRead::Missing => {
            return Err(StoreError::NotFound { slug });
        },
        FileRead::Unreadable(detail) => {
            return Err(StoreError::IoFailure { detail });
        },
        FileRead::Text(text) => text,
    };
    match parse_frontmatter(text.as_str()) {
        Ok((frontmatter, content)) => Ok(Article { slug, frontmatter, content, filepath }),
        Err(error) => Err(error),
    }
}

/// Plans the storing of a new article. `exists` says whether the file of the slug,
/// `article_path` of it, exists already.
///
/// The article and the step that writes its file come back; the steps are the caller's to
/// take. No article is created where one exists under the slug.
pub fn create_article(settings: &AppSettings, request: CreateArticleRequest, exists: bool) -> (r:
    Result<(Article, Vec<Step>), StoreError>)
    ensures
        view_planned(r) == created(
            *settings,
            request.slug@,
            request.frontmatter@,
            request.content@,
            exists,
        ),
{
    let filepath = match article_path(settings, request.slug.as_str()) {
        Ok(path) => path,
        Err(error) => {
            return Err(error);
        },
    };
    if exists {
        return Err(StoreError::AlreadyExists { slug: request.slug });
    }
    let document = match serialize_frontmatter(&request.frontmatter, request.content.as_str()) {
        Ok(document) => document,
        Err(error) => {
            return Err(error);
        },
    };
    let mut steps: Vec<Step> = Vec::new();
    steps.push(Step::Write { path: filepath.clone(), content: document });
    proof {
        assert(view_steps(steps@) =~= Seq::<StepView>::empty().push(
            StepView::Write(filepath@, document@),
        ));
    }
    Ok(
        (
            Article {
                slug: request.slug,
                frontmatter: request.frontmatter,
                content: request.content,
                filepath,
            },
            steps,
        ),
    )
}

/// Plans the rewriting of an article, and its renaming where the request names another
/// slug. `exists` says whether the file of `slug` exists, `target_exists` whether the file
/// of the requested slug does.
///
/// The article and the steps come back; the steps are the caller's to take, in their
/// order: the file is renamed first and written then, so that a failure to write leaves the
/// former content under the new name. No article is renamed to a slug that is taken.
pub fn update_article(
    settings: &AppSettings,
    slug: String,
    request: UpdateArticleRequest,
    exists: bool,
    target_exists: bool,
) -> (r: Result<(Article, Vec<Step>), StoreError>)
    ensures
        view_planned(r) == updated(
            *settings,
            slug@,
            opt_text(request.slug),
            request.frontmatter@,
            request.content@,
            exists,
            target_exists,
        ),
{
    let filepath = match article_path(settings, slug.as_str()) {
        Ok(path) => path,
        Err(error) => {
            return Err(error);
        },
    };
    if !exists {
        return Err(StoreError::NotFound { slug });
    }
    let new_slug = match request.slug {
        Some(other) => other,
        None => slug.clone(),
    };
    let mut steps: Vec<Step> = Vec::new();
    let ghost before: Seq<StepView>;
    let new_filepath = if new_slug != slug {
        if target_exists {
            return Err(StoreError::AlreadyExists { slug: new_slug });
        }
        let new_path = match article_path(settings, new_slug.as_str()) {
            Ok(path) => path,
            Err(error) => {
                return Err(error);
            },
        };
        steps.push(Step::Rename { from: filepath, to: new_path.clone() });
        proof {
            before = seq![StepView::Rename(path_of(*settings, slug@), new_path@)];
            assert(view_steps(steps@) =~= before);
        }
        new_path
    } else {
        proof {
            before = Seq::empty();
            assert(view_steps(steps@) =~= before);
        }
        filepath
    };
    let document = match serialize_frontmatter(&request.frontmatter, request.content.as_str()) {
        Ok(document) => document,
        Err(error) => {
            return Err(error);
        },
    };
    steps.push(Step::Write { path: new_filepath.clone(), content: document });
    proof {
        assert(view_steps(steps@) =~= before.push(StepView::Write(new_filepath@, document@)));
    }
    Ok(
        (
            Article {
                slug: new_slug,
                frontmatter: request.frontmatter,
                content: request.content,
                filepath: new_filepath,
            },
            steps,
        ),
    )
}

/// Plans the removal of an article. `exists` says whether the file of the slug exists.
///
/// The step that removes the file comes back, for the caller to take.
pub fn delete_article(settings: &AppSettings, slug: String, exists: bool) -> (r: Result<
    Vec<Step>,
    StoreError,
>)
    ensures
        view_removal(r) == deleted(*settings, slug@, exists),
{
    let filepath = match article_path(settings, slug.as_str()) {
        Ok(path) => path,
        Err(error) => {
            return Err(error);
        },
    };
    if !exists {
        return Err(StoreError::NotFound { slug });
    }
    let mut steps: Vec<Step> = Vec::new();
    steps.push(Step::Remove { path: filepath });
    proof {
        assert(view_steps(steps@) =~= seq![StepView::Remove(path_of(*settings, slug@))]);
    }
    Ok(steps)
}

} // verus!
