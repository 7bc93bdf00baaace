use vstd::prelude::*;
use crate::articles::{
    created, deleted, fetched, path_of, updated, ArticleView, FileReadView, StepView,
};
use crate::error::ErrorView;
use crate::frontmatter::{decoded, encoded, FrontmatterView};
use crate::settings::AppSettings;

verus! {

/// The document directory after one step was taken in it: a map from each file to what
/// it holds. A file that is renamed takes the place of whatever had the new name.
pub open spec fn after_step(files: Map<Seq<char>, Seq<char>>, step: StepView) -> Map<
    Seq<char>,
    Seq<char>,
> {
    match step {
        StepView::Write(path, content) => files.insert(path, content),
        StepView::Rename(from, to) => if files.contains_key(from) {
            files.remove(from).insert(to, files[from])
        } else {
            files
        },
        StepView::Remove(path) => files.remove(path),
    }
}

/// The document directory after steps were taken in it, one after the other.
pub open spec fn after_steps(files: Map<Seq<char>, Seq<char>>, steps: Seq<StepView>) -> Map<
    Seq<char>,
    Seq<char>,
>
    decreases steps.len(),
{
    if steps.len() == 0 {
        files
    } else {
        after_step(after_steps(files, steps.drop_last()), steps.last())
    }
}

/// What is found where a document is looked for in the directory.
pub open spec fn found_at(files: Map<Seq<char>, Seq<char>>, path: Seq<char>) -> FileReadView {
    if files.contains_key(path) {
        FileReadView::Text(files[path])
    } else {
        FileReadView::Missing
    }
}

/// Once an article was created under a slug, no other can be: after the steps of a
/// creation that succeeded, a creation under the same slug fails because the slug is taken,
/// whatever is to be stored.
pub proof fn lemma_created_slug_is_taken(
    settings: AppSettings,
    files: Map<Seq<char>, Seq<char>>,
    slug: Seq<char>,
    frontmatter: FrontmatterView,
    content: Seq<char>,
    other_frontmatter: FrontmatterView,
    other_content: Seq<char>,
)
    requires
        created(
            settings,
            slug,
            frontmatter,
            content,
            files.contains_key(path_of(settings, slug)),
        ) is Ok,
    ensures
        ({
            let first = created(
                settings,
                slug,
                frontmatter,
                content,
                files.contains_key(path_of(settings, slug)),
            )->Ok_0;
            let then = after_steps(files, first.1);
            created(
                settings,
                slug,
                other_frontmatter,
                other_content,
                then.contains_key(path_of(settings, slug)),
            ) == Err::<(ArticleView, Seq<StepView>), ErrorView>(ErrorView::AlreadyExists(slug))
        }),
{
    let first = created(
        settings,
        slug,
        frontmatter,
        content,
        files.contains_key(path_of(settings, slug)),
    )->Ok_0;
    assert(first.1.drop_last() == Seq::<StepView>::empty());
    assert(after_steps(files, first.1.drop_last()) == files);
}

/// An article that was renamed is found under its new slug alone: after the steps of an
/// update to another slug that succeeded, nothing is found under the old slug, the file of
/// the new slug holds the document that is written for the new header and content, and
/// the article that is read there is what that document holds.
pub proof fn lemma_renamed_article_moves(
    settings: AppSettings,
    files: Map<Seq<char>, Seq<char>>,
    slug: Seq<char>,
    new_slug: Seq<char>,
    frontmatter: FrontmatterView,
    content: Seq<char>,
)
    requires
        new_slug != slug,
        updated(
            settings,
            slug,
            Some(new_slug),
            frontmatter,
            content,
            files.contains_key(path_of(settings, slug)),
            files.contains_key(path_of(settings, new_slug)),
        ) is Ok,
    ensures
        ({
            let change = updated(
                settings,
                slug,
                Some(new_slug),
                frontmatter,
                content,
                files.contains_key(path_of(settings, slug)),
                files.contains_key(path_of(settings, new_slug)),
            )->Ok_0;
            let then = after_steps(files, change.1);
            let old_path = path_of(settings, slug);
            let new_path = path_of(settings, new_slug);
            &&& fetched(settings, slug, found_at(then, old_path)) == Err::<
                ArticleView,
                ErrorView,
            >(ErrorView::NotFound(slug))
            &&& encoded(frontmatter, content) == Ok::<Seq<char>, ErrorView>(then[new_path])
            &&& found_at(then, new_path) == FileReadView::Text(then[new_path])
            &&& change.0.slug == new_slug
            &&& change.0.frontmatter == frontmatter
            &&& change.0.content == content
            &&& fetched(settings, new_slug, found_at(then, new_path)) == match decoded(
                then[new_path],
            ) {
                Ok((read_frontmatter, read_content)) => Ok(
                    ArticleView {
                        slug: new_slug,
                        frontmatter: read_frontmatter,
                        content: read_content,
                        filepath: new_path,
                    },
                ),
                Err(error) => Err(error),
            }
        }),
{
    let old_path = path_of(settings, slug);
    let new_path = path_of(settings, new_slug);
    let change = updated(
        settings,
        slug,
        Some(new_slug),
        frontmatter,
        content,
        files.contains_key(old_path),
        files.contains_key(new_path),
    )->Ok_0;
    let document = encoded(frontmatter, content)->Ok_0;
    let rename = StepView::Rename(old_path, new_path);
    let write = StepView::Write(new_path, document);
    assert(change.1 == seq![rename, write]);
    assert(change.1.drop_last() == seq![rename]);
    assert(seq![rename].drop_last() == Seq::<StepView>::empty());
    assert(after_steps(files, Seq::<StepView>::empty()) == files);
    assert(after_steps(files, seq![rename]) == after_step(files, rename));
    assert(after_steps(files, change.1) == after_step(after_step(files, rename), write));
    assert(old_path != new_path);
}

/// An article that does not exist is not found: where the directory holds no file for a
/// slug, reading, updating and deleting the article of that slug all fail because it is
/// not found.
pub proof fn lemma_missing_article_is_not_found(
    settings: AppSettings,
    files: Map<Seq<char>, Seq<char>>,
    slug: Seq<char>,
    new_slug: Option<Seq<char>>,
    frontmatter: FrontmatterView,
    content: Seq<char>,
    target_exists: bool,
)
    requires
        settings.is_configured,
        !files.contains_key(path_of(settings, slug)),
    ensures
        fetched(settings, slug, found_at(files, path_of(settings, slug))) == Err::<
            ArticleView,
            ErrorView,
        >(ErrorView::NotFound(slug)),
        updated(
            settings,
            slug,
            new_slug,
            frontmatter,
            content,
            files.contains_key(path_of(settings, slug)),
            target_exists,
        ) == Err::<(ArticleView, Seq<StepView>), ErrorView>(ErrorView::NotFound(slug)),
        deleted(settings, slug, files.contains_key(path_of(settings, slug))) == Err::<
            Seq<StepView>,
            ErrorView,
        >(ErrorView::NotFound(slug)),
{
}

/// An article that was deleted is gone: after the step of a deletion that succeeded, the
/// article is not found, and an article can be created under its slug again.
pub proof fn lemma_deleted_article_is_gone(
    settings: AppSettings,
    files: Map<Seq<char>, Seq<char>>,
    slug: Seq<char>,
)
    requires
        deleted(settings, slug, files.contains_key(path_of(settings, slug))) is Ok,
    ensures
        ({
            let steps = deleted(settings, slug, files.contains_key(path_of(settings, slug)))->Ok_0;
            let then = after_steps(files, steps);
            &&& !then.contains_key(path_of(settings, slug))
            &&& fetched(settings, slug, found_at(then, path_of(settings, slug))) == Err::<
                ArticleView,
                ErrorView,
            >(ErrorView::NotFound(slug))
        }),
{
    let steps = deleted(settings, slug, files.contains_key(path_of(settings, slug)))->Ok_0;
    assert(steps.drop_last() == Seq::<StepView>::empty());
    assert(after_steps(files, steps.drop_last()) == files);
}

/// An article that was created is there: after the steps of a creation that succeeded,
/// the file of the slug holds the document that is written for the header and the content.
pub proof fn lemma_created_article_is_stored(
    settings: AppSettings,
    files: Map<Seq<char>, Seq<char>>,
    slug: Seq<char>,
    frontmatter: FrontmatterView,
    content: Seq<char>,
)
    requires
        created(
            settings,
            slug,
            frontmatter,
            content,
            files.contains_key(path_of(settings, slug)),
        ) is Ok,
    ensures
        ({
            let first = created(
                settings,
                slug,
                frontmatter,
                content,
                files.contains_key(path_of(settings, slug)),
            )->Ok_0;
            let then = after_steps(files, first.1);
            &&& found_at(then, path_of(settings, slug)) == FileReadView::Text(
                then[path_of(settings, slug)],
            )
            &&& encoded(frontmatter, content) == Ok::<Seq<char>, ErrorView>(
                then[path_of(settings, slug)],
            )
        }),
{
    let first = created(
        settings,
        slug,
        frontmatter,
        content,
        files.contains_key(path_of(settings, slug)),
    )->Ok_0;
    assert(first.1.drop_last() == Seq::<StepView>::empty());
    assert(after_steps(files, first.1.drop_last()) == files);
}

} // verus!
