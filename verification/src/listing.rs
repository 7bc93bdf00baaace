use vstd::prelude::*;
use vstd::string::StringExecFns;
use crate::articles::document_extension;
use crate::error::{ErrorView, StoreError};
use crate::frontmatter::{decoded, parse_frontmatter};
use crate::instant::Timestamp;
use crate::paths::{extension_of, path_extension, path_file_stem, stem_of};
use crate::settings::AppSettings;
use crate::text::texts;

verus! {

/// What a listing shows of an article.
#[derive(Debug, Clone)]
pub struct ArticleListItem {
    pub slug: String,
    pub title: String,
    pub pub_datetime: Timestamp,
    pub draft: bool,
    pub featured: bool,
    pub tags: Vec<String>,
}

/// What the scan of the document directory came upon.
#[derive(Debug)]
pub enum Scanned {
    /// An entry that could not be read, for this reason.
    Failed(String),
    /// A file, with its content or the reason why it could not be read.
    File { path: String, content: Result<String, String> },
}

/// What an `ArticleListItem` holds, with its texts as sequences of characters.
pub struct ItemView {
    pub slug: Seq<char>,
    pub title: Seq<char>,
    pub pub_datetime: Timestamp,
    pub draft: bool,
    pub featured: bool,
    pub tags: Seq<Seq<char>>,
}

impl View for ArticleListItem {
    type V = ItemView;

    open spec fn view(&self) -> ItemView {
        ItemView {
            slug: self.slug@,
            title: self.title@,
            pub_datetime: self.pub_datetime,
            draft: self.draft,
            featured: self.featured,
            tags: texts(self.tags@),
        }
    }
}

/// Items, by their views.
pub open spec fn view_items(items: Seq<ArticleListItem>) -> Seq<ItemView> {
    Seq::new(items.len(), |i: int| items[i]@)
}

/// Whether a file holds an article: its extension says so.
pub open spec fn holds_article(path: Seq<char>) -> bool {
    extension_of(path) == Some(document_extension())
}

/// The slug of the article that a file holds: the stem of its name.
pub open spec fn slug_of(path: Seq<char>) -> Seq<char> {
    match stem_of(path) {
        Some(stem) => stem,
        None => Seq::empty(),
    }
}

/// Whether a file holds an article: its extension says so.
pub fn is_document(path: &str) -> (r: bool)
    ensures
        r == holds_article(path@),
{
    match path_extension(path) {
        Some(extension) => extension == String::from_str("mdx"),
        None => false,
    }
}

/// The slug of the article that a file holds: the stem of its name.
pub fn slug_from_path(path: &str) -> (r: String)
    ensures
        r@ == slug_of(path@),
{
    match path_file_stem(path) {
        Some(stem) => stem,
        None => String::new(),
    }
}

/// Where an item of this time of publication goes in a listing that has the newest first:
/// behind every item that is not older.
pub open spec fn slot(listing: Seq<ItemView>, stamp: Timestamp) -> int
    decreases listing.len(),
{
    if listing.len() == 0 {
        0
    } else if listing[0].pub_datetime.is_before(stamp) {
        0
    } else {
        1 + slot(listing.skip(1), stamp)
    }
}

/// The items with the newest first, those of one time of publication in the order in
/// which they came.
pub open spec fn newest_first(items: Seq<ItemView>) -> Seq<ItemView>
    decreases items.len(),
{
    if items.len() == 0 {
        Seq::empty()
    } else {
        let before = newest_first(items.drop_last());
        before.insert(slot(before, items.last().pub_datetime), items.last())
    }
}

/// What the scan of a directory shows of one file: an item where the file holds an
/// article that can be read, nothing where it does not, an error where the scan failed.
pub open spec fn shown(entry: Scanned) -> Result<Option<ItemView>, ErrorView> {
    match entry {
        Scanned::Failed(detail) => Err(ErrorView::IoFailure(detail@)),
        Scanned::File { path, content } => if !holds_article(path@) {
            Ok(None)
        } else {
            match content {
                Err(detail) => Err(ErrorView::IoFailure(detail@)),
                Ok(text) => match decoded(text@) {
                    Err(_) => Ok(None),
                    Ok((frontmatter, _)) => Ok(
                        Some(
                            ItemView {
                                slug: slug_of(path@),
                                title: frontmatter.title,
                                pub_datetime: frontmatter.pub_datetime,
                                draft: frontmatter.draft,
                                featured: frontmatter.featured,
                                tags: frontmatter.tags,
                            },
                        ),
                    ),
                },
            }
        },
    }
}

/// The items that a scan shows, in the order of the scan, or the first error in it.
pub open spec fn collected(scan: Seq<Scanned>) -> Result<Seq<ItemView>, ErrorView>
    decreases scan.len(),
{
    if scan.len() == 0 {
        Ok(Seq::empty())
    } else {
        match collected(scan.drop_last()) {
            Err(error) => Err(error),
            Ok(items) => match shown(scan.last()) {
                Err(error) => Err(error),
                Ok(None) => Ok(items),
                Ok(Some(item)) => Ok(items.push(item)),
            },
        }
    }
}

/// The listing of a scan of the document directory, `None` where there is no such
/// directory.
pub open spec fn listed(settings: AppSettings, scan: Option<Vec<Scanned>>) -> Result<
    Seq<ItemView>,
    ErrorView,
> {
    if !settings.is_configured {
        Err(ErrorView::NotConfigured(None))
    } else {
        match scan {
            None => Ok(Seq::empty()),
            Some(entries) => match collected(entries@) {
                Err(error) => Err(error),
                Ok(items) => Ok(newest_first(items)),
            },
        }
    }
}

/// A listing that may have failed, by its view.
pub open spec fn view_listing(r: Result<Vec<ArticleListItem>, StoreError>) -> Result<
    Seq<ItemView>,
    ErrorView,
> {
    match r {
        Ok(items) => Ok(view_items(items@)),
        Err(error) => Err(error@),
    }
}

/// What an entry shows, where it shows anything.
fn show(entry: &Scanned) -> (r: Result<Option<ArticleListItem>, StoreError>)
    ensures
        match r {
            Ok(Some(item)) => shown(*entry) == Ok::<Option<ItemView>, ErrorView>(Some(item@)),
            Ok(None) => shown(*entry) == Ok::<Option<ItemView>, ErrorView>(None),
            Err(error) => shown(*entry) == Err::<Option<ItemView>, ErrorView>(error@),
        },
{
    match entry {
        Scanned::Failed(detail) => Err(StoreError::IoFailure { detail: detail.clone() }),
        Scanned::File { path, content } => {
            if !is_document(path.as_str()) {
                return Ok(None);
            }
            let text = match content {
                Ok(text) => text,
                Err(detail) => {
                    return Err(StoreError::IoFailure { detail: detail.clone() });
                },
            };
            match parse_frontmatter(text.as_str()) {
                Err(_) => Ok(None),
                Ok((frontmatter, _)) => Ok(
                    Some(
                        ArticleListItem {
                            slug: slug_from_path(path.as_str()),
                            title: frontmatter.title,
                            pub_datetime: frontmatter.pub_datetime,
                            draft: frontmatter.draft,
                            featured: frontmatter.featured,
                            tags: frontmatter.tags,
                        },
                    ),
                ),
            }
        },
    }
}

/// Puts an item into a listing that has the newest first, behind every item that is not
/// older.
fn place(listing: &mut Vec<ArticleListItem>, item: ArticleListItem)
    ensures
        view_items(final(listing)@) == view_items(old(listing)@).insert(
            slot(view_items(old(listing)@), item.pub_datetime),
            item@,
        ),
{
    let ghost all = view_items(listing@);
    let mut at: usize = 0;
    proof {
        assert(all.skip(0) == all);
    }
    while at < listing.len() && !listing[at].pub_datetime.precedes(&item.pub_datetime)
        invariant
            at <= listing.len(),
            all == view_items(listing@),
            slot(all, item.pub_datetime) == at + slot(all.skip(at as int), item.pub_datetime),
        decreases listing.len() - at,
    {
        proof {
            assert(all.skip(at as int)[0] == all[at as int]);
            assert(all.skip(at as int).skip(1) == all.skip(at as int + 1));
        }
        at += 1;
    }
    proof {
        if at < listing.len() {
            assert(all.skip(at as int)[0] == all[at as int]);
        }
    }
    listing.insert(at, item);
    proof {
        assert(view_items(listing@) =~= all.insert(at as int, item@));
    }
}

/// Lists the articles of the document directory, the newest first.
///
/// `scan` is what was found in the directory itself, without what lies below it: the
/// content of each file that `is_document` takes for an article, or `None` where there is
/// no such directory, which gives an empty listing. A file that holds no article, or one
/// that cannot be read as a document, is passed over. An entry or a file that could not be
/// read ends the listing with an error, the first such in the order of the scan.
pub fn list_articles(settings: &AppSettings, scan: Option<Vec<Scanned>>) -> (r: Result<
    Vec<ArticleListItem>,
    StoreError,
>)
    ensures
        view_listing(r) == listed(*settings, scan),
{
    if !settings.is_configured {
        return Err(StoreError::NotConfigured { missing: None });
    }
    let mut listing: Vec<ArticleListItem> = Vec::new();
    let entries = match scan {
        Some(entries) => entries,
        None => {
            proof {
                assert(view_items(listing@) =~= Seq::<ItemView>::empty());
            }
            return Ok(listing);
        },
    };
    let mut i: usize = 0;
    proof {
        assert(view_items(listing@) =~= Seq::<ItemView>::empty());
    }
    while i < entries.len()
        invariant
            i <= entries.len(),
            scan == Some(entries),
            settings.is_configured,
            collected(entries@.take(i as int)) matches Ok(items) && view_items(listing@)
                == newest_first(items),
        decreases entries.len() - i,
    {
        proof {
            assert(entries@.take(i as int + 1).drop_last() == entries@.take(i as int));
            assert(entries@.take(i as int + 1).last() == entries@[i as int]);
        }
        let ghost items = collected(entries@.take(i as int))->Ok_0;
        match show(&entries[i]) {
            Err(error) => {
                proof {
                    assert(collected(entries@.take(i as int + 1)) == Err::<
                        Seq<ItemView>,
                        ErrorView,
                    >(error@));
                    lemma_error_ends(entries@, i as int + 1);
                }
                return Err(error);
            },
            Ok(None) => {},
            Ok(Some(item)) => {
                proof {
                    assert(items.push(item@).drop_last() == items);
                }
                place(&mut listing, item);
            },
        }
        i += 1;
    }
    proof {
        assert(entries@.take(i as int) == entries@);
    }
    Ok(listing)
}

/// A scan that has failed by some point has failed in the same way at its end.
pub proof fn lemma_error_ends(scan: Seq<Scanned>, n: int)
    requires
        0 <= n <= scan.len(),
        collected(scan.take(n)) is Err,
    ensures
        collected(scan) == collected(scan.take(n)),
    decreases scan.len() - n,
{
    if n == scan.len() {
        assert(scan.take(n) == scan);
    } else {
        assert(scan.take(n + 1).drop_last() == scan.take(n));
        lemma_error_ends(scan, n + 1);
    }
}

} // verus!
