use vstd::prelude::*;
use vstd::string::StringExecFns;
use crate::error::{Defect, ErrorView, Field, StoreError};
use crate::header::{matter_of, split_document, Node, NodeView};
use crate::instant::{timestamp_of_text, Timestamp};
use crate::text::{copy_texts, opt_text, texts};
use crate::yaml::{view_fields, write_yaml, yaml_of, Emit, EmitView};

verus! {

/// The header of an article: what is known of it besides its text.
#[derive(Debug, Clone)]
pub struct ArticleFrontmatter {
    pub title: String,
    pub pub_datetime: Timestamp,
    pub description: String,
    pub mod_datetime: Option<Timestamp>,
    pub featured: bool,
    pub draft: bool,
    pub author: String,
    pub tags: Vec<String>,
    pub dek: Option<String>,
    pub og_image: Option<String>,
    pub canonical_url: Option<String>,
    pub hide_edit_post: bool,
    pub timezone: String,
}

/// What an `ArticleFrontmatter` holds, with its texts as sequences of characters.
pub struct FrontmatterView {
    pub title: Seq<char>,
    pub pub_datetime: Timestamp,
    pub description: Seq<char>,
    pub mod_datetime: Option<Timestamp>,
    pub featured: bool,
    pub draft: bool,
    pub author: Seq<char>,
    pub tags: Seq<Seq<char>>,
    pub dek: Option<Seq<char>>,
    pub og_image: Option<Seq<char>>,
    pub canonical_url: Option<Seq<char>>,
    pub hide_edit_post: bool,
    pub timezone: Seq<char>,
}

impl View for ArticleFrontmatter {
    type V = FrontmatterView;

    open spec fn view(&self) -> FrontmatterView {
        FrontmatterView {
            title: self.title@,
            pub_datetime: self.pub_datetime,
            description: self.description@,
            mod_datetime: self.mod_datetime,
            featured: self.featured,
            draft: self.draft,
            author: self.author@,
            tags: texts(self.tags@),
            dek: opt_text(self.dek),
            og_image: opt_text(self.og_image),
            canonical_url: opt_text(self.canonical_url),
            hide_edit_post: self.hide_edit_post,
            timezone: self.timezone@,
        }
    }
}

/// The author of an article whose header names none.
pub open spec fn author_by_default() -> Seq<char> {
    "SHEK"@
}

/// The time zone of an article whose header names none.
pub open spec fn timezone_by_default() -> Seq<char> {
    "Asia/Tokyo"@
}

/// An article is a draft unless its header says otherwise.
pub fn default_true() -> (r: bool)
    ensures
        r,
{
    true
}

/// The author of an article whose header names none.
pub fn default_author() -> (r: String)
    ensures
        r@ == author_by_default(),
{
    String::from_str("SHEK")
}

/// The time zone of an article whose header names none.
pub fn default_timezone() -> (r: String)
    ensures
        r@ == timezone_by_default(),
{
    String::from_str("Asia/Tokyo")
}

/// The name under which a field stands in a header.
pub open spec fn name_of(field: Field) -> Seq<char> {
    match field {
        Field::Title => "title"@,
        Field::PubDatetime => "pubDatetime"@,
        Field::Description => "description"@,
        Field::ModDatetime => "modDatetime"@,
        Field::Featured => "featured"@,
        Field::Draft => "draft"@,
        Field::Author => "author"@,
        Field::Tags => "tags"@,
        Field::Dek => "dek"@,
        Field::OgImage => "ogImage"@,
        Field::CanonicalUrl => "canonicalUrl"@,
        Field::HideEditPost => "hideEditPost"@,
        Field::Timezone => "timezone"@,
    }
}

/// The name under which a field stands in a header.
pub fn field_name(field: Field) -> (r: String)
    ensures
        r@ == name_of(field),
{
    match field {
        Field::Title => String::from_str("title"),
        Field::PubDatetime => String::from_str("pubDatetime"),
        Field::Description => String::from_str("description"),
        Field::ModDatetime => String::from_str("modDatetime"),
        Field::Featured => String::from_str("featured"),
        Field::Draft => String::from_str("draft"),
        Field::Author => String::from_str("author"),
        Field::Tags => String::from_str("tags"),
        Field::Dek => String::from_str("dek"),
        Field::OgImage => String::from_str("ogImage"),
        Field::CanonicalUrl => String::from_str("canonicalUrl"),
        Field::HideEditPost => String::from_str("hideEditPost"),
        Field::Timezone => String::from_str("timezone"),
    }
}

/// The value that stands under a name in a table: that of the first entry of this name.
pub open spec fn lookup(entries: Seq<(Seq<char>, NodeView)>, name: Seq<char>) -> Option<NodeView>
    decreases entries.len(),
{
    if entries.len() == 0 {
        None
    } else if entries[0].0 == name {
        Some(entries[0].1)
    } else {
        lookup(entries.skip(1), name)
    }
}

/// The entries of a table, by their views.
pub open spec fn view_entries(entries: Seq<(String, Node)>) -> Seq<(Seq<char>, NodeView)> {
    Seq::new(entries.len(), |i: int| (entries[i].0@, entries[i].1@))
}

/// The items of a list, by their views.
pub open spec fn view_nodes(items: Seq<Node>) -> Seq<NodeView> {
    Seq::new(items.len(), |i: int| items[i]@)
}

/// A node that may have been found, by its view.
pub open spec fn view_found(found: Option<&Node>) -> Option<NodeView> {
    match found {
        Some(node) => Some(node@),
        None => None,
    }
}

/// The view of a table is made of the views of its entries.
pub proof fn lemma_view_of_table(entries: Vec<(String, Node)>)
    ensures
        Node::Table(entries)@ == NodeView::Table(view_entries(entries@)),
{
    reveal_with_fuel(Node::seen, 2);
    let seen = Node::Table(entries)@;
    assert(seen->Table_0 =~= view_entries(entries@));
}

/// The view of a list is made of the views of its items.
pub proof fn lemma_view_of_list(items: Vec<Node>)
    ensures
        Node::List(items)@ == NodeView::List(view_nodes(items@)),
{
    reveal_with_fuel(Node::seen, 2);
    let seen = Node::List(items)@;
    assert(seen->List_0 =~= view_nodes(items@));
}

/// Finds the value that stands under a name in a table.
pub fn find<'a>(entries: &'a Vec<(String, Node)>, name: &String) -> (r: Option<&'a Node>)
    ensures
        view_found(r) == lookup(view_entries(entries@), name@),
{
    let ghost all = view_entries(entries@);
    let mut i: usize = 0;
    proof {
        assert(all.skip(0) == all);
    }
    while i < entries.len()
        invariant
            i <= entries.len(),
            all == view_entries(entries@),
            lookup(all, name@) == lookup(all.skip(i as int), name@),
        decreases entries.len() - i,
    {
        proof {
            assert(all.skip(i as int)[0] == all[i as int]);
            assert(all.skip(i as int).skip(1) == all.skip(i as int + 1));
        }
        if entries[i].0 == *name {
            return Some(&entries[i].1);
        }
        i += 1;
    }
    None
}

/// The text of a field that has to hold a text: the default where the field is absent and
/// has one.
pub open spec fn text_value(
    found: Option<NodeView>,
    field: Field,
    default: Option<Seq<char>>,
) -> Result<Seq<char>, Defect> {
    match found {
        None => match default {
            Some(text) => Ok(text),
            None => Err(Defect::Missing(field)),
        },
        Some(NodeView::Text(text)) => Ok(text),
        Some(_) => Err(Defect::Invalid(field)),
    }
}

/// The text of a field that may hold a text, or nothing.
pub open spec fn optional_text_value(found: Option<NodeView>, field: Field) -> Result<
    Option<Seq<char>>,
    Defect,
> {
    match found {
        None => Ok(None),
        Some(NodeView::Null) => Ok(None),
        Some(NodeView::Text(text)) => Ok(Some(text)),
        Some(_) => Err(Defect::Invalid(field)),
    }
}

/// The flag of a field that has to hold a flag: the default where the field is absent.
pub open spec fn flag_value(found: Option<NodeView>, field: Field, default: bool) -> Result<
    bool,
    Defect,
> {
    match found {
        None => Ok(default),
        Some(NodeView::Flag(flag)) => Ok(flag),
        Some(_) => Err(Defect::Invalid(field)),
    }
}

/// The instant of a field that has to hold one, written as a text.
pub open spec fn stamp_value(found: Option<NodeView>, field: Field) -> Result<Timestamp, Defect> {
    match found {
        None => Err(Defect::Missing(field)),
        Some(NodeView::Text(text)) => match timestamp_of_text(text) {
            Some(stamp) => Ok(stamp),
            None => Err(Defect::Invalid(field)),
        },
        Some(_) => Err(Defect::Invalid(field)),
    }
}

/// The instant of a field that may hold one, written as a text, or nothing.
pub open spec fn optional_stamp_value(found: Option<NodeView>, field: Field) -> Result<
    Option<Timestamp>,
    Defect,
> {
    match found {
        None => Ok(None),
        Some(NodeView::Null) => Ok(None),
        Some(NodeView::Text(text)) => match timestamp_of_text(text) {
            Some(stamp) => Ok(Some(stamp)),
            None => Err(Defect::Invalid(field)),
        },
        Some(_) => Err(Defect::Invalid(field)),
    }
}

/// Whether every item of a list is a text.
pub open spec fn all_texts(items: Seq<NodeView>) -> bool {
    forall|i: int| 0 <= i < items.len() ==> #[trigger] items[i] is Text
}

/// The texts that the items of a list hold.
pub open spec fn texts_of(items: Seq<NodeView>) -> Seq<Seq<char>> {
    Seq::new(items.len(), |i: int| items[i]->Text_0)
}

/// The texts of a field that has to hold a list of texts: none where the field is absent.
pub open spec fn texts_value(found: Option<NodeView>, field: Field) -> Result<
    Seq<Seq<char>>,
    Defect,
> {
    match found {
        None => Ok(Seq::empty()),
        Some(NodeView::List(items)) => if all_texts(items) {
            Ok(texts_of(items))
        } else {
            Err(Defect::Invalid(field))
        },
        Some(_) => Err(Defect::Invalid(field)),
    }
}

/// Reads a field that has to hold a text.
fn read_text(found: Option<&Node>, field: Field, default: Option<String>) -> (r: Result<
    String,
    Defect,
>)
    ensures
        view_text(r) == text_value(view_found(found), field, opt_text(default)),
{
    match found {
        None => match default {
            Some(text) => Ok(text),
            None => Err(Defect::Missing(field)),
        },
        Some(Node::Text(text)) => Ok(text.clone()),
        Some(_) => Err(Defect::Invalid(field)),
    }
}

/// Reads a field that may hold a text, or nothing.
fn read_optional_text(found: Option<&Node>, field: Field) -> (r: Result<Option<String>, Defect>)
    ensures
        view_optional_text(r) == optional_text_value(view_found(found), field),
{
    match found {
        None => Ok(None),
        Some(Node::Null) => Ok(None),
        Some(Node::Text(text)) => Ok(Some(text.clone())),
        Some(_) => Err(Defect::Invalid(field)),
    }
}

/// Reads a field that has to hold a flag.
fn read_flag(found: Option<&Node>, field: Field, default: bool) -> (r: Result<bool, Defect>)
    ensures
        r == flag_value(view_found(found), field, default),
{
    match found {
        None => Ok(default),
        Some(Node::Flag(flag)) => Ok(*flag),
        Some(_) => Err(Defect::Invalid(field)),
    }
}

/// Reads a field that has to hold an instant, written as a text.
fn read_stamp(found: Option<&Node>, field: Field) -> (r: Result<Timestamp, Defect>)
    ensures
        r == stamp_value(view_found(found), field),
{
    match found {
        None => Err(Defect::Missing(field)),
        Some(Node::Text(text)) => match Timestamp::parse(text.as_str()) {
            Some(stamp) => Ok(stamp),
            None => Err(Defect::Invalid(field)),
        },
        Some(_) => Err(Defect::Invalid(field)),
    }
}

/// Reads a field that may hold an instant, written as a text, or nothing.
fn read_optional_stamp(found: Option<&Node>, field: Field) -> (r: Result<
    Option<Timestamp>,
    Defect,
>)
    ensures
        r == optional_stamp_value(view_found(found), field),
{
    match found {
        None => Ok(None),
        Some(Node::Null) => Ok(None),
        Some(Node::Text(text)) => match Timestamp::parse(text.as_str()) {
            Some(stamp) => Ok(Some(stamp)),
            None => Err(Defect::Invalid(field)),
        },
        Some(_) => Err(Defect::Invalid(field)),
    }
}

/// Reads a field that has to hold a list of texts.
fn read_texts(found: Option<&Node>, field: Field) -> (r: Result<Vec<String>, Defect>)
    ensures
        view_texts(r) == texts_value(view_found(found), field),
{
    match found {
        None => {
            let none: Vec<String> = Vec::new();
            proof {
                assert(texts(none@) =~= Seq::<Seq<char>>::empty());
            }
            Ok(none)
        },
        Some(Node::List(items)) => {
            proof {
                lemma_view_of_list(*items);
            }
            let ghost seen = view_nodes(items@);
            let mut list: Vec<String> = Vec::new();
            let mut i: usize = 0;
            while i < items.len()
                invariant
                    i <= items.len(),
                    seen == view_nodes(items@),
                    view_found(found) == Some(NodeView::List(seen)),
                    list@.len() == i,
                    forall|k: int| 0 <= k < i ==> #[trigger] seen[k] is Text,
                    forall|k: int| 0 <= k < i ==> list@[k]@ == (#[trigger] seen[k])->Text_0,
                decreases items.len() - i,
            {
                match &items[i] {
                    Node::Text(text) => {
                        list.push(text.clone());
                    },
                    _ => {
                        proof {
                            assert(!(seen[i as int] is Text));
                        }
                        return Err(Defect::Invalid(field));
                    },
                }
                i += 1;
            }
            proof {
                assert(texts(list@) =~= texts_of(seen));
            }
            Ok(list)
        },
        Some(_) => Err(Defect::Invalid(field)),
    }
}

/// A text that may have been read, by its view.
pub open spec fn view_text(r: Result<String, Defect>) -> Result<Seq<char>, Defect> {
    match r {
        Ok(text) => Ok(text@),
        Err(defect) => Err(defect),
    }
}

/// A text that may be there and may have been read, by its view.
pub open spec fn view_optional_text(r: Result<Option<String>, Defect>) -> Result<
    Option<Seq<char>>,
    Defect,
> {
    match r {
        Ok(text) => Ok(opt_text(text)),
        Err(defect) => Err(defect),
    }
}

/// Texts that may have been read, by their views.
pub open spec fn view_texts(r: Result<Vec<String>, Defect>) -> Result<Seq<Seq<char>>, Defect> {
    match r {
        Ok(list) => Ok(texts(list@)),
        Err(defect) => Err(defect),
    }
}

/// The value that a header has for a field.
pub open spec fn entry_of(entries: Seq<(Seq<char>, NodeView)>, field: Field) -> Option<NodeView> {
    lookup(entries, name_of(field))
}

/// The header that a table of named values stands for, or what is wrong with the first
/// field, in the order of the fields of a header, that is absent though required or holds a
/// value of the wrong kind. Names that belong to no field are passed over.
pub open spec fn frontmatter_of_entries(entries: Seq<(Seq<char>, NodeView)>) -> Result<
    FrontmatterView,
    Defect,
> {
    let title = text_value(entry_of(entries, Field::Title), Field::Title, None);
    let pub_datetime = stamp_value(entry_of(entries, Field::PubDatetime), Field::PubDatetime);
    let description = text_value(
        entry_of(entries, Field::Description),
        Field::Description,
        Some(Seq::empty()),
    );
    let mod_datetime = optional_stamp_value(
        entry_of(entries, Field::ModDatetime),
        Field::ModDatetime,
    );
    let featured = flag_value(entry_of(entries, Field::Featured), Field::Featured, false);
    let draft = flag_value(entry_of(entries, Field::Draft), Field::Draft, true);
    let author = text_value(
        entry_of(entries, Field::Author),
        Field::Author,
        Some(author_by_default()),
    );
    let tags = texts_value(entry_of(entries, Field::Tags), Field::Tags);
    let dek = optional_text_value(entry_of(entries, Field::Dek), Field::Dek);
    let og_image = optional_text_value(entry_of(entries, Field::OgImage), Field::OgImage);
    let canonical_url = optional_text_value(
        entry_of(entries, Field::CanonicalUrl),
        Field::CanonicalUrl,
    );
    let hide_edit_post = flag_value(
        entry_of(entries, Field::HideEditPost),
        Field::HideEditPost,
        false,
    );
    let timezone = text_value(
        entry_of(entries, Field::Timezone),
        Field::Timezone,
        Some(timezone_by_default()),
    );
    if title is Err {
        Err(title->Err_0)
    } else if pub_datetime is Err {
        Err(pub_datetime->Err_0)
    } else if description is Err {
        Err(description->Err_0)
    } else if mod_datetime is Err {
        Err(mod_datetime->Err_0)
    } else if featured is Err {
        Err(featured->Err_0)
    } else if draft is Err {
        Err(draft->Err_0)
    } else if author is Err {
        Err(author->Err_0)
    } else if tags is Err {
        Err(tags->Err_0)
    } else if dek is Err {
        Err(dek->Err_0)
    } else if og_image is Err {
        Err(og_image->Err_0)
    } else if canonical_url is Err {
        Err(canonical_url->Err_0)
    } else if hide_edit_post is Err {
        Err(hide_edit_post->Err_0)
    } else if timezone is Err {
        Err(timezone->Err_0)
    } else {
        Ok(
            FrontmatterView {
                title: title->Ok_0,
                pub_datetime: pub_datetime->Ok_0,
                description: description->Ok_0,
                mod_datetime: mod_datetime->Ok_0,
                featured: featured->Ok_0,
                draft: draft->Ok_0,
                author: author->Ok_0,
                tags: tags->Ok_0,
                dek: dek->Ok_0,
                og_image: og_image->Ok_0,
                canonical_url: canonical_url->Ok_0,
                hide_edit_post: hide_edit_post->Ok_0,
                timezone: timezone->Ok_0,
            },
        )
    }
}

/// The header that a parsed header stands for: it has to be a table.
pub open spec fn frontmatter_of(header: NodeView) -> Result<FrontmatterView, Defect> {
    match header {
        NodeView::Table(entries) => frontmatter_of_entries(entries),
        _ => Err(Defect::NotATable),
    }
}

/// The header and the content that a document holds.
pub open spec fn decoded(text: Seq<char>) -> Result<(FrontmatterView, Seq<char>), ErrorView> {
    match matter_of(text).0 {
        None => Err(ErrorView::MalformedDocument(Defect::NoHeader)),
        Some(header) => match frontmatter_of(header) {
            Err(defect) => Err(ErrorView::MalformedDocument(defect)),
            Ok(frontmatter) => Ok((frontmatter, matter_of(text).1)),
        },
    }
}

/// A header that may have been read, by its view.
pub open spec fn view_frontmatter(r: Result<ArticleFrontmatter, Defect>) -> Result<
    FrontmatterView,
    Defect,
> {
    match r {
        Ok(frontmatter) => Ok(frontmatter@),
        Err(defect) => Err(defect),
    }
}

/// A header and a content that may have been read, by their views.
pub open spec fn view_decoded(r: Result<(ArticleFrontmatter, String), StoreError>) -> Result<
    (FrontmatterView, Seq<char>),
    ErrorView,
> {
    match r {
        Ok((frontmatter, content)) => Ok((frontmatter@, content@)),
        Err(error) => Err(error@),
    }
}

/// Reads an article's header from a parsed header.
///
/// The title and the time of publication are required. A field that is absent otherwise
/// takes its default: no description, not featured, a draft, the default author, no tags,
/// the edit link shown, the default time zone, and nothing for the rest. A field that may
/// hold nothing may hold a null.
pub fn frontmatter_from_header(header: &Node) -> (r: Result<ArticleFrontmatter, Defect>)
    ensures
        view_frontmatter(r) == frontmatter_of(header@),
{
    let entries = match header {
        Node::Table(entries) => entries,
        _ => {
            return Err(Defect::NotATable);
        },
    };
    proof {
        lemma_view_of_table(*entries);
    }
    let title = match read_text(find(entries, &field_name(Field::Title)), Field::Title, None) {
        Ok(value) => value,
        Err(defect) => {
            return Err(defect);
        },
    };
    let pub_datetime = match read_stamp(
        find(entries, &field_name(Field::PubDatetime)),
        Field::PubDatetime,
    ) {
        Ok(value) => value,
        Err(defect) => {
            return Err(defect);
        },
    };
    let description = match read_text(
        find(entries, &field_name(Field::Description)),
        Field::Description,
        Some(String::new()),
    ) {
        Ok(value) => value,
        Err(defect) => {
            return Err(defect);
        },
    };
    let mod_datetime = match read_optional_stamp(
        find(entries, &field_name(Field::ModDatetime)),
        Field::ModDatetime,
    ) {
        Ok(value) => value,
        Err(defect) => {
            return Err(defect);
        },
    };
    let featured = match read_flag(
        find(entries, &field_name(Field::Featured)),
        Field::Featured,
        false,
    ) {
        Ok(value) => value,
        Err(defect) => {
            return Err(defect);
        },
    };
    let draft = match read_flag(
        find(entries, &field_name(Field::Draft)),
        Field::Draft,
        default_true(),
    ) {
        Ok(value) => value,
        Err(defect) => {
            return Err(defect);
        },
    };
    let author = match read_text(
        find(entries, &field_name(Field::Author)),
        Field::Author,
        Some(default_author()),
    ) {
        Ok(value) => value,
        Err(defect) => {
            return Err(defect);
        },
    };
    let tags = match read_texts(find(entries, &field_name(Field::Tags)), Field::Tags) {
        Ok(value) => value,
        Err(defect) => {
            return Err(defect);
        },
    };
    let dek = match read_optional_text(find(entries, &field_name(Field::Dek)), Field::Dek) {
        Ok(value) => value,
        Err(defect) => {
            return Err(defect);
        },
    };
    let og_image = match read_optional_text(
        find(entries, &field_name(Field::OgImage)),
        Field::OgImage,
    ) {
        Ok(value) => value,
        Err(defect) => {
            return Err(defect);
        },
    };
    let canonical_url = match read_optional_text(
        find(entries, &field_name(Field::CanonicalUrl)),
        Field::CanonicalUrl,
    ) {
        Ok(value) => value,
        Err(defect) => {
            return Err(defect);
        },
    };
    let hide_edit_post = match read_flag(
        find(entries, &field_name(Field::HideEditPost)),
        Field::HideEditPost,
        false,
    ) {
        Ok(value) => value,
        Err(defect) => {
            return Err(defect);
        },
    };
    let timezone = match read_text(
        find(entries, &field_name(Field::Timezone)),
        Field::Timezone,
        Some(default_timezone()),
    ) {
        Ok(value) => value,
        Err(defect) => {
            return Err(defect);
        },
    };
    Ok(
        ArticleFrontmatter {
            title,
            pub_datetime,
            description,
            mod_datetime,
            featured,
            draft,
            author,
            tags,
            dek,
            og_image,
            canonical_url,
            hide_edit_post,
            timezone,
        },
    )
}

/// Reads a document: the header between its `---` lines, and the content that follows.
///
/// The document is malformed where it has no header, where the header is not a table of
/// named values, and where a field of it is absent though required or holds a value of the
/// wrong kind.
pub fn parse_frontmatter(content: &str) -> (r: Result<(ArticleFrontmatter, String), StoreError>)
    ensures
        view_decoded(r) == decoded(content@),
{
    let (header, body) = split_document(content);
    let header = match header {
        Some(header) => header,
        None => {
            return Err(StoreError::MalformedDocument { defect: Defect::NoHeader });
        },
    };
    match frontmatter_from_header(&header) {
        Ok(frontmatter) => Ok((frontmatter, body)),
        Err(defect) => Err(StoreError::MalformedDocument { defect }),
    }
}

/// One named value of a header.
pub open spec fn one(field: Field, value: EmitView) -> Seq<(Seq<char>, EmitView)> {
    seq![(name_of(field), value)]
}

/// One named text of a header, or nothing where there is no text.
pub open spec fn maybe(field: Field, text: Option<Seq<char>>) -> Seq<(Seq<char>, EmitView)> {
    match text {
        Some(text) => one(field, EmitView::Text(text)),
        None => Seq::empty(),
    }
}

/// The named values that are written for a header, given the texts of its two instants: the
/// fields in their order, those left out that hold nothing.
pub open spec fn emitted_fields(
    frontmatter: FrontmatterView,
    published: Seq<char>,
    modified: Option<Seq<char>>,
) -> Seq<(Seq<char>, EmitView)> {
    one(Field::Title, EmitView::Text(frontmatter.title)) + one(
        Field::PubDatetime,
        EmitView::Text(published),
    ) + one(Field::Description, EmitView::Text(frontmatter.description)) + maybe(
        Field::ModDatetime,
        modified,
    ) + one(Field::Featured, EmitView::Flag(frontmatter.featured)) + one(
        Field::Draft,
        EmitView::Flag(frontmatter.draft),
    ) + one(Field::Author, EmitView::Text(frontmatter.author)) + one(
        Field::Tags,
        EmitView::Texts(frontmatter.tags),
    ) + maybe(Field::Dek, frontmatter.dek) + maybe(Field::OgImage, frontmatter.og_image) + maybe(
        Field::CanonicalUrl,
        frontmatter.canonical_url,
    ) + one(Field::HideEditPost, EmitView::Flag(frontmatter.hide_edit_post)) + one(
        Field::Timezone,
        EmitView::Text(frontmatter.timezone),
    )
}

/// The named values that are written for a header, or the instant of it that cannot be
/// written as a date and time.
pub open spec fn header_fields(frontmatter: FrontmatterView) -> Result<
    Seq<(Seq<char>, EmitView)>,
    Defect,
> {
    match frontmatter.pub_datetime.text() {
        None => Err(Defect::Unrepresentable(Field::PubDatetime)),
        Some(published) => match frontmatter.mod_datetime {
            None => Ok(emitted_fields(frontmatter, published, None)),
            Some(stamp) => match stamp.text() {
                None => Err(Defect::Unrepresentable(Field::ModDatetime)),
                Some(modified) => Ok(emitted_fields(frontmatter, published, Some(modified))),
            },
        },
    }
}

/// The document that is written around a header's YAML text: the text between two `---`
/// lines, an empty line, and the content. Where no YAML text could be written the header is
/// left empty.
pub open spec fn framed(yaml: Option<Seq<char>>, content: Seq<char>) -> Seq<char> {
    let header = match yaml {
        Some(text) => text,
        None => Seq::empty(),
    };
    "---\n"@ + header + "---\n\n"@ + content
}

/// The document that is written for a header and a content.
pub open spec fn encoded(frontmatter: FrontmatterView, content: Seq<char>) -> Result<
    Seq<char>,
    ErrorView,
> {
    match header_fields(frontmatter) {
        Err(defect) => Err(ErrorView::MalformedDocument(defect)),
        Ok(fields) => Ok(framed(yaml_of(fields), content)),
    }
}

/// Appends a named value.
fn put(fields: &mut Vec<(String, Emit)>, field: Field, value: Emit)
    ensures
        view_fields(final(fields)@) == view_fields(old(fields)@) + one(field, value@),
{
    fields.push((field_name(field), value));
    proof {
        assert(view_fields(fields@) =~= view_fields(old(fields)@) + one(field, value@));
    }
}

/// Appends a named text.
fn put_text(fields: &mut Vec<(String, Emit)>, field: Field, text: &String)
    ensures
        view_fields(final(fields)@) == view_fields(old(fields)@) + one(
            field,
            EmitView::Text(text@),
        ),
{
    put(fields, field, Emit::Text(text.clone()));
}

/// Appends a named text where there is one.
fn put_optional_text(fields: &mut Vec<(String, Emit)>, field: Field, text: &Option<String>)
    ensures
        view_fields(final(fields)@) == view_fields(old(fields)@) + maybe(field, opt_text(*text)),
{
    match text {
        Some(text) => {
            put_text(fields, field, text);
        },
        None => {
            proof {
                assert(view_fields(fields@) + Seq::empty() =~= view_fields(fields@));
            }
        },
    }
}

/// The named values that are written for a header, in the order in which they are written.
/// A field that holds nothing is left out.
pub fn fields_of_header(frontmatter: &ArticleFrontmatter) -> (r: Result<
    Vec<(String, Emit)>,
    Defect,
>)
    ensures
        view_emitted(r) == header_fields(frontmatter@),
{
    let published = match frontmatter.pub_datetime.render() {
        Some(text) => text,
        None => {
            return Err(Defect::Unrepresentable(Field::PubDatetime));
        },
    };
    let modified = match frontmatter.mod_datetime {
        None => None,
        Some(stamp) => match stamp.render() {
            Some(text) => Some(text),
            None => {
                return Err(Defect::Unrepresentable(Field::ModDatetime));
            },
        },
    };
    let mut fields: Vec<(String, Emit)> = Vec::new();
    proof {
        assert(view_fields(fields@) =~= Seq::empty());
        assert(Seq::<(Seq<char>, EmitView)>::empty() + one(
            Field::Title,
            EmitView::Text(frontmatter.title@),
        ) =~= one(Field::Title, EmitView::Text(frontmatter.title@)));
    }
    put_text(&mut fields, Field::Title, &frontmatter.title);
    put_text(&mut fields, Field::PubDatetime, &published);
    put_text(&mut fields, Field::Description, &frontmatter.description);
    put_optional_text(&mut fields, Field::ModDatetime, &modified);
    put(&mut fields, Field::Featured, Emit::Flag(frontmatter.featured));
    put(&mut fields, Field::Draft, Emit::Flag(frontmatter.draft));
    put_text(&mut fields, Field::Author, &frontmatter.author);
    put(&mut fields, Field::Tags, Emit::Texts(copy_texts(&frontmatter.tags)));
    put_optional_text(&mut fields, Field::Dek, &frontmatter.dek);
    put_optional_text(&mut fields, Field::OgImage, &frontmatter.og_image);
    put_optional_text(&mut fields, Field::CanonicalUrl, &frontmatter.canonical_url);
    put(&mut fields, Field::HideEditPost, Emit::Flag(frontmatter.hide_edit_post));
    put_text(&mut fields, Field::Timezone, &frontmatter.timezone);
    Ok(fields)
}

/// Named values that may have been made, by their views.
pub open spec fn view_emitted(r: Result<Vec<(String, Emit)>, Defect>) -> Result<
    Seq<(Seq<char>, EmitView)>,
    Defect,
> {
    match r {
        Ok(fields) => Ok(view_fields(fields@)),
        Err(defect) => Err(defect),
    }
}

/// A document that may have been written, by its view.
pub open spec fn view_encoded(r: Result<String, StoreError>) -> Result<Seq<char>, ErrorView> {
    match r {
        Ok(text) => Ok(text@),
        Err(error) => Err(error@),
    }
}

/// Writes a document: the header as YAML between two `---` lines, an empty line, and the
/// content as it is.
///
/// The article cannot be written where one of its instants lies outside of what can be
/// written as a date and time.
pub fn serialize_frontmatter(frontmatter: &ArticleFrontmatter, content: &str) -> (r: Result<
    String,
    StoreError,
>)
    ensures
        view_encoded(r) == encoded(frontmatter@, content@),
{
    let fields = match fields_of_header(frontmatter) {
        Ok(fields) => fields,
        Err(defect) => {
            return Err(StoreError::MalformedDocument { defect });
        },
    };
    let mut text = String::from_str("---\n");
    match write_yaml(&fields) {
        Some(yaml) => {
            text.append(yaml.as_str());
        },
        None => {
            proof {
                assert(text@ + Seq::empty() =~= text@);
            }
        },
    }
    text.append("---\n\n");
    text.append(content);
    Ok(text)
}

} // verus!
