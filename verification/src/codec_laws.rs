use vstd::prelude::*;
use crate::error::{Defect, Field};
use crate::error::ErrorView;
use crate::frontmatter::{
    decoded, emitted_fields, encoded, entry_of, frontmatter_of_entries, header_fields, lookup,
    maybe, name_of, one, texts_of, FrontmatterView,
};
use crate::header::{matter_of, NodeView};
use crate::instant::{timestamp_of_text, Timestamp};
use crate::yaml::EmitView;

verus! {

/// The value that a reader of headers holds for a value that was written.
pub open spec fn read_back(value: EmitView) -> NodeView {
    match value {
        EmitView::Flag(flag) => NodeView::Flag(flag),
        EmitView::Text(text) => NodeView::Text(text),
        EmitView::Texts(list) => NodeView::List(
            Seq::new(list.len(), |i: int| NodeView::Text(list[i])),
        ),
    }
}

/// The table that a reader of headers holds for named values that were written.
pub open spec fn read_back_fields(fields: Seq<(Seq<char>, EmitView)>) -> Seq<
    (Seq<char>, NodeView),
> {
    Seq::new(fields.len(), |i: int| (fields[i].0, read_back(fields[i].1)))
}

/// Whether an instant is read back from the text that is written for it.
pub open spec fn reads_back(stamp: Timestamp) -> bool {
    match stamp.text() {
        Some(text) => timestamp_of_text(text) == Some(stamp),
        None => false,
    }
}

/// No two fields stand under the same name.
pub proof fn lemma_names_differ(first: Field, second: Field)
    requires
        first != second,
    ensures
        name_of(first) != name_of(second),
{
    reveal_strlit("title");
    reveal_strlit("pubDatetime");
    reveal_strlit("description");
    reveal_strlit("modDatetime");
    reveal_strlit("featured");
    reveal_strlit("draft");
    reveal_strlit("author");
    reveal_strlit("tags");
    reveal_strlit("dek");
    reveal_strlit("ogImage");
    reveal_strlit("canonicalUrl");
    reveal_strlit("hideEditPost");
    reveal_strlit("timezone");
    assert(name_of(first).len() != name_of(second).len() || name_of(first)[0] != name_of(
        second,
    )[0]);
}

/// A name is looked up in two tables joined as in the first and, where it is not there, as
/// in the second.
pub proof fn lemma_lookup_joined(
    first: Seq<(Seq<char>, NodeView)>,
    second: Seq<(Seq<char>, NodeView)>,
    name: Seq<char>,
)
    ensures
        lookup(first + second, name) == match lookup(first, name) {
            Some(value) => Some(value),
            None => lookup(second, name),
        },
    decreases first.len(),
{
    if first.len() == 0 {
        assert(first + second == second);
    } else {
        assert((first + second)[0] == first[0]);
        assert((first + second).skip(1) == first.skip(1) + second);
        lemma_lookup_joined(first.skip(1), second, name);
    }
}

/// How a field is looked up in what is read back once more values were written.
proof fn lemma_step(
    written: Seq<(Seq<char>, EmitView)>,
    more: Seq<(Seq<char>, EmitView)>,
    field: Field,
)
    ensures
        lookup(read_back_fields(written + more), name_of(field)) == match lookup(
            read_back_fields(written),
            name_of(field),
        ) {
            Some(value) => Some(value),
            None => lookup(read_back_fields(more), name_of(field)),
        },
{
    assert(read_back_fields(written + more) == read_back_fields(written) + read_back_fields(
        more,
    ));
    lemma_lookup_joined(read_back_fields(written), read_back_fields(more), name_of(field));
}

/// How a field is looked up in one value that was written and read back.
proof fn lemma_one(written: Field, value: EmitView, field: Field)
    ensures
        lookup(read_back_fields(one(written, value)), name_of(field)) == if written == field {
            Some(read_back(value))
        } else {
            None
        },
{
    let table = read_back_fields(one(written, value));
    assert(table[0] == (name_of(written), read_back(value)));
    assert(table.skip(1).len() == 0);
    assert(lookup(table.skip(1), name_of(field)) is None);
    if written != field {
        lemma_names_differ(written, field);
    }
}

/// How a field is looked up in one text that was written, or not, and read back.
proof fn lemma_maybe(written: Field, text: Option<Seq<char>>, field: Field)
    ensures
        lookup(read_back_fields(maybe(written, text)), name_of(field)) == match text {
            Some(text) => if written == field {
                Some(NodeView::Text(text))
            } else {
                None
            },
            None => None,
        },
{
    match text {
        Some(text) => {
            lemma_one(written, EmitView::Text(text), field);
        },
        None => {},
    }
}

/// What is read back for a field from the values that were written for a header.
pub open spec fn expected(
    frontmatter: FrontmatterView,
    published: Seq<char>,
    modified: Option<Seq<char>>,
    field: Field,
) -> Option<NodeView> {
    match field {
        Field::Title => Some(NodeView::Text(frontmatter.title)),
        Field::PubDatetime => Some(NodeView::Text(published)),
        Field::Description => Some(NodeView::Text(frontmatter.description)),
        Field::ModDatetime => match modified {
            Some(text) => Some(NodeView::Text(text)),
            None => None,
        },
        Field::Featured => Some(NodeView::Flag(frontmatter.featured)),
        Field::Draft => Some(NodeView::Flag(frontmatter.draft)),
        Field::Author => Some(NodeView::Text(frontmatter.author)),
        Field::Tags => Some(read_back(EmitView::Texts(frontmatter.tags))),
        Field::Dek => match frontmatter.dek {
            Some(text) => Some(NodeView::Text(text)),
            None => None,
        },
        Field::OgImage => match frontmatter.og_image {
            Some(text) => Some(NodeView::Text(text)),
            None => None,
        },
        Field::CanonicalUrl => match frontmatter.canonical_url {
            Some(text) => Some(NodeView::Text(text)),
            None => None,
        },
        Field::HideEditPost => Some(NodeView::Flag(frontmatter.hide_edit_post)),
        Field::Timezone => Some(NodeView::Text(frontmatter.timezone)),
    }
}

/// Each field is read back from the values that were written for a header as it was written,
/// and a field that was left out is not found.
pub proof fn lemma_fields_are_read_back(
    frontmatter: FrontmatterView,
    published: Seq<char>,
    modified: Option<Seq<char>>,
    field: Field,
)
    ensures
        lookup(
            read_back_fields(emitted_fields(frontmatter, published, modified)),
            name_of(field),
        ) == expected(frontmatter, published, modified, field),
{
    let part_1 = one(Field::Title, EmitView::Text(frontmatter.title));
    let part_2 = one(Field::PubDatetime, EmitView::Text(published));
    let part_3 = one(Field::Description, EmitView::Text(frontmatter.description));
    let part_4 = maybe(Field::ModDatetime, modified);
    let part_5 = one(Field::Featured, EmitView::Flag(frontmatter.featured));
    let part_6 = one(Field::Draft, EmitView::Flag(frontmatter.draft));
    let part_7 = one(Field::Author, EmitView::Text(frontmatter.author));
    let part_8 = one(Field::Tags, EmitView::Texts(frontmatter.tags));
    let part_9 = maybe(Field::Dek, frontmatter.dek);
    let part_10 = maybe(Field::OgImage, frontmatter.og_image);
    let part_11 = maybe(Field::CanonicalUrl, frontmatter.canonical_url);
    let part_12 = one(Field::HideEditPost, EmitView::Flag(frontmatter.hide_edit_post));
    let part_13 = one(Field::Timezone, EmitView::Text(frontmatter.timezone));
    lemma_one(Field::Title, EmitView::Text(frontmatter.title), field);
    lemma_one(Field::PubDatetime, EmitView::Text(published), field);
    lemma_one(Field::Description, EmitView::Text(frontmatter.description), field);
    lemma_maybe(Field::ModDatetime, modified, field);
    lemma_one(Field::Featured, EmitView::Flag(frontmatter.featured), field);
    lemma_one(Field::Draft, EmitView::Flag(frontmatter.draft), field);
    lemma_one(Field::Author, EmitView::Text(frontmatter.author), field);
    lemma_one(Field::Tags, EmitView::Texts(frontmatter.tags), field);
    lemma_maybe(Field::Dek, frontmatter.dek, field);
    lemma_maybe(Field::OgImage, frontmatter.og_image, field);
    lemma_maybe(Field::CanonicalUrl, frontmatter.canonical_url, field);
    lemma_one(Field::HideEditPost, EmitView::Flag(frontmatter.hide_edit_post), field);
    lemma_one(Field::Timezone, EmitView::Text(frontmatter.timezone), field);
    let upto_2 = part_1 + part_2;
    let upto_3 = upto_2 + part_3;
    let upto_4 = upto_3 + part_4;
    let upto_5 = upto_4 + part_5;
    let upto_6 = upto_5 + part_6;
    let upto_7 = upto_6 + part_7;
    let upto_8 = upto_7 + part_8;
    let upto_9 = upto_8 + part_9;
    let upto_10 = upto_9 + part_10;
    let upto_11 = upto_10 + part_11;
    let upto_12 = upto_11 + part_12;
    let upto_13 = upto_12 + part_13;
    lemma_step(part_1, part_2, field);
    lemma_step(upto_2, part_3, field);
    lemma_step(upto_3, part_4, field);
    lemma_step(upto_4, part_5, field);
    lemma_step(upto_5, part_6, field);
    lemma_step(upto_6, part_7, field);
    lemma_step(upto_7, part_8, field);
    lemma_step(upto_8, part_9, field);
    lemma_step(upto_9, part_10, field);
    lemma_step(upto_10, part_11, field);
    lemma_step(upto_11, part_12, field);
    lemma_step(upto_12, part_13, field);
    assert(upto_13 == emitted_fields(frontmatter, published, modified));
}

/// A header is read back from what was written for it: a table that holds the values
/// written for a header, each as it was written, stands for that header, provided that
/// each instant of the header is read back from the text that is written for it. A field
/// that was left out because it held nothing is read back as holding nothing.
pub proof fn lemma_header_round_trip(frontmatter: FrontmatterView)
    requires
        reads_back(frontmatter.pub_datetime),
        frontmatter.mod_datetime matches Some(stamp) ==> reads_back(stamp),
    ensures
        header_fields(frontmatter) matches Ok(fields) && frontmatter_of_entries(
            read_back_fields(fields),
        ) == Ok::<FrontmatterView, Defect>(frontmatter),
{
    let published = frontmatter.pub_datetime.text()->Some_0;
    let modified = match frontmatter.mod_datetime {
        Some(stamp) => stamp.text(),
        None => None,
    };
    let fields = emitted_fields(frontmatter, published, modified);
    assert(header_fields(frontmatter) == Ok::<Seq<(Seq<char>, EmitView)>, Defect>(fields));
    lemma_fields_are_read_back(frontmatter, published, modified, Field::Title);
    lemma_fields_are_read_back(frontmatter, published, modified, Field::PubDatetime);
    lemma_fields_are_read_back(frontmatter, published, modified, Field::Description);
    lemma_fields_are_read_back(frontmatter, published, modified, Field::ModDatetime);
    lemma_fields_are_read_back(frontmatter, published, modified, Field::Featured);
    lemma_fields_are_read_back(frontmatter, published, modified, Field::Draft);
    lemma_fields_are_read_back(frontmatter, published, modified, Field::Author);
    lemma_fields_are_read_back(frontmatter, published, modified, Field::Tags);
    lemma_fields_are_read_back(frontmatter, published, modified, Field::Dek);
    lemma_fields_are_read_back(frontmatter, published, modified, Field::OgImage);
    lemma_fields_are_read_back(frontmatter, published, modified, Field::CanonicalUrl);
    lemma_fields_are_read_back(frontmatter, published, modified, Field::HideEditPost);
    lemma_fields_are_read_back(frontmatter, published, modified, Field::Timezone);
    let tags = read_back(EmitView::Texts(frontmatter.tags))->List_0;
    assert(texts_of(tags) == frontmatter.tags);
    let read = frontmatter_of_entries(read_back_fields(fields));
    assert(read is Ok);
    assert(read->Ok_0 == frontmatter);
}

/// Whether a document is read as it was written: the reader finds a header that is a table
/// in which each field stands as in what was written, and finds the content as it was.
pub open spec fn read_as_written(
    document: Seq<char>,
    fields: Seq<(Seq<char>, EmitView)>,
    content: Seq<char>,
) -> bool {
    &&& matter_of(document).1 == content
    &&& matter_of(document).0 matches Some(NodeView::Table(entries)) && forall|field: Field|
        #[trigger] entry_of(entries, field) == entry_of(read_back_fields(fields), field)
}

/// A document is read back as the header and the content that it was written for, provided
/// that the reader of documents finds in it what the writer put there, and that each
/// instant of the header is read back from the text that is written for it.
pub proof fn lemma_document_round_trip(frontmatter: FrontmatterView, content: Seq<char>)
    requires
        reads_back(frontmatter.pub_datetime),
        frontmatter.mod_datetime matches Some(stamp) ==> reads_back(stamp),
        encoded(frontmatter, content) matches Ok(document) && read_as_written(
            document,
            header_fields(frontmatter)->Ok_0,
            content,
        ),
    ensures
        encoded(frontmatter, content) matches Ok(document) && decoded(document) == Ok::<
            (FrontmatterView, Seq<char>),
            ErrorView,
        >((frontmatter, content)),
{
    lemma_header_round_trip(frontmatter);
    let document = encoded(frontmatter, content)->Ok_0;
    let fields = header_fields(frontmatter)->Ok_0;
    let entries = matter_of(document).0->Some_0->Table_0;
    assert(entry_of(entries, Field::Title) == entry_of(read_back_fields(fields), Field::Title));
    assert(entry_of(entries, Field::PubDatetime) == entry_of(
        read_back_fields(fields),
        Field::PubDatetime,
    ));
    assert(entry_of(entries, Field::Description) == entry_of(
        read_back_fields(fields),
        Field::Description,
    ));
    assert(entry_of(entries, Field::ModDatetime) == entry_of(
        read_back_fields(fields),
        Field::ModDatetime,
    ));
    assert(entry_of(entries, Field::Featured) == entry_of(
        read_back_fields(fields),
        Field::Featured,
    ));
    assert(entry_of(entries, Field::Draft) == entry_of(read_back_fields(fields), Field::Draft));
    assert(entry_of(entries, Field::Author) == entry_of(read_back_fields(fields), Field::Author));
    assert(entry_of(entries, Field::Tags) == entry_of(read_back_fields(fields), Field::Tags));
    assert(entry_of(entries, Field::Dek) == entry_of(read_back_fields(fields), Field::Dek));
    assert(entry_of(entries, Field::OgImage) == entry_of(
        read_back_fields(fields),
        Field::OgImage,
    ));
    assert(entry_of(entries, Field::CanonicalUrl) == entry_of(
        read_back_fields(fields),
        Field::CanonicalUrl,
    ));
    assert(entry_of(entries, Field::HideEditPost) == entry_of(
        read_back_fields(fields),
        Field::HideEditPost,
    ));
    assert(entry_of(entries, Field::Timezone) == entry_of(
        read_back_fields(fields),
        Field::Timezone,
    ));
    assert(frontmatter_of_entries(entries) == frontmatter_of_entries(read_back_fields(fields)));
}

} // verus!
