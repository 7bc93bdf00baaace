use vstd::prelude::*;
use gray_matter::engine::YAML;
use gray_matter::Matter;

verus! {

/// A value of a document's header.
#[derive(Debug)]
pub enum Node {
    Null,
    Flag(bool),
    /// A number, as the text that stands for it.
    Number(String),
    Text(String),
    List(Vec<Node>),
    /// Named values, in the order of their names.
    Table(Vec<(String, Node)>),
}

/// What a `Node` holds, with its texts and lists as sequences.
pub enum NodeView {
    Null,
    Flag(bool),
    Number(Seq<char>),
    Text(Seq<char>),
    List(Seq<NodeView>),
    Table(Seq<(Seq<char>, NodeView)>),
}

impl Node {
    /// What the node holds, with its texts and lists as sequences.
    pub open spec fn seen(&self) -> NodeView
        decreases self,
    {
        match self {
            Node::Null => NodeView::Null,
            Node::Flag(flag) => NodeView::Flag(*flag),
            Node::Number(text) => NodeView::Number(text@),
            Node::Text(text) => NodeView::Text(text@),
            Node::List(items) => NodeView::List(
                Seq::new(
                    items@.len(),
                    |i: int|
                        if 0 <= i < items@.len() {
                            items@[i].seen()
                        } else {
                            NodeView::Null
                        },
                ),
            ),
            Node::Table(entries) => NodeView::Table(
                Seq::new(
                    entries@.len(),
                    |i: int|
                        if 0 <= i < entries@.len() {
                            (entries@[i].0@, entries@[i].1.seen())
                        } else {
                            (Seq::empty(), NodeView::Null)
                        },
                ),
            ),
        }
    }
}

impl View for Node {
    type V = NodeView;

    open spec fn view(&self) -> NodeView {
        self.seen()
    }
}

/// `serde_json::Value`, which carries a header from gray_matter's reader to `node_of_json`.
#[verifier::external_type_specification]
#[verifier::external_body]
pub struct ExJsonValue(serde_json::Value);

/// What a JSON value holds.
pub uninterp spec fn json_view(value: serde_json::Value) -> NodeView;

/// What gray_matter finds in a text with its YAML engine: the header between the `---`
/// lines, where there is one that is not empty, and the content that follows it.
pub uninterp spec fn matter_of(text: Seq<char>) -> (Option<NodeView>, Seq<char>);

/// A JSON value that may be absent, by what it holds.
pub open spec fn view_json(value: Option<serde_json::Value>) -> Option<NodeView> {
    match value {
        Some(value) => Some(json_view(value)),
        None => None,
    }
}

/// Takes a `serde_json::Value` over into a `Node`, variant by variant, a number as the text
/// that serde_json writes for it. An object's entries come in the order in which the object
/// holds them; as serde_json is built here, that is the order of their names. Trusted: the
/// node holds what the value holds.
#[verifier::external_body]
fn node_of_json(value: &serde_json::Value) -> (r: Node)
    ensures
        r@ == json_view(*value),
{
    match value {
        serde_json::Value::Null => Node::Null,
        serde_json::Value::Bool(flag) => Node::Flag(*flag),
        serde_json::Value::Number(number) => Node::Number(number.to_string()),
        serde_json::Value::String(text) => Node::Text(text.clone()),
        serde_json::Value::Array(items) => Node::List(items.iter().map(node_of_json).collect()),
        serde_json::Value::Object(entries) => Node::Table(
            entries.iter().map(|(name, item)| (name.clone(), node_of_json(item))).collect(),
        ),
    }
}

/// Calls gray_matter's `Matter::parse` with the YAML engine and the delimiter `---`, and takes
/// the header as the `serde_json::Value` that gray_matter's `Pod::deserialize` reads from.
/// Trusted: the header and the content that are found depend on the text alone. What they
/// are is not stated: gray_matter decides where the header ends and what of the rest is
/// content, and its YAML reader what the header holds.
#[verifier::external_body]
fn find_matter(text: &str) -> (r: (Option<serde_json::Value>, String))
    ensures
        view_json(r.0) == matter_of(text@).0,
        r.1@ == matter_of(text@).1,
{
    let parsed = Matter::<YAML>::new().parse(text);
    (parsed.data.map(|pod| pod.into()), parsed.content)
}

/// A header that may be absent, by its view.
pub open spec fn view_header(header: Option<Node>) -> Option<NodeView> {
    match header {
        Some(node) => Some(node@),
        None => None,
    }
}

/// Splits a document into its header, where it has one, and its content.
pub fn split_document(text: &str) -> (r: (Option<Node>, String))
    ensures
        view_header(r.0) == matter_of(text@).0,
        r.1@ == matter_of(text@).1,
{
    let (found, content) = find_matter(text);
    let header = match found {
        Some(value) => Some(node_of_json(&value)),
        None => None,
    };
    (header, content)
}

} // verus!
