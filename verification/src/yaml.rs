use vstd::prelude::*;
use serde_yaml::{Mapping, Value};
use crate::text::texts;

verus! {

/// A value that is written into a document's header.
#[derive(Debug)]
pub enum Emit {
    Flag(bool),
    Text(String),
    Texts(Vec<String>),
}

/// What an `Emit` holds, with its texts as sequences of characters.
pub enum EmitView {
    Flag(bool),
    Text(Seq<char>),
    Texts(Seq<Seq<char>>),
}

impl View for Emit {
    type V = EmitView;

    open spec fn view(&self) -> EmitView {
        match self {
            Emit::Flag(flag) => EmitView::Flag(*flag),
            Emit::Text(text) => EmitView::Text(text@),
            Emit::Texts(list) => EmitView::Texts(texts(list@)),
        }
    }
}

/// Named values, by their views.
pub open spec fn view_fields(fields: Seq<(String, Emit)>) -> Seq<(Seq<char>, EmitView)> {
    Seq::new(fields.len(), |i: int| (fields[i].0@, fields[i].1@))
}

/// The YAML text that serde_yaml writes for a mapping of these names to these values, in
/// this order, where it writes one.
pub uninterp spec fn yaml_of(fields: Seq<(Seq<char>, EmitView)>) -> Option<Seq<char>>;

/// Calls `serde_yaml::to_string` on a mapping that holds the named values in their order,
/// a flag as a boolean, a text as a string and a list of texts as a sequence of strings.
/// Trusted: the text that is written, or that none is, depends on the names and values alone.
#[verifier::external_body]
pub(crate) fn write_yaml(fields: &Vec<(String, Emit)>) -> (r: Option<String>)
    ensures
        r.is_some() == yaml_of(view_fields(fields@)).is_some(),
        r matches Some(text) ==> Some(text@) == yaml_of(view_fields(fields@)),
{
    let entry = |field: &(String, Emit)| {
        let value = match &field.1 {
            Emit::Flag(flag) => Value::Bool(*flag),
            Emit::Text(text) => Value::String(text.clone()),
            Emit::Texts(list) => Value::Sequence(list.iter().cloned().map(Value::String).collect()),
        };
        (Value::String(field.0.clone()), value)
    };
    serde_yaml::to_string(&fields.iter().map(entry).collect::<Mapping>()).ok()
}

} // verus!
