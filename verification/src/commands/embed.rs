//! A rich reply: a title, coloured side bar, fields and a thumbnail.

use vstd::prelude::*;

verus! {

/// One titled value of a rich reply.
#[derive(Debug, Clone)]
pub struct EmbedField {
    pub name: String,
    pub value: String,
    /// Whether the field may share its row with its neighbours.
    pub inline: bool,
}

/// A rich reply.
#[derive(Debug, Clone)]
pub struct Embed {
    pub title: String,
    /// Where the title links to.
    pub url: Option<String>,
    /// The colour of the side bar, as `0xRRGGBB`.
    pub color: u32,
    pub fields: Vec<EmbedField>,
    /// The picture shown beside the fields.
    pub thumbnail: Option<String>,
}

/// Whether a field has this name, value and layout.
pub open spec fn field_is(f: EmbedField, name: Seq<char>, value: Seq<char>, inline: bool) -> bool {
    f.name@ == name && f.value@ == value && f.inline == inline
}

/// A field with this name, value and layout.
pub fn field(name: &str, value: &str, inline: bool) -> (f: EmbedField)
    ensures
        field_is(f, name@, value@, inline),
{
    EmbedField { name: name.to_owned(), value: value.to_owned(), inline }
}

} // verus!
