//! The closed enums of the wire format and their exact token tables.
use vstd::prelude::*;

use crate::text::same_text;

verus! {

/// The kind of a note. The server accepts exactly these ten tokens.
#[derive(Clone, Copy, Debug, PartialEq, Eq, Structural)]
pub enum NoteType {
    Text,
    Code,
    Render,
    File,
    Image,
    Search,
    RelationMap,
    Book,
    NoteMap,
    Mermaid,
}

/// The wire token of a note type.
pub open spec fn note_type_token(t: NoteType) -> Seq<char> {
    match t {
        NoteType::Text => "text"@,
        NoteType::Code => "code"@,
        NoteType::Render => "render"@,
        NoteType::File => "file"@,
        NoteType::Image => "image"@,
        NoteType::Search => "search"@,
        NoteType::RelationMap => "relation-map"@,
        NoteType::Book => "book"@,
        NoteType::NoteMap => "note-map"@,
        NoteType::Mermaid => "mermaid"@,
    }
}

/// The note type that a wire token names, if it names one.
pub open spec fn note_type_of_token(s: Seq<char>) -> Option<NoteType> {
    if s == "text"@ {
        Some(NoteType::Text)
    } else if s == "code"@ {
        Some(NoteType::Code)
    } else if s == "render"@ {
        Some(NoteType::Render)
    } else if s == "file"@ {
        Some(NoteType::File)
    } else if s == "image"@ {
        Some(NoteType::Image)
    } else if s == "search"@ {
        Some(NoteType::Search)
    } else if s == "relation-map"@ {
        Some(NoteType::RelationMap)
    } else if s == "book"@ {
        Some(NoteType::Book)
    } else if s == "note-map"@ {
        Some(NoteType::NoteMap)
    } else if s == "mermaid"@ {
        Some(NoteType::Mermaid)
    } else {
        None
    }
}

impl NoteType {
    /// The token that stands for this type in JSON.
    pub fn wire(&self) -> (r: &'static str)
        ensures
            r@ == note_type_token(*self),
    {
        match self {
            NoteType::Text => "text",
            NoteType::Code => "code",
            NoteType::Render => "render",
            NoteType::File => "file",
            NoteType::Image => "image",
            NoteType::Search => "search",
            NoteType::RelationMap => "relation-map",
            NoteType::Book => "book",
            NoteType::NoteMap => "note-map",
            NoteType::Mermaid => "mermaid",
        }
    }

    /// Reads a wire token; a token outside the table is refused, never
    /// mapped to a default type.
    pub fn from_wire(s: &str) -> (r: Option<NoteType>)
        ensures
            r == note_type_of_token(s@),
    {
        if same_text(s, "text") {
            Some(NoteType::Text)
        } else if same_text(s, "code") {
            Some(NoteType::Code)
        } else if same_text(s, "render") {
            Some(NoteType::Render)
        } else if same_text(s, "file") {
            Some(NoteType::File)
        } else if same_text(s, "image") {
            Some(NoteType::Image)
        } else if same_text(s, "search") {
            Some(NoteType::Search)
        } else if same_text(s, "relation-map") {
            Some(NoteType::RelationMap)
        } else if same_text(s, "book") {
            Some(NoteType::Book)
        } else if same_text(s, "note-map") {
            Some(NoteType::NoteMap)
        } else if same_text(s, "mermaid") {
            Some(NoteType::Mermaid)
        } else {
            None
        }
    }

    /// The name of the variant, as `{:?}` would print it.
    pub fn to_string(&self) -> (r: String)
        ensures
            r@ == note_type_name(*self),
    {
        let s = match self {
            NoteType::Text => "Text",
            NoteType::Code => "Code",
            NoteType::Render => "Render",
            NoteType::File => "File",
            NoteType::Image => "Image",
            NoteType::Search => "Search",
            NoteType::RelationMap => "RelationMap",
            NoteType::Book => "Book",
            NoteType::NoteMap => "NoteMap",
            NoteType::Mermaid => "Mermaid",
        };
        String::from_str(s)
    }
}

/// The variant name of a note type.
pub open spec fn note_type_name(t: NoteType) -> Seq<char> {
    match t {
        NoteType::Text => "Text"@,
        NoteType::Code => "Code"@,
        NoteType::Render => "Render"@,
        NoteType::File => "File"@,
        NoteType::Image => "Image"@,
        NoteType::Search => "Search"@,
        NoteType::RelationMap => "RelationMap"@,
        NoteType::Book => "Book"@,
        NoteType::NoteMap => "NoteMap"@,
        NoteType::Mermaid => "Mermaid"@,
    }
}

/// Reading back the token of any note type gives that type again.
pub proof fn lemma_note_type_token_round_trip(t: NoteType)
    ensures
        note_type_of_token(note_type_token(t)) == Some(t),
{
    reveal_strlit("text");
    reveal_strlit("code");
    reveal_strlit("render");
    reveal_strlit("file");
    reveal_strlit("image");
    reveal_strlit("search");
    reveal_strlit("relation-map");
    reveal_strlit("book");
    reveal_strlit("note-map");
    reveal_strlit("mermaid");
    let tok = note_type_token(t);
    assert(tok.len() != "text"@.len() || tok[0] != 't' || tok =~= "text"@);
    assert(tok.len() != "code"@.len() || tok[0] != 'c' || tok =~= "code"@);
    assert(tok.len() != "file"@.len() || tok[0] != 'f' || tok =~= "file"@);
    assert(tok.len() != "book"@.len() || tok[0] != 'b' || tok =~= "book"@);
    assert(tok.len() != "image"@.len() || tok =~= "image"@);
    assert(tok.len() != "render"@.len() || tok[0] != 'r' || tok =~= "render"@);
    assert(tok.len() != "search"@.len() || tok[0] != 's' || tok =~= "search"@);
}

/// A token is refused exactly when it is the token of no note type.
pub proof fn lemma_unknown_note_type_token(s: Seq<char>)
    ensures
        note_type_of_token(s).is_none() <==> forall|t: NoteType| note_type_token(t) != s,
{
    if note_type_of_token(s).is_none() {
        assert forall|t: NoteType| note_type_token(t) != s by {
            lemma_note_type_token_round_trip(t);
        }
    } else {
        let t = note_type_of_token(s).unwrap();
        assert(note_type_token(t) == s);
    }
}

/// A token that names a note type is that type's token.
pub proof fn lemma_token_of_note_type(s: Seq<char>, t: NoteType)
    requires
        note_type_of_token(s) == Some(t),
    ensures
        note_type_token(t) == s,
{
}

/// The kind of an attribute.
#[derive(Clone, Copy, Debug, PartialEq, Eq, Structural)]
pub enum AttributeType {
    Label,
    Relation,
}

/// The wire token of an attribute kind.
pub open spec fn attribute_type_token(t: AttributeType) -> Seq<char> {
    match t {
        AttributeType::Label => "label"@,
        AttributeType::Relation => "relation"@,
    }
}

/// The attribute kind that a wire token names, if it names one.
pub open spec fn attribute_type_of_token(s: Seq<char>) -> Option<AttributeType> {
    if s == "label"@ {
        Some(AttributeType::Label)
    } else if s == "relation"@ {
        Some(AttributeType::Relation)
    } else {
        None
    }
}

impl AttributeType {
    /// The token that stands for this kind in JSON.
    pub fn wire(&self) -> (r: &'static str)
        ensures
            r@ == attribute_type_token(*self),
    {
        match self {
            AttributeType::Label => "label",
            AttributeType::Relation => "relation",
        }
    }

    /// Reads a wire token; a token outside the table is refused.
    pub fn from_wire(s: &str) -> (r: Option<AttributeType>)
        ensures
            r == attribute_type_of_token(s@),
    {
        if same_text(s, "label") {
            Some(AttributeType::Label)
        } else if same_text(s, "relation") {
            Some(AttributeType::Relation)
        } else {
            None
        }
    }
}

/// Reading back the token of any attribute kind gives that kind again.
pub proof fn lemma_attribute_type_token_round_trip(t: AttributeType)
    ensures
        attribute_type_of_token(attribute_type_token(t)) == Some(t),
{
    reveal_strlit("label");
    reveal_strlit("relation");
    assert("label"@.len() != "relation"@.len());
}

/// A token that names an attribute kind is that kind's token.
pub proof fn lemma_token_of_kind(s: Seq<char>, k: AttributeType)
    requires
        attribute_type_of_token(s) == Some(k),
    ensures
        attribute_type_token(k) == s,
{
}

} // verus!
