//! The resource schemas: notes, attributes, branches, and the bodies of the
//! create, get, patch and search operations.
//!
//! A note arrives from the server in its wire shape, where the closed enums
//! are still plain tokens. `Note::from_wire` checks every token against its
//! table, so an unknown note type or attribute kind is refused rather than
//! mapped to a default.
use vstd::prelude::*;

use crate::search::text_opt;
use crate::types::{
    attribute_type_of_token,
    attribute_type_token,
    note_type_of_token,
    note_type_token,
    lemma_attribute_type_token_round_trip,
    lemma_token_of_kind,
    lemma_token_of_note_type,
    lemma_note_type_token_round_trip,
    lemma_unknown_note_type_token,
    AttributeType,
    NoteType,
};

verus! {

/// A typed key/value annotation of a note.
#[derive(Clone, Debug, PartialEq, Eq)]
pub struct Attribute {
    /// Absent until the server assigns it.
    pub attribute_id: Option<String>,
    pub note_id: String,
    /// Absent only on a creation payload, before the server classifies it.
    pub attribute_type: Option<AttributeType>,
    pub name: String,
    pub value: String,
    pub position: usize,
    pub is_inheritable: bool,
}

/// An attribute as it stands in JSON, its kind still a token.
#[derive(Clone, Debug, PartialEq, Eq)]
pub struct WireAttribute {
    pub attribute_id: Option<String>,
    pub note_id: String,
    pub attribute_type: Option<String>,
    pub name: String,
    pub value: String,
    pub position: usize,
    pub is_inheritable: bool,
}

/// A note, as the server describes it.
#[derive(Clone, Debug, PartialEq, Eq)]
pub struct Note {
    pub note_id: String,
    pub title: String,
    pub note_type: NoteType,
    pub mime: String,
    pub is_protected: bool,
    pub attributes: Vec<Attribute>,
    pub parent_note_ids: Vec<String>,
    pub child_note_ids: Vec<String>,
    pub parent_branch_ids: Vec<String>,
    pub child_branch_ids: Vec<String>,
    pub date_created: String,
    pub date_modified: String,
    pub utc_date_created: String,
    pub utc_date_modified: String,
}

/// A note as it stands in JSON, its type and attribute kinds still tokens.
#[derive(Clone, Debug, PartialEq, Eq)]
pub struct WireNote {
    pub note_id: String,
    pub title: String,
    pub note_type: String,
    pub mime: String,
    pub is_protected: bool,
    pub attributes: Vec<WireAttribute>,
    pub parent_note_ids: Vec<String>,
    pub child_note_ids: Vec<String>,
    pub parent_branch_ids: Vec<String>,
    pub child_branch_ids: Vec<String>,
    pub date_created: String,
    pub date_modified: String,
    pub utc_date_created: String,
    pub utc_date_modified: String,
}

/// The view of an optional attribute kind token.
pub open spec fn kind_token_opt(t: Option<AttributeType>) -> Option<Seq<char>> {
    match t {
        Some(k) => Some(attribute_type_token(k)),
        None => None,
    }
}

/// Every token of a wire attribute names a member of its table.
pub open spec fn wire_attribute_valid(w: WireAttribute) -> bool {
    match w.attribute_type {
        Some(t) => attribute_type_of_token(t@).is_some(),
        None => true,
    }
}

/// `a` is what `w` describes.
pub open spec fn attribute_matches_wire(a: Attribute, w: WireAttribute) -> bool {
    &&& text_opt(a.attribute_id) == text_opt(w.attribute_id)
    &&& a.note_id@ == w.note_id@
    &&& kind_token_opt(a.attribute_type) == text_opt(w.attribute_type)
    &&& a.name@ == w.name@
    &&& a.value@ == w.value@
    &&& a.position == w.position
    &&& a.is_inheritable == w.is_inheritable
}

/// Two attributes hold the same values.
pub open spec fn same_attribute(a: Attribute, b: Attribute) -> bool {
    &&& text_opt(a.attribute_id) == text_opt(b.attribute_id)
    &&& a.note_id@ == b.note_id@
    &&& a.attribute_type == b.attribute_type
    &&& a.name@ == b.name@
    &&& a.value@ == b.value@
    &&& a.position == b.position
    &&& a.is_inheritable == b.is_inheritable
}

/// Every token of a wire note names a member of its table.
pub open spec fn wire_note_valid(w: WireNote) -> bool {
    &&& note_type_of_token(w.note_type@).is_some()
    &&& forall|i: int| 0 <= i < w.attributes@.len() ==> wire_attribute_valid(#[trigger] w.attributes@[i])
}

/// `n` is what `w` describes.
pub open spec fn note_matches_wire(n: Note, w: WireNote) -> bool {
    &&& n.note_id@ == w.note_id@
    &&& n.title@ == w.title@
    &&& note_type_token(n.note_type) == w.note_type@
    &&& n.mime@ == w.mime@
    &&& n.is_protected == w.is_protected
    &&& n.attributes@.len() == w.attributes@.len()
    &&& forall|i: int| 0 <= i < n.attributes@.len() ==> attribute_matches_wire(#[trigger] n.attributes@[i], w.attributes@[i])
    &&& n.parent_note_ids@ == w.parent_note_ids@
    &&& n.child_note_ids@ == w.child_note_ids@
    &&& n.parent_branch_ids@ == w.parent_branch_ids@
    &&& n.child_branch_ids@ == w.child_branch_ids@
    &&& n.date_created@ == w.date_created@
    &&& n.date_modified@ == w.date_modified@
    &&& n.utc_date_created@ == w.utc_date_created@
    &&& n.utc_date_modified@ == w.utc_date_modified@
}

/// Two notes hold the same values in every field.
pub open spec fn same_note(a: Note, b: Note) -> bool {
    &&& a.note_id@ == b.note_id@
    &&& a.title@ == b.title@
    &&& a.note_type == b.note_type
    &&& a.mime@ == b.mime@
    &&& a.is_protected == b.is_protected
    &&& a.attributes@.len() == b.attributes@.len()
    &&& forall|i: int| 0 <= i < a.attributes@.len() ==> same_attribute(#[trigger] a.attributes@[i], b.attributes@[i])
    &&& a.parent_note_ids@ == b.parent_note_ids@
    &&& a.child_note_ids@ == b.child_note_ids@
    &&& a.parent_branch_ids@ == b.parent_branch_ids@
    &&& a.child_branch_ids@ == b.child_branch_ids@
    &&& a.date_created@ == b.date_created@
    &&& a.date_modified@ == b.date_modified@
    &&& a.utc_date_created@ == b.utc_date_created@
    &&& a.utc_date_modified@ == b.utc_date_modified@
}

fn clone_text_opt(v: &Option<String>) -> (r: Option<String>)
    ensures
        text_opt(r) == text_opt(*v),
{
    match v {
        Some(s) => Some(s.clone()),
        None => None,
    }
}

fn clone_texts(v: &Vec<String>) -> (r: Vec<String>)
    ensures
        r@ == v@,
{
    let mut r: Vec<String> = Vec::new();
    let mut i: usize = 0;
    while i < v.len()
        invariant
            i <= v@.len(),
            r@ == v@.subrange(0, i as int),
        decreases v@.len() - i,
    {
        r.push(v[i].clone());
        i = i + 1;
        assert(r@ =~= v@.subrange(0, i as int));
    }
    assert(v@.subrange(0, v@.len() as int) =~= v@);
    r
}

impl Attribute {
    /// The wire shape of this attribute.
    pub fn to_wire(&self) -> (r: WireAttribute)
        ensures
            attribute_matches_wire(*self, r),
    {
        let kind = match self.attribute_type {
            Some(k) => Some(String::from_str(k.wire())),
            None => None,
        };
        WireAttribute {
            attribute_id: clone_text_opt(&self.attribute_id),
            note_id: self.note_id.clone(),
            attribute_type: kind,
            name: self.name.clone(),
            value: self.value.clone(),
            position: self.position,
            is_inheritable: self.is_inheritable,
        }
    }

    /// Reads a wire attribute; `None` when its kind token is unknown.
    pub fn from_wire(w: &WireAttribute) -> (r: Option<Attribute>)
        ensures
            r.is_some() <==> wire_attribute_valid(*w),
            r matches Some(a) ==> attribute_matches_wire(a, *w),
    {
        let kind = match &w.attribute_type {
            Some(t) => match AttributeType::from_wire(t.as_str()) {
                Some(k) => Some(k),
                None => {
                    return None;
                },
            },
            None => None,
        };
        proof {
            if let Some(k) = kind {
                lemma_attribute_type_token_round_trip(k);
                lemma_token_of_kind(w.attribute_type.unwrap()@, k);
            }
        }
        Some(
            Attribute {
                attribute_id: clone_text_opt(&w.attribute_id),
                note_id: w.note_id.clone(),
                attribute_type: kind,
                name: w.name.clone(),
                value: w.value.clone(),
                position: w.position,
                is_inheritable: w.is_inheritable,
            },
        )
    }
}

impl Note {
    /// The wire shape of this note.
    pub fn to_wire(&self) -> (r: WireNote)
        ensures
            note_matches_wire(*self, r),
    {
        let mut attributes: Vec<WireAttribute> = Vec::new();
        let mut i: usize = 0;
        while i < self.attributes.len()
            invariant
                i <= self.attributes@.len(),
                attributes@.len() == i,
                forall|j: int| 0 <= j < i ==> attribute_matches_wire(#[trigger] self.attributes@[j], attributes@[j]),
            decreases self.attributes@.len() - i,
        {
            attributes.push(self.attributes[i].to_wire());
            i = i + 1;
        }
        WireNote {
            note_id: self.note_id.clone(),
            title: self.title.clone(),
            note_type: String::from_str(self.note_type.wire()),
            mime: self.mime.clone(),
            is_protected: self.is_protected,
            attributes,
            parent_note_ids: clone_texts(&self.parent_note_ids),
            child_note_ids: clone_texts(&self.child_note_ids),
            parent_branch_ids: clone_texts(&self.parent_branch_ids),
            child_branch_ids: clone_texts(&self.child_branch_ids),
            date_created: self.date_created.clone(),
            date_modified: self.date_modified.clone(),
            utc_date_created: self.utc_date_created.clone(),
            utc_date_modified: self.utc_date_modified.clone(),
        }
    }

    /// Reads a wire note; `None` when its type token, or the kind token of
    /// one of its attributes, is unknown.
    pub fn from_wire(w: &WireNote) -> (r: Option<Note>)
        ensures
            r.is_some() <==> wire_note_valid(*w),
            r matches Some(n) ==> note_matches_wire(n, *w),
    {
        let note_type = match NoteType::from_wire(w.note_type.as_str()) {
            Some(t) => t,
            None => {
                return None;
            },
        };
        proof {
            lemma_token_of_note_type(w.note_type@, note_type);
        }
        let mut attributes: Vec<Attribute> = Vec::new();
        let mut i: usize = 0;
        while i < w.attributes.len()
            invariant
                i <= w.attributes@.len(),
                attributes@.len() == i,
                forall|j: int| 0 <= j < i ==> wire_attribute_valid(#[trigger] w.attributes@[j]),
                forall|j: int| 0 <= j < i ==> attribute_matches_wire(#[trigger] attributes@[j], w.attributes@[j]),
            decreases w.attributes@.len() - i,
        {
            match Attribute::from_wire(&w.attributes[i]) {
                Some(a) => {
                    attributes.push(a);
                },
                None => {
                    return None;
                },
            }
            i = i + 1;
        }
        Some(
            Note {
                note_id: w.note_id.clone(),
                title: w.title.clone(),
                note_type,
                mime: w.mime.clone(),
                is_protected: w.is_protected,
                attributes,
                parent_note_ids: clone_texts(&w.parent_note_ids),
                child_note_ids: clone_texts(&w.child_note_ids),
                parent_branch_ids: clone_texts(&w.parent_branch_ids),
                child_branch_ids: clone_texts(&w.child_branch_ids),
                date_created: w.date_created.clone(),
                date_modified: w.date_modified.clone(),
                utc_date_created: w.utc_date_created.clone(),
                utc_date_modified: w.utc_date_modified.clone(),
            },
        )
    }
}

/// Round trip of the schema mapping: the wire shape of a note is always
/// accepted, and every note read back from it equals the first note in all
/// fields, whatever its type.
pub proof fn lemma_note_wire_round_trip(n: Note, w: WireNote, m: Note)
    requires
        note_matches_wire(n, w),
        note_matches_wire(m, w),
    ensures
        wire_note_valid(w),
        same_note(n, m),
{
    lemma_note_type_token_round_trip(n.note_type);
    lemma_note_type_token_round_trip(m.note_type);
    assert forall|i: int| 0 <= i < w.attributes@.len() implies wire_attribute_valid(
        #[trigger] w.attributes@[i],
    ) by {
        lemma_attribute_wire_round_trip(n.attributes@[i], w.attributes@[i], m.attributes@[i]);
    }
    assert forall|i: int| 0 <= i < n.attributes@.len() implies same_attribute(
        #[trigger] n.attributes@[i],
        m.attributes@[i],
    ) by {
        lemma_attribute_wire_round_trip(n.attributes@[i], w.attributes@[i], m.attributes@[i]);
    }
}

/// A wire note whose type token names no note type is refused.
pub proof fn lemma_unknown_type_refused(w: WireNote)
    requires
        forall|t: NoteType| note_type_token(t) != w.note_type@,
    ensures
        !wire_note_valid(w),
{
    lemma_unknown_note_type_token(w.note_type@);
}

/// Round trip of the attribute mapping.
pub proof fn lemma_attribute_wire_round_trip(a: Attribute, w: WireAttribute, b: Attribute)
    requires
        attribute_matches_wire(a, w),
        attribute_matches_wire(b, w),
    ensures
        wire_attribute_valid(w),
        same_attribute(a, b),
{
    if let Some(k) = a.attribute_type {
        lemma_attribute_type_token_round_trip(k);
    }
    if let Some(k) = b.attribute_type {
        lemma_attribute_type_token_round_trip(k);
    }
}

/// The placement of a note under one parent at one position.
#[derive(Clone, Debug, PartialEq, Eq)]
pub struct Branch {
    pub branch_id: String,
    pub note_id: String,
    pub parent_note_id: String,
    pub prefix: String,
    pub note_position: usize,
    pub is_expanded: bool,
}

/// The payload of a note creation.
#[derive(Clone, Debug, PartialEq, Eq)]
pub struct CreateNoteDef {
    pub parent_note_id: String,
    pub title: String,
    pub note_type: NoteType,
    pub mime: Option<String>,
    pub content: String,
    pub position: Option<usize>,
    pub prefix: Option<String>,
    pub is_expanded: bool,
    pub note_id: String,
}

/// The answer to a note creation: the note and the branch that places it.
#[derive(Clone, Debug, PartialEq, Eq)]
pub struct CreateNoteResponse {
    pub note: Note,
    pub branch: Branch,
}

/// The answer to a note creation in its wire shape.
#[derive(Clone, Debug, PartialEq, Eq)]
pub struct WireCreateNoteResponse {
    pub note: WireNote,
    pub branch: Branch,
}

/// Debug details that the server may add to a search answer; this client
/// carries them through without reading them.
#[derive(Clone, Copy, Debug, PartialEq, Eq)]
pub struct DebugInfo {}

/// The answer to a search: the notes in the order the server chose.
#[derive(Clone, Debug, PartialEq, Eq)]
pub struct SearchResponse {
    pub results: Vec<Note>,
    pub debug_info: Option<DebugInfo>,
}

/// The answer to a search in its wire shape.
#[derive(Clone, Debug, PartialEq, Eq)]
pub struct WireSearchResponse {
    pub results: Vec<WireNote>,
    pub debug_info: Option<DebugInfo>,
}

/// The answer to a login.
#[derive(Clone, Debug, PartialEq, Eq)]
pub struct LoginSchema {
    pub auth_token: String,
}

/// The note paired with a created branch.
pub type NoteResponse = CreateNoteResponse;

/// A note as returned by a lookup.
pub type NoteResult = Note;

/// A note as the server sends it.
pub type NoteFromServer = Note;

/// The answer to a search.
pub type SearchResults = SearchResponse;

/// One note of a search answer.
pub type SearchResult = Note;

/// Every note of a wire search answer is valid.
pub open spec fn wire_search_valid(w: WireSearchResponse) -> bool {
    forall|i: int| 0 <= i < w.results@.len() ==> wire_note_valid(#[trigger] w.results@[i])
}

/// `r` is what `w` describes, in the same order.
pub open spec fn search_matches_wire(r: SearchResponse, w: WireSearchResponse) -> bool {
    &&& r.debug_info == w.debug_info
    &&& r.results@.len() == w.results@.len()
    &&& forall|i: int| 0 <= i < r.results@.len() ==> note_matches_wire(#[trigger] r.results@[i], w.results@[i])
}

impl CreateNoteResponse {
    /// Reads a wire creation answer; `None` when a token of its note is unknown.
    pub fn from_wire(w: WireCreateNoteResponse) -> (r: Option<CreateNoteResponse>)
        ensures
            r.is_some() <==> wire_note_valid(w.note),
            r matches Some(c) ==> note_matches_wire(c.note, w.note) && c.branch == w.branch,
    {
        match Note::from_wire(&w.note) {
            Some(note) => Some(CreateNoteResponse { note, branch: w.branch }),
            None => None,
        }
    }
}

impl SearchResponse {
    /// Reads a wire search answer, keeping the server's order; `None` when a
    /// token of one of its notes is unknown.
    pub fn from_wire(w: &WireSearchResponse) -> (r: Option<SearchResponse>)
        ensures
            r.is_some() <==> wire_search_valid(*w),
            r matches Some(s) ==> search_matches_wire(s, *w),
    {
        let mut results: Vec<Note> = Vec::new();
        let mut i: usize = 0;
        while i < w.results.len()
            invariant
                i <= w.results@.len(),
                results@.len() == i,
                forall|j: int| 0 <= j < i ==> wire_note_valid(#[trigger] w.results@[j]),
                forall|j: int| 0 <= j < i ==> note_matches_wire(#[trigger] results@[j], w.results@[j]),
            decreases w.results@.len() - i,
        {
            match Note::from_wire(&w.results[i]) {
                Some(n) => {
                    results.push(n);
                },
                None => {
                    return None;
                },
            }
            i = i + 1;
        }
        Some(SearchResponse { results, debug_info: w.debug_info })
    }
}

} // verus!
