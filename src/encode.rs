//! The JSON bodies of the create, patch and login requests.
use vstd::prelude::*;

use crate::json::{
    bool_field,
    field,
    join_json,
    json_bool,
    json_field,
    json_object,
    json_array,
    json_opt_field,
    json_text_array,
    json_text_field,
    number_field,
    text_array,
    text_field,
    views,
};
use crate::schemas::{Attribute, CreateNoteDef, Note};
use crate::search::{direction_token, text_opt, DepthOptions, OrderDirection, SearchOptions};
use crate::text::{decimal, decimal_string, json_quote, json_quoted};
use crate::types::{attribute_type_token, note_type_token};

verus! {

/// The JSON string of an optional text, when present.
pub open spec fn quoted_opt(v: Option<Seq<char>>) -> Option<Seq<char>> {
    match v {
        Some(s) => Some(json_quoted(s)),
        None => None,
    }
}

/// The fields of an attribute in wire order: `attributeId`, `noteId`,
/// `type`, `name`, `value`, `position`, `isInheritable`.
pub open spec fn attribute_fields(a: Attribute) -> Seq<Seq<char>> {
    json_opt_field("attributeId"@, quoted_opt(text_opt(a.attribute_id)))
        + seq![json_text_field("noteId"@, a.note_id@)]
        + json_opt_field("type"@, match a.attribute_type {
            Some(k) => Some(json_quoted(attribute_type_token(k))),
            None => None,
        })
        + seq![
            json_text_field("name"@, a.name@),
            json_text_field("value"@, a.value@),
            json_field("position"@, decimal(a.position as nat)),
            json_field("isInheritable"@, json_bool(a.is_inheritable)),
        ]
}

/// The JSON object of an attribute.
pub open spec fn attribute_json(a: Attribute) -> Seq<char> {
    json_object(attribute_fields(a))
}

/// The fields of a note in wire order.
pub open spec fn note_fields(n: Note) -> Seq<Seq<char>> {
    seq![
        json_text_field("noteId"@, n.note_id@),
        json_text_field("title"@, n.title@),
        json_text_field("type"@, note_type_token(n.note_type)),
        json_text_field("mime"@, n.mime@),
        json_field("isProtected"@, json_bool(n.is_protected)),
        json_field("attributes"@, json_array(n.attributes@.map_values(|a: Attribute| attribute_json(a)))),
        json_field("parentNoteIds"@, json_text_array(n.parent_note_ids@)),
        json_field("childNoteIds"@, json_text_array(n.child_note_ids@)),
        json_field("parentBranchIds"@, json_text_array(n.parent_branch_ids@)),
        json_field("childBranchIds"@, json_text_array(n.child_branch_ids@)),
        json_text_field("dateCreated"@, n.date_created@),
        json_text_field("dateModified"@, n.date_modified@),
        json_text_field("utcDateCreated"@, n.utc_date_created@),
        json_text_field("utcDateModified"@, n.utc_date_modified@),
    ]
}

/// The JSON object of a note.
pub open spec fn note_json(n: Note) -> Seq<char> {
    json_object(note_fields(n))
}

/// The fields of a creation payload in wire order: `parentNoteId`, `title`,
/// `type`, `mime`, `content`, `notePosition`, `prefix`, `isExpanded`,
/// `noteId`; the optional ones only when present.
pub open spec fn create_note_fields(c: CreateNoteDef) -> Seq<Seq<char>> {
    seq![
        json_text_field("parentNoteId"@, c.parent_note_id@),
        json_text_field("title"@, c.title@),
        json_text_field("type"@, note_type_token(c.note_type)),
    ] + json_opt_field("mime"@, quoted_opt(text_opt(c.mime)))
        + seq![json_text_field("content"@, c.content@)]
        + json_opt_field("notePosition"@, match c.position {
            Some(p) => Some(decimal(p as nat)),
            None => None,
        })
        + json_opt_field("prefix"@, quoted_opt(text_opt(c.prefix)))
        + seq![
            json_field("isExpanded"@, json_bool(c.is_expanded)),
            json_text_field("noteId"@, c.note_id@),
        ]
}

/// The JSON object of a creation payload.
pub open spec fn create_note_json(c: CreateNoteDef) -> Seq<char> {
    json_object(create_note_fields(c))
}

/// The JSON form of a depth bound: `{"LessThan":[n]}`, `{"Exactly":[n]}` or
/// `{"GreaterThan":[n]}`.
pub open spec fn depth_json(d: DepthOptions) -> Seq<char> {
    match d {
        DepthOptions::LessThan(n) => "{\"LessThan\":["@ + decimal(n as nat) + "]}"@,
        DepthOptions::Exactly(n) => "{\"Exactly\":["@ + decimal(n as nat) + "]}"@,
        DepthOptions::GreaterThan(n) => "{\"GreaterThan\":["@ + decimal(n as nat) + "]}"@,
    }
}

/// A boolean field written only when the flag is on.
pub open spec fn json_flag(key: Seq<char>, on: bool) -> Seq<Seq<char>> {
    if on {
        seq![json_field(key, "true"@)]
    } else {
        Seq::empty()
    }
}

/// The fields of a search body, in the same order as the query string: a
/// flag that is off and an option that is absent are left out.
pub open spec fn search_options_fields(o: SearchOptions) -> Seq<Seq<char>> {
    seq![json_text_field("search"@, o.search@)]
        + json_flag("fastSearch"@, o.fast_search)
        + json_flag("includeArchivedNotes"@, o.include_archived_notes)
        + json_opt_field("ancestorNoteId"@, quoted_opt(text_opt(o.ancestor_note_id)))
        + json_opt_field("ancestorDepth"@, match o.ancestor_depth {
            Some(d) => Some(depth_json(d)),
            None => None,
        })
        + json_opt_field("orderBy"@, quoted_opt(text_opt(o.order_by)))
        + json_opt_field("orderDirection"@, match o.order_direction {
            Some(d) => Some(json_quoted(direction_token(d))),
            None => None,
        })
        + json_opt_field("limit"@, match o.limit {
            Some(n) => Some(decimal(n as nat)),
            None => None,
        })
        + json_flag("debug"@, o.debug)
}

/// The JSON body of a search, for the endpoint that takes one.
pub open spec fn search_options_json(o: SearchOptions) -> Seq<char> {
    json_object(search_options_fields(o))
}

fn depth_to_json(d: DepthOptions) -> (r: String)
    ensures
        r@ == depth_json(d),
{
    let (open, n) = match d {
        DepthOptions::LessThan(n) => ("{\"LessThan\":[", n),
        DepthOptions::Exactly(n) => ("{\"Exactly\":[", n),
        DepthOptions::GreaterThan(n) => ("{\"GreaterThan\":[", n),
    };
    let digits = decimal_string(n);
    String::from_str(open).concat(digits.as_str()).concat("]}")
}

fn push_flag_field(parts: &mut Vec<String>, key: &str, on: bool)
    ensures
        views(final(parts)@) == views(old(parts)@) + json_flag(key@, on),
{
    let ghost prev = parts@;
    if on {
        let f = field(key, "true");
        parts.push(f);
        proof {
            assert(parts@ =~= prev.push(f));
        }
    }
    assert(views(parts@) =~= views(prev) + json_flag(key@, on));
}

fn push_opt_field(parts: &mut Vec<String>, key: &str, value: Option<String>)
    ensures
        views(final(parts)@) == views(old(parts)@) + json_opt_field(key@, text_opt(value)),
{
    let ghost prev = parts@;
    if let Some(v) = value {
        let f = field(key, v.as_str());
        parts.push(f);
        proof {
            assert(parts@ =~= prev.push(f));
        }
    }
    assert(views(parts@) =~= views(prev) + json_opt_field(key@, text_opt(value)));
}

fn quote_opt(v: &Option<String>) -> (r: Option<String>)
    ensures
        text_opt(r) == quoted_opt(text_opt(*v)),
{
    match v {
        Some(s) => Some(json_quote(s.as_str())),
        None => None,
    }
}

impl SearchOptions {
    /// The JSON body of this search.
    pub fn to_json(&self) -> (r: String)
        ensures
            r@ == search_options_json(*self),
    {
        let mut parts: Vec<String> = Vec::new();
        parts.push(text_field("search", self.search.as_str()));
        assert(views(parts@) =~= seq![json_text_field("search"@, self.search@)]);
        push_flag_field(&mut parts, "fastSearch", self.fast_search);
        push_flag_field(&mut parts, "includeArchivedNotes", self.include_archived_notes);
        push_opt_field(&mut parts, "ancestorNoteId", quote_opt(&self.ancestor_note_id));
        let depth = match self.ancestor_depth {
            Some(d) => Some(depth_to_json(d)),
            None => None,
        };
        assert(text_opt(depth) == match self.ancestor_depth {
            Some(d) => Some(depth_json(d)),
            None => None,
        });
        push_opt_field(&mut parts, "ancestorDepth", depth);
        push_opt_field(&mut parts, "orderBy", quote_opt(&self.order_by));
        let direction = match self.order_direction {
            Some(d) => Some(
                json_quote(
                    match d {
                        OrderDirection::Ascending => "asc",
                        OrderDirection::Descending => "dec",
                    },
                ),
            ),
            None => None,
        };
        assert(text_opt(direction) == match self.order_direction {
            Some(d) => Some(json_quoted(direction_token(d))),
            None => None,
        });
        push_opt_field(&mut parts, "orderDirection", direction);
        let limit = match self.limit {
            Some(n) => Some(decimal_string(n)),
            None => None,
        };
        assert(text_opt(limit) == match self.limit {
            Some(n) => Some(decimal(n as nat)),
            None => None,
        });
        push_opt_field(&mut parts, "limit", limit);
        push_flag_field(&mut parts, "debug", self.debug);
        join_json(&parts, "{", "}")
    }
}

/// The body of a login request.
pub open spec fn login_json(password: Seq<char>) -> Seq<char> {
    json_object(seq![json_text_field("password"@, password)])
}

impl Attribute {
    /// The JSON object of this attribute.
    pub fn to_json(&self) -> (r: String)
        ensures
            r@ == attribute_json(*self),
    {
        let mut parts: Vec<String> = Vec::new();
        if let Some(id) = &self.attribute_id {
            parts.push(text_field("attributeId", id.as_str()));
        }
        parts.push(text_field("noteId", self.note_id.as_str()));
        if let Some(k) = self.attribute_type {
            let q = json_quote(k.wire());
            parts.push(field("type", q.as_str()));
        }
        parts.push(text_field("name", self.name.as_str()));
        parts.push(text_field("value", self.value.as_str()));
        parts.push(number_field("position", self.position));
        parts.push(bool_field("isInheritable", self.is_inheritable));
        assert(views(parts@) =~= attribute_fields(*self));
        join_json(&parts, "{", "}")
    }
}

impl Note {
    /// The JSON object of this note, as the patch request sends it.
    pub fn to_json(&self) -> (r: String)
        ensures
            r@ == note_json(*self),
    {
        let mut items: Vec<String> = Vec::new();
        let mut i: usize = 0;
        while i < self.attributes.len()
            invariant
                i <= self.attributes@.len(),
                views(items@) =~= self.attributes@.take(i as int).map_values(|a: Attribute| attribute_json(a)),
            decreases self.attributes@.len() - i,
        {
            let ghost prev = items@;
            let a = self.attributes[i].to_json();
            items.push(a);
            proof {
                assert(items@ =~= prev.push(a));
                assert(views(items@) =~= views(prev).push(a@));
                assert(self.attributes@.take(i as int + 1) =~= self.attributes@.take(i as int).push(
                    self.attributes@[i as int],
                ));
            }
            i = i + 1;
        }
        assert(self.attributes@.take(self.attributes@.len() as int) =~= self.attributes@);
        let attributes = join_json(&items, "[", "]");
        let mut parts: Vec<String> = Vec::new();
        parts.push(text_field("noteId", self.note_id.as_str()));
        parts.push(text_field("title", self.title.as_str()));
        parts.push(text_field("type", self.note_type.wire()));
        parts.push(text_field("mime", self.mime.as_str()));
        parts.push(bool_field("isProtected", self.is_protected));
        parts.push(field("attributes", attributes.as_str()));
        let a = text_array(&self.parent_note_ids);
        parts.push(field("parentNoteIds", a.as_str()));
        let a = text_array(&self.child_note_ids);
        parts.push(field("childNoteIds", a.as_str()));
        let a = text_array(&self.parent_branch_ids);
        parts.push(field("parentBranchIds", a.as_str()));
        let a = text_array(&self.child_branch_ids);
        parts.push(field("childBranchIds", a.as_str()));
        parts.push(text_field("dateCreated", self.date_created.as_str()));
        parts.push(text_field("dateModified", self.date_modified.as_str()));
        parts.push(text_field("utcDateCreated", self.utc_date_created.as_str()));
        parts.push(text_field("utcDateModified", self.utc_date_modified.as_str()));
        assert(views(parts@) =~= note_fields(*self));
        join_json(&parts, "{", "}")
    }
}

impl CreateNoteDef {
    /// The JSON object of this payload, as the create request sends it.
    pub fn to_json(&self) -> (r: String)
        ensures
            r@ == create_note_json(*self),
    {
        let mut parts: Vec<String> = Vec::new();
        parts.push(text_field("parentNoteId", self.parent_note_id.as_str()));
        parts.push(text_field("title", self.title.as_str()));
        parts.push(text_field("type", self.note_type.wire()));
        if let Some(m) = &self.mime {
            parts.push(text_field("mime", m.as_str()));
        }
        parts.push(text_field("content", self.content.as_str()));
        if let Some(p) = self.position {
            parts.push(number_field("notePosition", p));
        }
        if let Some(p) = &self.prefix {
            parts.push(text_field("prefix", p.as_str()));
        }
        parts.push(bool_field("isExpanded", self.is_expanded));
        parts.push(text_field("noteId", self.note_id.as_str()));
        assert(views(parts@) =~= create_note_fields(*self));
        join_json(&parts, "{", "}")
    }
}

/// The body of a login request: `{"password":...}`.
pub fn login_body(password: &str) -> (r: String)
    ensures
        r@ == login_json(password@),
{
    let mut parts: Vec<String> = Vec::new();
    parts.push(text_field("password", password));
    assert(views(parts@) =~= seq![json_text_field("password"@, password@)]);
    join_json(&parts, "{", "}")
}

} // verus!
