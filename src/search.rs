//! Search specifications and their query-string encoding.
use vstd::prelude::*;

use crate::text::{decimal, decimal_string};

verus! {

/// The direction in which the server orders search results.
#[derive(Clone, Copy, Debug, PartialEq, Eq, Structural)]
pub enum OrderDirection {
    Ascending,
    Descending,
}

/// A bound on the depth below the ancestor note.
#[derive(Clone, Copy, Debug, PartialEq, Eq, Structural)]
pub enum DepthOptions {
    LessThan(usize),
    Exactly(usize),
    GreaterThan(usize),
}

/// What to search for, and how.
#[derive(Clone, Debug, PartialEq, Eq)]
pub struct SearchOptions {
    /// The query text, the only field the server requires.
    pub search: String,
    /// Skip the scan of note content.
    pub fast_search: bool,
    /// Include archived notes.
    pub include_archived_notes: bool,
    /// Search only in the subtree of this note.
    pub ancestor_note_id: Option<String>,
    /// Bound on the depth within that subtree.
    pub ancestor_depth: Option<DepthOptions>,
    /// Field to order by, such as `title` or `dateModified`.
    pub order_by: Option<String>,
    /// Direction of the ordering.
    pub order_direction: Option<OrderDirection>,
    /// Largest number of results.
    pub limit: Option<usize>,
    /// Ask the server for debug information.
    pub debug: bool,
}

impl SearchOptions {
    /// A search for `search_query` with every flag off and no option set.
    pub fn default(search_query: String) -> (r: SearchOptions)
        ensures
            r.search == search_query,
            !r.fast_search,
            !r.include_archived_notes,
            r.ancestor_note_id.is_none(),
            r.ancestor_depth.is_none(),
            r.order_by.is_none(),
            r.order_direction.is_none(),
            r.limit.is_none(),
            !r.debug,
    {
        SearchOptions {
            search: search_query,
            fast_search: false,
            include_archived_notes: false,
            ancestor_note_id: None,
            ancestor_depth: None,
            order_by: None,
            order_direction: None,
            limit: None,
            debug: false,
        }
    }
}

/// The wire token of an order direction; descending is `dec`.
pub open spec fn direction_token(d: OrderDirection) -> Seq<char> {
    match d {
        OrderDirection::Ascending => "asc"@,
        OrderDirection::Descending => "dec"@,
    }
}

/// The wire form of a depth bound: an operator followed by the bound.
pub open spec fn depth_token(d: DepthOptions) -> Seq<char> {
    match d {
        DepthOptions::LessThan(n) => "lt"@ + decimal(n as nat),
        DepthOptions::Exactly(n) => "eq"@ + decimal(n as nat),
        DepthOptions::GreaterThan(n) => "gt"@ + decimal(n as nat),
    }
}

/// `&key=true` when the flag is set, nothing otherwise.
pub open spec fn flag_segment(key: Seq<char>, on: bool) -> Seq<char> {
    if on {
        "&"@ + key + "=true"@
    } else {
        Seq::empty()
    }
}

/// `&key=value` when the value is present, nothing otherwise.
pub open spec fn option_segment(key: Seq<char>, value: Option<Seq<char>>) -> Seq<char> {
    match value {
        Some(v) => "&"@ + key + "="@ + v,
        None => Seq::empty(),
    }
}

/// The search text in quotes.
pub open spec fn search_segment(o: SearchOptions) -> Seq<char> {
    "search=\""@ + o.search@ + "\""@
}

/// The view of an optional text.
pub open spec fn text_opt(v: Option<String>) -> Option<Seq<char>> {
    match v {
        Some(s) => Some(s@),
        None => None,
    }
}

/// The view of an optional borrowed text.
pub open spec fn str_opt(v: Option<&str>) -> Option<Seq<char>> {
    match v {
        Some(s) => Some(s@),
        None => None,
    }
}

/// The query string of a search: the search text first, then each further
/// field in a fixed order, each present only when set.
pub open spec fn search_query(o: SearchOptions) -> Seq<char> {
    search_segment(o)
        + flag_segment("fastSearch"@, o.fast_search)
        + flag_segment("includeArchivedNotes"@, o.include_archived_notes)
        + option_segment("ancestorNoteId"@, text_opt(o.ancestor_note_id))
        + option_segment("ancestorDepth"@, match o.ancestor_depth {
            Some(d) => Some(depth_token(d)),
            None => None,
        })
        + option_segment("orderBy"@, text_opt(o.order_by))
        + option_segment("orderDirection"@, match o.order_direction {
            Some(d) => Some(direction_token(d)),
            None => None,
        })
        + option_segment("limit"@, match o.limit {
            Some(n) => Some(decimal(n as nat)),
            None => None,
        })
        + flag_segment("debug"@, o.debug)
}

/// Every query string starts with the quoted search text; a flag that is off
/// or an option that is absent adds nothing, so a search with nothing set is
/// the search segment alone; a flag that is on is written as `=true`, never as
/// an explicit `false`.
pub proof fn lemma_query_layout(o: SearchOptions)
    ensures
        search_query(o).subrange(0, search_segment(o).len() as int) == search_segment(o),
        forall|key: Seq<char>| #[trigger] flag_segment(key, false) == Seq::<char>::empty(),
        forall|key: Seq<char>| #[trigger] flag_segment(key, true) == "&"@ + key + "=true"@,
        forall|key: Seq<char>| #[trigger] option_segment(key, None) == Seq::<char>::empty(),
        !o.fast_search && !o.include_archived_notes && o.ancestor_note_id is None
            && o.ancestor_depth is None && o.order_by is None && o.order_direction is None
            && o.limit is None && !o.debug ==> search_query(o) == search_segment(o),
{
    let q = search_query(o);
    let head = search_segment(o);
    assert(q =~= head + q.subrange(head.len() as int, q.len() as int));
    assert(q.subrange(0, head.len() as int) =~= head);
    if !o.fast_search && !o.include_archived_notes && o.ancestor_note_id is None
        && o.ancestor_depth is None && o.order_by is None && o.order_direction is None
        && o.limit is None && !o.debug {
        assert(q =~= head);
    }
}

fn direction_str(d: OrderDirection) -> (r: &'static str)
    ensures
        r@ == direction_token(d),
{
    match d {
        OrderDirection::Ascending => "asc",
        OrderDirection::Descending => "dec",
    }
}

fn depth_string(d: DepthOptions) -> (r: String)
    ensures
        r@ == depth_token(d),
{
    let (op, n) = match d {
        DepthOptions::LessThan(n) => ("lt", n),
        DepthOptions::Exactly(n) => ("eq", n),
        DepthOptions::GreaterThan(n) => ("gt", n),
    };
    let digits = decimal_string(n);
    String::from_str(op).concat(digits.as_str())
}

fn push_flag(q: &mut String, key: &str, on: bool)
    ensures
        final(q)@ == old(q)@ + flag_segment(key@, on),
{
    if on {
        q.append("&");
        q.append(key);
        q.append("=true");
    }
    assert(final(q)@ =~= old(q)@ + flag_segment(key@, on));
}

fn push_option(q: &mut String, key: &str, value: Option<&str>)
    ensures
        final(q)@ == old(q)@ + option_segment(key@, str_opt(value)),
{
    match value {
        Some(v) => {
            q.append("&");
            q.append(key);
            q.append("=");
            q.append(v);
        },
        None => {},
    }
    assert(final(q)@ =~= old(q)@ + option_segment(key@, str_opt(value)));
}

/// Encodes a search as the query string of `GET /etapi/notes`.
///
/// The fields come in a fixed order; a flag that is off and an option that is
/// absent leave no trace, never an explicit `false` or `null`.
pub fn encode_search_query(o: &SearchOptions) -> (r: String)
    ensures
        r@ == search_query(*o),
{
    let mut q = String::from_str("search=\"");
    q.append(o.search.as_str());
    q.append("\"");
    push_flag(&mut q, "fastSearch", o.fast_search);
    push_flag(&mut q, "includeArchivedNotes", o.include_archived_notes);
    let ancestor = match &o.ancestor_note_id {
        Some(id) => Some(id.as_str()),
        None => None,
    };
    push_option(&mut q, "ancestorNoteId", ancestor);
    let depth = match o.ancestor_depth {
        Some(d) => Some(depth_string(d)),
        None => None,
    };
    let depth_ref = match &depth {
        Some(s) => Some(s.as_str()),
        None => None,
    };
    push_option(&mut q, "ancestorDepth", depth_ref);
    let order_by = match &o.order_by {
        Some(f) => Some(f.as_str()),
        None => None,
    };
    push_option(&mut q, "orderBy", order_by);
    let direction = match o.order_direction {
        Some(d) => Some(direction_str(d)),
        None => None,
    };
    push_option(&mut q, "orderDirection", direction);
    let limit = match o.limit {
        Some(n) => Some(decimal_string(n)),
        None => None,
    };
    let limit_ref = match &limit {
        Some(s) => Some(s.as_str()),
        None => None,
    };
    push_option(&mut q, "limit", limit_ref);
    push_flag(&mut q, "debug", o.debug);
    q
}

} // verus!
