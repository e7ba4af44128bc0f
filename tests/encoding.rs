use trilium::encode::login_body;
use trilium::{
    encode_search_query, Attribute, AttributeType, CreateNoteDef, DepthOptions, Note, NoteType,
    OrderDirection, SearchOptions,
};

const ALL_TYPES: [NoteType; 10] = [
    NoteType::Text,
    NoteType::Code,
    NoteType::Render,
    NoteType::File,
    NoteType::Image,
    NoteType::Search,
    NoteType::RelationMap,
    NoteType::Book,
    NoteType::NoteMap,
    NoteType::Mermaid,
];

fn sample_note(note_type: NoteType) -> Note {
    Note {
        note_id: "abc".to_string(),
        title: "Shopping \"list\"".to_string(),
        note_type,
        mime: "text/html".to_string(),
        is_protected: false,
        attributes: vec![Attribute {
            attribute_id: Some("a1".to_string()),
            note_id: "abc".to_string(),
            attribute_type: Some(AttributeType::Label),
            name: "todo".to_string(),
            value: "".to_string(),
            position: 10,
            is_inheritable: true,
        }],
        parent_note_ids: vec!["root".to_string()],
        child_note_ids: vec![],
        parent_branch_ids: vec!["root_abc".to_string()],
        child_branch_ids: vec![],
        date_created: "2023-01-01 10:00:00.000+0100".to_string(),
        date_modified: "2023-01-02 10:00:00.000+0100".to_string(),
        utc_date_created: "2023-01-01 09:00:00.000Z".to_string(),
        utc_date_modified: "2023-01-02 09:00:00.000Z".to_string(),
    }
}

#[test]
fn note_type_tokens_round_trip() {
    let tokens = [
        "text", "code", "render", "file", "image", "search", "relation-map", "book", "note-map",
        "mermaid",
    ];
    for (t, tok) in ALL_TYPES.iter().zip(tokens.iter()) {
        assert_eq!(t.wire(), *tok);
        assert_eq!(NoteType::from_wire(tok), Some(*t));
    }
}

#[test]
fn unknown_note_type_token_is_refused() {
    assert_eq!(NoteType::from_wire("spreadsheet"), None);
    assert_eq!(NoteType::from_wire("Text"), None);
    assert_eq!(NoteType::from_wire(""), None);
    assert_eq!(AttributeType::from_wire("tag"), None);
    assert_eq!(AttributeType::from_wire("relation"), Some(AttributeType::Relation));
}

#[test]
fn note_type_names() {
    assert_eq!(NoteType::RelationMap.to_string(), "RelationMap");
    assert_eq!(NoteType::Mermaid.to_string(), "Mermaid");
}

#[test]
fn search_with_defaults_is_search_text_only() {
    let o = SearchOptions::default("hello".to_string());
    assert_eq!(encode_search_query(&o), "search=\"hello\"");
}

#[test]
fn search_descending_uses_dec() {
    let mut o = SearchOptions::default("hello".to_string());
    o.order_direction = Some(OrderDirection::Descending);
    let q = encode_search_query(&o);
    assert_eq!(q, "search=\"hello\"&orderDirection=dec");
    assert!(!q.contains("desc"));
}

#[test]
fn search_with_every_field_keeps_fixed_order() {
    let o = SearchOptions {
        search: "#todo".to_string(),
        fast_search: true,
        include_archived_notes: true,
        ancestor_note_id: Some("root".to_string()),
        ancestor_depth: Some(DepthOptions::LessThan(3)),
        order_by: Some("title".to_string()),
        order_direction: Some(OrderDirection::Ascending),
        limit: Some(250),
        debug: true,
    };
    assert_eq!(
        encode_search_query(&o),
        "search=\"#todo\"&fastSearch=true&includeArchivedNotes=true&ancestorNoteId=root\
         &ancestorDepth=lt3&orderBy=title&orderDirection=asc&limit=250&debug=true"
    );
}

#[test]
fn search_never_writes_false_or_null() {
    let mut o = SearchOptions::default("x".to_string());
    o.limit = Some(0);
    o.ancestor_depth = Some(DepthOptions::Exactly(10));
    let q = encode_search_query(&o);
    assert_eq!(q, "search=\"x\"&ancestorDepth=eq10&limit=0");
    assert!(!q.contains("false"));
    assert!(!q.contains("null"));
}

#[test]
fn search_depth_operators_and_large_numbers() {
    let mut o = SearchOptions::default("y".to_string());
    o.ancestor_depth = Some(DepthOptions::GreaterThan(usize::MAX));
    assert_eq!(
        encode_search_query(&o),
        format!("search=\"y\"&ancestorDepth=gt{}", usize::MAX)
    );
}

#[test]
fn attribute_json_leaves_out_absent_fields() {
    let a = Attribute {
        attribute_id: None,
        note_id: "n1".to_string(),
        attribute_type: None,
        name: "color".to_string(),
        value: "red".to_string(),
        position: 0,
        is_inheritable: false,
    };
    assert_eq!(
        a.to_json(),
        "{\"noteId\":\"n1\",\"name\":\"color\",\"value\":\"red\",\"position\":0,\"isInheritable\":false}"
    );
}

#[test]
fn note_json_has_wire_field_names_and_escapes_text() {
    let n = sample_note(NoteType::Text);
    let expected = [
        "{\"noteId\":\"abc\",\"title\":\"Shopping \\\"list\\\"\",\"type\":\"text\",",
        "\"mime\":\"text/html\",\"isProtected\":false,\"attributes\":[{\"attributeId\":\"a1\",",
        "\"noteId\":\"abc\",\"type\":\"label\",\"name\":\"todo\",\"value\":\"\",\"position\":10,",
        "\"isInheritable\":true}],\"parentNoteIds\":[\"root\"],\"childNoteIds\":[],",
        "\"parentBranchIds\":[\"root_abc\"],\"childBranchIds\":[],",
        "\"dateCreated\":\"2023-01-01 10:00:00.000+0100\",",
        "\"dateModified\":\"2023-01-02 10:00:00.000+0100\",",
        "\"utcDateCreated\":\"2023-01-01 09:00:00.000Z\",",
        "\"utcDateModified\":\"2023-01-02 09:00:00.000Z\"}",
    ]
    .concat();
    assert_eq!(n.to_json(), expected);
}

#[test]
fn create_note_json_with_mermaid() {
    let def = CreateNoteDef {
        parent_note_id: "root".to_string(),
        title: "Flow".to_string(),
        note_type: NoteType::Mermaid,
        mime: None,
        content: "graph TD;\nA-->B".to_string(),
        position: Some(5),
        prefix: None,
        is_expanded: true,
        note_id: "flow1".to_string(),
    };
    assert_eq!(
        def.to_json(),
        "{\"parentNoteId\":\"root\",\"title\":\"Flow\",\"type\":\"mermaid\",\
         \"content\":\"graph TD;\\nA-->B\",\"notePosition\":5,\"isExpanded\":true,\"noteId\":\"flow1\"}"
    );
}

#[test]
fn login_body_quotes_password() {
    assert_eq!(login_body("secret"), "{\"password\":\"secret\"}");
    assert_eq!(login_body("a\"b\\c"), "{\"password\":\"a\\\"b\\\\c\"}");
}

#[test]
fn note_wire_round_trip_for_every_type() {
    for t in ALL_TYPES {
        let n = sample_note(t);
        let w = n.to_wire();
        assert_eq!(w.note_type, t.wire());
        assert_eq!(w.attributes[0].attribute_type, Some("label".to_string()));
        assert_eq!(Note::from_wire(&w), Some(n));
    }
}

#[test]
fn wire_note_with_unknown_attribute_kind_is_refused() {
    let mut w = sample_note(NoteType::Code).to_wire();
    w.attributes[0].attribute_type = Some("tag".to_string());
    assert_eq!(Note::from_wire(&w), None);
}

#[test]
fn search_body_leaves_out_unset_fields() {
    let mut o = SearchOptions::default("hello".to_string());
    o.ancestor_depth = Some(DepthOptions::LessThan(2));
    o.order_direction = Some(OrderDirection::Descending);
    o.limit = Some(5);
    assert_eq!(
        o.to_json(),
        "{\"search\":\"hello\",\"ancestorDepth\":{\"LessThan\":[2]},\"orderDirection\":\"dec\",\"limit\":5}"
    );
}

#[test]
fn search_body_with_every_field() {
    let o = SearchOptions {
        search: "a\"b".to_string(),
        fast_search: true,
        include_archived_notes: true,
        ancestor_note_id: Some("root".to_string()),
        ancestor_depth: Some(DepthOptions::GreaterThan(1)),
        order_by: Some("title".to_string()),
        order_direction: Some(OrderDirection::Ascending),
        limit: Some(10),
        debug: true,
    };
    assert_eq!(
        o.to_json(),
        "{\"search\":\"a\\\"b\",\"fastSearch\":true,\"includeArchivedNotes\":true,\
         \"ancestorNoteId\":\"root\",\"ancestorDepth\":{\"GreaterThan\":[1]},\"orderBy\":\"title\",\
         \"orderDirection\":\"asc\",\"limit\":10,\"debug\":true}"
    );
}

#[test]
fn empty_search_text_is_still_quoted() {
    let o = SearchOptions::default(String::new());
    assert_eq!(encode_search_query(&o), "search=\"\"");
    assert_eq!(o.to_json(), "{\"search\":\"\"}");
}

#[test]
fn attribute_without_kind_round_trips() {
    let a = Attribute {
        attribute_id: None,
        note_id: "n".to_string(),
        attribute_type: None,
        name: "k".to_string(),
        value: "v".to_string(),
        position: 7,
        is_inheritable: false,
    };
    let w = a.to_wire();
    assert_eq!(w.attribute_type, None);
    assert_eq!(Attribute::from_wire(&w), Some(a));
}
