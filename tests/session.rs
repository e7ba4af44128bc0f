use trilium::{
    Branch, DebugInfo, CreateNoteDef, Error, LoginSchema, Method, Note, NoteType, OrderDirection, Reply,
    SearchOptions, Trilium, WireCreateNoteResponse, WireNote, WireSearchResponse,
};

fn wire_note(id: &str, note_type: &str) -> WireNote {
    WireNote {
        note_id: id.to_string(),
        title: "T".to_string(),
        note_type: note_type.to_string(),
        mime: "text/html".to_string(),
        is_protected: false,
        attributes: vec![],
        parent_note_ids: vec!["root".to_string()],
        child_note_ids: vec![],
        parent_branch_ids: vec![],
        child_branch_ids: vec![],
        date_created: "d1".to_string(),
        date_modified: "d2".to_string(),
        utc_date_created: "u1".to_string(),
        utc_date_modified: "u2".to_string(),
    }
}

fn ok_reply(body: &str) -> Reply {
    Reply::Received { status: 200, body: Some(body.to_string()) }
}

fn session() -> Trilium {
    Trilium::from_auth_key("tok".to_string(), "https://notes.example").unwrap()
}

fn branch() -> Branch {
    Branch {
        branch_id: "root_n1".to_string(),
        note_id: "n1".to_string(),
        parent_note_id: "root".to_string(),
        prefix: "".to_string(),
        note_position: 10,
        is_expanded: false,
    }
}

#[test]
fn login_then_get_note_attaches_token() {
    let login = Trilium::login_request("secret", "https://notes.example");
    assert_eq!(login.method, Method::Post);
    assert_eq!(login.url, "https://notes.example/auth/login");
    assert_eq!(login.authorization, None);
    assert_eq!(login.body, Some("{\"password\":\"secret\"}".to_string()));

    let reply = ok_reply("{\"authToken\":\"abc123\"}");
    let decoded = Some(LoginSchema { auth_token: "abc123".to_string() });
    let t = Trilium::from_login("https://notes.example", reply, decoded).unwrap();
    let r = t.get_note_request("root");
    assert_eq!(r.method, Method::Get);
    assert_eq!(r.url, "https://notes.example/etapi/notes/root");
    assert_eq!(r.authorization, Some("abc123".to_string()));
    assert_eq!(r.body, None);
}

#[test]
fn login_failures_are_classified() {
    let d = || Some(LoginSchema { auth_token: "x".to_string() });
    let r = Trilium::from_login("h", Reply::Received { status: 401, body: None }, d());
    assert_eq!(r.unwrap_err(), Error::WrongPassword);
    let r = Trilium::from_login("h", Reply::Unreachable, d());
    assert_eq!(r.unwrap_err(), Error::InvalidUrl);
    let r = Trilium::from_login("h", ok_reply("<html>"), None);
    assert_eq!(r.unwrap_err(), Error::InvalidServerResponse(Some("<html>".to_string())));
    let r = Trilium::from_login("h", Reply::Received { status: 200, body: None }, d());
    assert_eq!(r.unwrap_err(), Error::InvalidServerResponse(None));
}

#[test]
fn from_auth_key_makes_no_request() {
    let t = session();
    assert_eq!(t.auth(), "tok");
    assert_eq!(t.url(), "https://notes.example");
}

#[test]
fn every_request_carries_the_credential() {
    let t = session();
    let mut o = SearchOptions::default("hello".to_string());
    o.order_direction = Some(OrderDirection::Descending);
    let s = t.search_notes_request(&o);
    assert_eq!(s.method, Method::Get);
    assert_eq!(
        s.url,
        "https://notes.example/etapi/notes?search=\"hello\"&orderDirection=dec"
    );
    let def = CreateNoteDef {
        parent_note_id: "root".to_string(),
        title: "x".to_string(),
        note_type: NoteType::Text,
        mime: None,
        content: "".to_string(),
        position: None,
        prefix: None,
        is_expanded: false,
        note_id: "n1".to_string(),
    };
    let c = t.create_note_request(&def);
    assert_eq!(c.method, Method::Post);
    assert_eq!(c.url, "https://notes.example/etapi/create-note");
    assert_eq!(c.body, Some(def.to_json()));
    let note = Note::from_wire(&wire_note("n1", "book")).unwrap();
    let p = t.patch_note_request(&note);
    assert_eq!(p.method, Method::Patch);
    assert_eq!(p.url, "https://notes.example/etapi/notes/n1");
    assert_eq!(p.body, Some(note.to_json()));
    let d = t.delete_note_request("n1");
    assert_eq!(d.method, Method::Delete);
    assert_eq!(d.url, "https://notes.example/etapi/notes/n1");
    assert_eq!(d.body, None);
    for r in [s, c, p, d] {
        assert_eq!(r.authorization, Some("tok".to_string()));
    }
}

#[test]
fn failure_status_is_wrong_password_for_every_operation() {
    for status in [301u16, 400, 401, 404, 500, 199] {
        let reply = || Reply::Received { status, body: Some("{}".to_string()) };
        let e = Error::WrongPassword;
        assert_eq!(Trilium::from_login("h", reply(), None).unwrap_err(), e);
        assert_eq!(Trilium::note_result(reply(), Some(wire_note("n", "text"))).unwrap_err(), e);
        assert_eq!(Trilium::search_notes_result(reply(), None).unwrap_err(), e);
        assert_eq!(Trilium::create_note_result(reply(), None).unwrap_err(), e);
        assert_eq!(Trilium::delete_note_result(reply()).unwrap_err(), e);
    }
}

#[test]
fn no_reply_is_invalid_url_for_every_operation() {
    let e = Error::InvalidUrl;
    assert_eq!(Trilium::from_login("h", Reply::Unreachable, None).unwrap_err(), e);
    assert_eq!(Trilium::note_result(Reply::Unreachable, None).unwrap_err(), e);
    assert_eq!(Trilium::search_notes_result(Reply::Unreachable, None).unwrap_err(), e);
    assert_eq!(Trilium::create_note_result(Reply::Unreachable, None).unwrap_err(), e);
    assert_eq!(Trilium::delete_note_result(Reply::Unreachable).unwrap_err(), e);
}

#[test]
fn undecodable_body_is_kept_in_the_error() {
    let text = "not json at all";
    let e = Error::InvalidServerResponse(Some(text.to_string()));
    assert_eq!(Trilium::note_result(ok_reply(text), None).unwrap_err(), e);
    assert_eq!(Trilium::search_notes_result(ok_reply(text), None).unwrap_err(), e);
    assert_eq!(Trilium::create_note_result(ok_reply(text), None).unwrap_err(), e);
}

#[test]
fn unreadable_body_is_malformed_without_text() {
    let reply = || Reply::Received { status: 204, body: None };
    let e = Error::InvalidServerResponse(None);
    assert_eq!(Trilium::note_result(reply(), None).unwrap_err(), e);
    assert_eq!(Trilium::delete_note_result(reply()).unwrap_err(), e);
}

#[test]
fn unknown_type_in_reply_is_malformed() {
    let body = "{\"noteId\":\"n\",\"type\":\"spreadsheet\"}";
    let r = Trilium::note_result(ok_reply(body), Some(wire_note("n", "spreadsheet")));
    assert_eq!(r.unwrap_err(), Error::InvalidServerResponse(Some(body.to_string())));
}

#[test]
fn delete_accepts_any_readable_body() {
    assert_eq!(Trilium::delete_note_result(ok_reply("")), Ok(()));
    assert_eq!(Trilium::delete_note_result(ok_reply("whatever")), Ok(()));
}

#[test]
fn search_results_keep_server_order() {
    let w = WireSearchResponse {
        results: vec![wire_note("z", "text"), wire_note("a", "code"), wire_note("m", "file")],
        debug_info: Some(DebugInfo {}),
    };
    let r = Trilium::search_notes_result(ok_reply("{}"), Some(w)).unwrap();
    let ids: Vec<&str> = r.results.iter().map(|n| n.note_id.as_str()).collect();
    assert_eq!(ids, vec!["z", "a", "m"]);
    assert_eq!(r.results[1].note_type, NoteType::Code);
    assert_eq!(r.debug_info, Some(DebugInfo {}));
}

#[test]
fn search_with_one_unknown_type_is_malformed() {
    let w = WireSearchResponse {
        results: vec![wire_note("z", "text"), wire_note("a", "sheet")],
        debug_info: None,
    };
    let r = Trilium::search_notes_result(ok_reply("{}"), Some(w));
    assert_eq!(r.unwrap_err(), Error::InvalidServerResponse(Some("{}".to_string())));
}

#[test]
fn create_mermaid_note_survives_echo() {
    let t = session();
    let def = CreateNoteDef {
        parent_note_id: "root".to_string(),
        title: "Flow".to_string(),
        note_type: NoteType::Mermaid,
        mime: Some("text/mermaid".to_string()),
        content: "graph TD;".to_string(),
        position: None,
        prefix: Some("p".to_string()),
        is_expanded: false,
        note_id: "n1".to_string(),
    };
    let req = t.create_note_request(&def);
    let sent = req.body.unwrap();
    assert!(sent.contains("\"type\":\"mermaid\""));
    assert!(sent.contains("\"mime\":\"text/mermaid\""));
    assert!(sent.contains("\"prefix\":\"p\""));
    let echoed = WireCreateNoteResponse { note: wire_note("n1", "mermaid"), branch: branch() };
    let r = Trilium::create_note_result(ok_reply(&sent), Some(echoed)).unwrap();
    assert_eq!(r.note.note_type, def.note_type);
    assert_eq!(r.note.note_id, def.note_id);
    assert_eq!(r.branch, branch());
}

#[test]
fn search_body_request_posts_json() {
    let t = session();
    let o = SearchOptions::default("hello".to_string());
    let r = t.search_notes_body_request(&o);
    assert_eq!(r.method, Method::Post);
    assert_eq!(r.url, "https://notes.example/etapi/notes");
    assert_eq!(r.authorization, Some("tok".to_string()));
    assert_eq!(r.body, Some("{\"search\":\"hello\"}".to_string()));
}
