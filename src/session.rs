//! The authenticated session: it holds the server's base address and the
//! credential, builds every request with that credential attached, and turns
//! what the transport reports back into typed results.
use vstd::prelude::*;

use crate::encode::{create_note_json, login_body, login_json, note_json, search_options_json};
use crate::error::{decode_reply, read_body, reply_body, Error, Reply};
use crate::schemas::{
    note_matches_wire,
    search_matches_wire,
    wire_note_valid,
    wire_search_valid,
    CreateNoteDef,
    CreateNoteResponse,
    LoginSchema,
    Note,
    SearchResponse,
    WireCreateNoteResponse,
    WireNote,
    WireSearchResponse,
};
use crate::search::{encode_search_query, search_query, SearchOptions};

verus! {

/// The HTTP method of a request.
#[derive(Clone, Copy, Debug, PartialEq, Eq, Structural)]
pub enum Method {
    Get,
    Post,
    Patch,
    Delete,
}

/// One HTTP request, ready for the transport.
#[derive(Clone, Debug, PartialEq, Eq)]
pub struct Request {
    pub method: Method,
    pub url: String,
    /// The literal value of the `Authorization` header, when one is sent.
    pub authorization: Option<String>,
    pub body: Option<String>,
}

/// `r` is a request with these parts.
pub open spec fn request_is(
    r: Request,
    method: Method,
    url: Seq<char>,
    authorization: Option<Seq<char>>,
    body: Option<Seq<char>>,
) -> bool {
    &&& r.method == method
    &&& r.url@ == url
    &&& str_opt_of(r.authorization) == authorization
    &&& str_opt_of(r.body) == body
}

/// The view of an optional text.
pub open spec fn str_opt_of(v: Option<String>) -> Option<Seq<char>> {
    match v {
        Some(s) => Some(s@),
        None => None,
    }
}

/// A session with a note server. The credential is fixed when the session
/// is made and is attached, unchanged, to every request it builds.
#[derive(Clone, Debug, PartialEq, Eq)]
pub struct Trilium {
    url: String,
    auth: String,
}

impl Trilium {
    /// The base address of the server.
    pub closed spec fn base_url(&self) -> Seq<char> {
        self.url@
    }

    /// The credential sent as the `Authorization` header.
    pub closed spec fn auth_token(&self) -> Seq<char> {
        self.auth@
    }

    /// The base address of the server.
    pub fn url(&self) -> (r: &str)
        ensures
            r@ == self.base_url(),
    {
        self.url.as_str()
    }

    /// The credential sent as the `Authorization` header.
    pub fn auth(&self) -> (r: &str)
        ensures
            r@ == self.auth_token(),
    {
        self.auth.as_str()
    }

    /// A session from a token issued earlier. No request is made; a token
    /// that the server no longer accepts shows on the first call.
    pub fn from_auth_key(auth: String, domain: &str) -> (r: Result<Trilium, Error>)
        ensures
            r matches Ok(t) && t.auth_token() == auth@ && t.base_url() == domain@,
    {
        Ok(Trilium { url: domain.to_owned(), auth })
    }

    /// The login request: the password posted to `{domain}/auth/login`,
    /// with no credential yet.
    pub fn login_request(password: &str, domain: &str) -> (r: Request)
        ensures
            request_is(r, Method::Post, domain@ + "/auth/login"@, None, Some(login_json(password@))),
    {
        let url = domain.to_owned().concat("/auth/login");
        Request { method: Method::Post, url, authorization: None, body: Some(login_body(password)) }
    }

    /// The session that a login reply yields: the token of the decoded body
    /// becomes the credential. `decoded` is the body decoded as a login
    /// answer, `None` when that failed.
    pub fn from_login(domain: &str, reply: Reply, decoded: Option<LoginSchema>) -> (r: Result<
        Trilium,
        Error,
    >)
        ensures
            reply_body(reply) matches Err(e) ==> r == Err::<Trilium, Error>(e),
            reply_body(reply) matches Ok(b) ==> match decoded {
                Some(l) => r matches Ok(t) && t.auth_token() == l.auth_token@ && t.base_url()
                    == domain@,
                None => r == Err::<Trilium, Error>(Error::InvalidServerResponse(Some(b))),
            },
    {
        match decode_reply(reply, decoded) {
            Ok(l) => Ok(Trilium { url: domain.to_owned(), auth: l.auth_token }),
            Err(e) => Err(e),
        }
    }

    fn at(&self, path: &str) -> (r: String)
        ensures
            r@ == self.base_url() + path@,
    {
        self.url.clone().concat(path)
    }

    fn note_url(&self, id: &str) -> (r: String)
        ensures
            r@ == self.base_url() + "/etapi/notes/"@ + id@,
    {
        self.at("/etapi/notes/").concat(id)
    }

    /// The search request: `GET {base}/etapi/notes?{query}`.
    pub fn search_notes_request(&self, search_options: &SearchOptions) -> (r: Request)
        ensures
            request_is(
                r,
                Method::Get,
                self.base_url() + "/etapi/notes?"@ + search_query(*search_options),
                Some(self.auth_token()),
                None,
            ),
    {
        let query = encode_search_query(search_options);
        let url = self.at("/etapi/notes?").concat(query.as_str());
        Request { method: Method::Get, url, authorization: Some(self.auth.clone()), body: None }
    }

    /// The search request in its older form: the search as a JSON body
    /// posted to `{base}/etapi/notes`.
    pub fn search_notes_body_request(&self, search_options: &SearchOptions) -> (r: Request)
        ensures
            request_is(
                r,
                Method::Post,
                self.base_url() + "/etapi/notes"@,
                Some(self.auth_token()),
                Some(search_options_json(*search_options)),
            ),
    {
        Request {
            method: Method::Post,
            url: self.at("/etapi/notes"),
            authorization: Some(self.auth.clone()),
            body: Some(search_options.to_json()),
        }
    }

    /// The creation request: the payload posted to `{base}/etapi/create-note`.
    pub fn create_note_request(&self, note: &CreateNoteDef) -> (r: Request)
        ensures
            request_is(
                r,
                Method::Post,
                self.base_url() + "/etapi/create-note"@,
                Some(self.auth_token()),
                Some(create_note_json(*note)),
            ),
    {
        Request {
            method: Method::Post,
            url: self.at("/etapi/create-note"),
            authorization: Some(self.auth.clone()),
            body: Some(note.to_json()),
        }
    }

    /// The lookup request: `GET {base}/etapi/notes/{id}`.
    pub fn get_note_request(&self, id: &str) -> (r: Request)
        ensures
            request_is(
                r,
                Method::Get,
                self.base_url() + "/etapi/notes/"@ + id@,
                Some(self.auth_token()),
                None,
            ),
    {
        Request {
            method: Method::Get,
            url: self.note_url(id),
            authorization: Some(self.auth.clone()),
            body: None,
        }
    }

    /// The update request: the whole note sent to
    /// `PATCH {base}/etapi/notes/{noteId}`, keyed by the note's own id.
    pub fn patch_note_request(&self, note: &Note) -> (r: Request)
        ensures
            request_is(
                r,
                Method::Patch,
                self.base_url() + "/etapi/notes/"@ + note.note_id@,
                Some(self.auth_token()),
                Some(note_json(*note)),
            ),
    {
        Request {
            method: Method::Patch,
            url: self.note_url(note.note_id.as_str()),
            authorization: Some(self.auth.clone()),
            body: Some(note.to_json()),
        }
    }

    /// The deletion request: `DELETE {base}/etapi/notes/{id}`.
    pub fn delete_note_request(&self, id: &str) -> (r: Request)
        ensures
            request_is(
                r,
                Method::Delete,
                self.base_url() + "/etapi/notes/"@ + id@,
                Some(self.auth_token()),
                None,
            ),
    {
        Request {
            method: Method::Delete,
            url: self.note_url(id),
            authorization: Some(self.auth.clone()),
            body: None,
        }
    }

    /// The result of a search. `decoded` is the body decoded as a search
    /// answer, `None` when that failed. The notes keep the server's order.
    pub fn search_notes_result(reply: Reply, decoded: Option<WireSearchResponse>) -> (r: Result<
        SearchResponse,
        Error,
    >)
        ensures
            reply_body(reply) matches Err(e) ==> r == Err::<SearchResponse, Error>(e),
            reply_body(reply) matches Ok(b) ==> match decoded {
                Some(w) => if wire_search_valid(w) {
                    r matches Ok(s) && search_matches_wire(s, w)
                } else {
                    r == Err::<SearchResponse, Error>(Error::InvalidServerResponse(Some(b)))
                },
                None => r == Err::<SearchResponse, Error>(Error::InvalidServerResponse(Some(b))),
            },
    {
        let body = match read_body(reply) {
            Ok(b) => b,
            Err(e) => {
                return Err(e);
            },
        };
        match decoded {
            Some(w) => match SearchResponse::from_wire(&w) {
                Some(s) => Ok(s),
                None => Err(Error::InvalidServerResponse(Some(body))),
            },
            None => Err(Error::InvalidServerResponse(Some(body))),
        }
    }

    /// The result of a creation. `decoded` is the body decoded as a
    /// creation answer, `None` when that failed.
    pub fn create_note_result(reply: Reply, decoded: Option<WireCreateNoteResponse>) -> (r: Result<
        CreateNoteResponse,
        Error,
    >)
        ensures
            reply_body(reply) matches Err(e) ==> r == Err::<CreateNoteResponse, Error>(e),
            reply_body(reply) matches Ok(b) ==> match decoded {
                Some(w) => if wire_note_valid(w.note) {
                    r matches Ok(c) && note_matches_wire(c.note, w.note) && c.branch == w.branch
                } else {
                    r == Err::<CreateNoteResponse, Error>(Error::InvalidServerResponse(Some(b)))
                },
                None => r == Err::<CreateNoteResponse, Error>(
                    Error::InvalidServerResponse(Some(b)),
                ),
            },
    {
        let body = match read_body(reply) {
            Ok(b) => b,
            Err(e) => {
                return Err(e);
            },
        };
        match decoded {
            Some(w) => match CreateNoteResponse::from_wire(w) {
                Some(c) => Ok(c),
                None => Err(Error::InvalidServerResponse(Some(body))),
            },
            None => Err(Error::InvalidServerResponse(Some(body))),
        }
    }

    /// The result of a lookup or an update. `decoded` is the body decoded as
    /// a note, `None` when that failed.
    pub fn note_result(reply: Reply, decoded: Option<WireNote>) -> (r: Result<Note, Error>)
        ensures
            reply_body(reply) matches Err(e) ==> r == Err::<Note, Error>(e),
            reply_body(reply) matches Ok(b) ==> match decoded {
                Some(w) => if wire_note_valid(w) {
                    r matches Ok(n) && note_matches_wire(n, w)
                } else {
                    r == Err::<Note, Error>(Error::InvalidServerResponse(Some(b)))
                },
                None => r == Err::<Note, Error>(Error::InvalidServerResponse(Some(b))),
            },
    {
        let body = match read_body(reply) {
            Ok(b) => b,
            Err(e) => {
                return Err(e);
            },
        };
        match decoded {
            Some(w) => match Note::from_wire(&w) {
                Some(n) => Ok(n),
                None => Err(Error::InvalidServerResponse(Some(body))),
            },
            None => Err(Error::InvalidServerResponse(Some(body))),
        }
    }

    /// The result of a deletion: any readable body counts as success.
    pub fn delete_note_result(reply: Reply) -> (r: Result<(), Error>)
        ensures
            reply_body(reply) matches Err(e) ==> r == Err::<(), Error>(e),
            reply_body(reply) is Ok ==> r == Ok::<(), Error>(()),
    {
        match read_body(reply) {
            Ok(_) => Ok(()),
            Err(e) => Err(e),
        }
    }
}

} // verus!
