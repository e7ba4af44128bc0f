//! Client library for the external REST API of a Trilium notes server.
//!
//! The library holds the verified part of the client: the closed enums and
//! their wire tokens, the note schemas, the search-query encoder, the JSON
//! framing of request bodies, the session that attaches its credential to
//! every request, and the classification of transport outcomes into the
//! three error kinds. Performing the HTTP exchange and tokenizing JSON are
//! left to the caller's transport and JSON parser.

pub mod types;
pub mod error;
pub mod text;
pub mod search;
pub mod schemas;
pub mod json;
pub mod encode;
pub mod session;

pub use error::{Error, Reply};
pub use schemas::{
    Attribute,
    Branch,
    CreateNoteDef,
    CreateNoteResponse,
    DebugInfo,
    LoginSchema,
    Note,
    NoteFromServer,
    NoteResponse,
    NoteResult,
    SearchResponse,
    SearchResult,
    SearchResults,
    WireAttribute,
    WireCreateNoteResponse,
    WireNote,
    WireSearchResponse,
};
pub use search::{encode_search_query, DepthOptions, OrderDirection, SearchOptions};
pub use session::{Method, Request, Trilium};
pub use types::{AttributeType, NoteType};
