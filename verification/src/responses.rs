//! Response types: what a payload is read as.
use crate::json::{
    find_member, items_view, lemma_array_view, lemma_object_view, lookup, members_view,
    text_member, text_of, unsigned_member, unsigned_of, Json, JsonValue, ParseError,
};
use crate::parse::{FromTree, IsOk};
use crate::status::StatusCode;
use vstd::prelude::*;
use vstd::string::*;

verus! {

/// Whether a payload has no member `error` at its root.
pub open spec fn has_no_error(tree: JsonValue) -> bool {
    tree.member("error"@) is None
}

/// Whether a response is a value going by its status alone.
pub open spec fn success_status(status: u16) -> bool {
    StatusCode::is_success_code(status)
}

impl IsOk for Json {
    /// A payload with a member `error` at its root is a reported error,
    /// whatever the status is. Any other payload is a value where the status
    /// is within 200-299.
    open spec fn is_ok_spec(status: u16, tree: JsonValue) -> bool {
        has_no_error(tree) && success_status(status)
    }

    fn is_ok(status: StatusCode, tree: &Json) -> (ok: bool) {
        tree.get("error").is_none() && status.is_success()
    }
}

impl FromTree for Json {
    /// Any payload is a tree: itself.
    open spec fn from_tree_spec(tree: JsonValue) -> Result<JsonValue, Seq<char>> {
        Ok(tree)
    }

    fn from_tree(tree: &Json) -> (value: Result<Json, ParseError>) {
        Ok(tree.clone())
    }
}

/// Why a payload is no answer to a get request.
pub open spec fn found_is_missing() -> Seq<char> {
    "missing field `found`"@
}

/// Why a payload that is no object is no response.
pub open spec fn not_an_object() -> Seq<char> {
    "invalid type: expected a map"@
}

/// The answer to a get request, as a mathematical value.
pub struct GetResponseView {
    pub index: Option<Seq<char>>,
    pub ty: Option<Seq<char>>,
    pub id: Option<Seq<char>>,
    pub version: Option<u64>,
    pub found: bool,
    pub source: Option<JsonValue>,
}

/// The answer to a get request: whether the document was found, and the
/// document where it was.
#[derive(Debug, PartialEq, Eq)]
pub struct GetResponse {
    index: Option<String>,
    ty: Option<String>,
    id: Option<String>,
    version: Option<u64>,
    found: bool,
    source: Option<Json>,
}

/// A text that may be there, as a mathematical value.
pub open spec fn text_view(text: Option<String>) -> Option<Seq<char>> {
    match text {
        Some(t) => Some(t@),
        None => None,
    }
}

/// A tree that may be there, as a mathematical value.
pub open spec fn tree_view(tree: Option<Json>) -> Option<JsonValue> {
    match tree {
        Some(t) => Some(t@),
        None => None,
    }
}

impl View for GetResponse {
    type V = GetResponseView;

    closed spec fn view(&self) -> GetResponseView {
        GetResponseView {
            index: text_view(self.index),
            ty: text_view(self.ty),
            id: text_view(self.id),
            version: self.version,
            found: self.found,
            source: tree_view(self.source),
        }
    }
}

/// The document of a get response: the member `_source`, unless it is null.
pub open spec fn source_of(members: Seq<(Seq<char>, JsonValue)>) -> Option<JsonValue> {
    match lookup(members, "_source"@) {
        Some(JsonValue::Null) => None,
        Some(document) => Some(document),
        None => None,
    }
}

/// The answer to a get request that a payload holds.
///
/// The payload is an object whose member `found` is a boolean. The document is
/// its member `_source`; where the document came from is read from `_index`,
/// `_type`, `_id` and `_version`, as far as they are there.
pub open spec fn get_response_of(tree: JsonValue) -> Result<GetResponseView, Seq<char>> {
    match tree {
        JsonValue::Object(members) => match lookup(members, "found"@) {
            Some(JsonValue::Bool(found)) => Ok(
                GetResponseView {
                    index: text_member(members, "_index"@),
                    ty: text_member(members, "_type"@),
                    id: text_member(members, "_id"@),
                    version: unsigned_member(members, "_version"@),
                    found,
                    source: source_of(members),
                },
            ),
            _ => Err(found_is_missing()),
        },
        _ => Err(not_an_object()),
    }
}

impl IsOk for GetResponse {
    /// A payload with a member `error` at its root is a reported error,
    /// whatever the status is. Any other payload is a value where the status
    /// is within 200-299, and also where it is 404: that a document was not
    /// found is an answer, not an error.
    open spec fn is_ok_spec(status: u16, tree: JsonValue) -> bool {
        has_no_error(tree) && (success_status(status) || status == 404)
    }

    fn is_ok(status: StatusCode, tree: &Json) -> (ok: bool) {
        tree.get("error").is_none() && (status.is_success() || status.as_u16() == 404)
    }
}

impl FromTree for GetResponse {
    open spec fn from_tree_spec(tree: JsonValue) -> Result<GetResponseView, Seq<char>> {
        get_response_of(tree)
    }

    fn from_tree(tree: &Json) -> (value: Result<GetResponse, ParseError>) {
        let members = match tree {
            Json::Object(members) => members,
            _ => {
                return Err(
                    ParseError { message: String::from_str("invalid type: expected a map") },
                );
            },
        };
        proof {
            lemma_object_view(*members);
        }
        let found = match find_member(members, "found") {
            Some(Json::Bool(found)) => *found,
            _ => {
                return Err(ParseError { message: String::from_str("missing field `found`") });
            },
        };
        let source = match find_member(members, "_source") {
            Some(Json::Null) => None,
            Some(document) => Some(document.clone()),
            None => None,
        };
        Ok(
            GetResponse {
                index: text_of(members, "_index"),
                ty: text_of(members, "_type"),
                id: text_of(members, "_id"),
                version: unsigned_of(members, "_version"),
                found,
                source,
            },
        )
    }
}

impl GetResponse {
    /// Whether the document was found.
    pub fn found(&self) -> (found: bool)
        ensures
            found == self@.found,
    {
        self.found
    }

    /// The document, where the response holds one.
    pub fn into_document(self) -> (document: Option<Json>)
        ensures
            tree_view(document) == self@.source,
    {
        self.source
    }

    /// The index that the document is in.
    pub fn index(&self) -> (index: Option<&str>)
        ensures
            match index {
                Some(text) => self@.index == Some(text@),
                None => self@.index is None,
            },
    {
        match &self.index {
            Some(text) => Some(text.as_str()),
            None => None,
        }
    }

    /// The type of the document.
    pub fn ty(&self) -> (ty: Option<&str>)
        ensures
            match ty {
                Some(text) => self@.ty == Some(text@),
                None => self@.ty is None,
            },
    {
        match &self.ty {
            Some(text) => Some(text.as_str()),
            None => None,
        }
    }

    /// The id of the document.
    pub fn id(&self) -> (id: Option<&str>)
        ensures
            match id {
                Some(text) => self@.id == Some(text@),
                None => self@.id is None,
            },
    {
        match &self.id {
            Some(text) => Some(text.as_str()),
            None => None,
        }
    }

    /// The version of the document.
    pub fn version(&self) -> (version: Option<u64>)
        ensures
            version == self@.version,
    {
        self.version
    }
}

/// Why a payload is no answer to a search request.
pub open spec fn hits_are_missing() -> Seq<char> {
    "missing field `hits`"@
}

/// The answer to a search request, as a mathematical value.
pub struct SearchResponseView {
    pub took: Option<u64>,
    pub total: Option<u64>,
    pub hits: Seq<JsonValue>,
}

/// The answer to a search request: the hits, how many there are in all, and
/// how long the search took.
#[derive(Debug, PartialEq, Eq)]
pub struct SearchResponse {
    took: Option<u64>,
    total: Option<u64>,
    hits: Vec<Json>,
}

impl View for SearchResponse {
    type V = SearchResponseView;

    closed spec fn view(&self) -> SearchResponseView {
        SearchResponseView { took: self.took, total: self.total, hits: items_view(self.hits@) }
    }
}

/// The answer to a search request that a payload holds.
///
/// The payload is an object whose member `hits` is an object, whose member
/// `hits` in turn is the array of the hits.
pub open spec fn search_response_of(tree: JsonValue) -> Result<SearchResponseView, Seq<char>> {
    match tree {
        JsonValue::Object(members) => match lookup(members, "hits"@) {
            Some(JsonValue::Object(outer)) => match lookup(outer, "hits"@) {
                Some(JsonValue::Array(hits)) => Ok(
                    SearchResponseView {
                        took: unsigned_member(members, "took"@),
                        total: unsigned_member(outer, "total"@),
                        hits,
                    },
                ),
                _ => Err(hits_are_missing()),
            },
            _ => Err(hits_are_missing()),
        },
        _ => Err(not_an_object()),
    }
}

/// A copy of the items of an array.
fn clone_items(items: &Vec<Json>) -> (copies: Vec<Json>)
    ensures
        items_view(copies@) == items_view(items@),
{
    let mut copies: Vec<Json> = Vec::new();
    let mut i: usize = 0;
    while i < items.len()
        invariant
            i <= items.len(),
            copies.len() == i,
            forall|k: int| 0 <= k < i ==> copies@[k]@ == items@[k]@,
        decreases items.len() - i,
    {
        copies.push(items[i].clone());
        i += 1;
    }
    assert(items_view(copies@) =~= items_view(items@));
    copies
}

impl IsOk for SearchResponse {
    /// A payload with a member `error` at its root is a reported error,
    /// whatever the status is. Any other payload is a value where the status
    /// is within 200-299.
    open spec fn is_ok_spec(status: u16, tree: JsonValue) -> bool {
        has_no_error(tree) && success_status(status)
    }

    fn is_ok(status: StatusCode, tree: &Json) -> (ok: bool) {
        tree.get("error").is_none() && status.is_success()
    }
}

impl FromTree for SearchResponse {
    open spec fn from_tree_spec(tree: JsonValue) -> Result<SearchResponseView, Seq<char>> {
        search_response_of(tree)
    }

    fn from_tree(tree: &Json) -> (value: Result<SearchResponse, ParseError>) {
        let members = match tree {
            Json::Object(members) => members,
            _ => {
                return Err(
                    ParseError { message: String::from_str("invalid type: expected a map") },
                );
            },
        };
        proof {
            lemma_object_view(*members);
        }
        let outer = match find_member(members, "hits") {
            Some(Json::Object(outer)) => outer,
            _ => {
                return Err(ParseError { message: String::from_str("missing field `hits`") });
            },
        };
        proof {
            lemma_object_view(*outer);
        }
        let hits = match find_member(outer, "hits") {
            Some(Json::Array(hits)) => hits,
            _ => {
                return Err(ParseError { message: String::from_str("missing field `hits`") });
            },
        };
        proof {
            lemma_array_view(*hits);
        }
        Ok(
            SearchResponse {
                took: unsigned_of(members, "took"),
                total: unsigned_of(outer, "total"),
                hits: clone_items(hits),
            },
        )
    }
}

impl SearchResponse {
    /// How long the search took, in milliseconds.
    pub fn took(&self) -> (took: Option<u64>)
        ensures
            took == self@.took,
    {
        self.took
    }

    /// How many documents matched in all.
    pub fn total(&self) -> (total: Option<u64>)
        ensures
            total == self@.total,
    {
        self.total
    }

    /// The hits that the response holds.
    pub fn hits(&self) -> (hits: &Vec<Json>)
        ensures
            items_view(hits@) == self@.hits,
    {
        &self.hits
    }
}

/// With a status within 200-299, a payload without a member `error` that
/// reads as the answer to a get request is handed to the caller as that
/// answer.
pub proof fn lemma_get_success(status: u16, tree: JsonValue, value: GetResponseView)
    requires
        success_status(status),
        has_no_error(tree),
        get_response_of(tree) == Ok::<GetResponseView, Seq<char>>(value),
    ensures
        crate::response::outcome_of::<GetResponse>(status, Ok(tree)) == Ok::<
            GetResponseView,
            crate::error::ErrorView,
        >(value),
{
}

/// With a status within 200-299, a payload without a member `error` that
/// reads as the answer to a search request is handed to the caller as that
/// answer.
pub proof fn lemma_search_success(status: u16, tree: JsonValue, value: SearchResponseView)
    requires
        success_status(status),
        has_no_error(tree),
        search_response_of(tree) == Ok::<SearchResponseView, Seq<char>>(value),
    ensures
        crate::response::outcome_of::<SearchResponse>(status, Ok(tree)) == Ok::<
            SearchResponseView,
            crate::error::ErrorView,
        >(value),
{
}

/// With a status within 200-299, a payload without a member `error` is
/// handed to the caller as the tree that it is.
pub proof fn lemma_tree_success(status: u16, tree: JsonValue)
    requires
        success_status(status),
        has_no_error(tree),
    ensures
        crate::response::outcome_of::<Json>(status, Ok(tree)) == Ok::<
            JsonValue,
            crate::error::ErrorView,
        >(tree),
{
}

/// With a status of 404, a payload without a member `error` that says that
/// nothing was found is a value without a document.
pub proof fn lemma_get_missing_document(tree: JsonValue, value: GetResponseView)
    requires
        has_no_error(tree),
        get_response_of(tree) == Ok::<GetResponseView, Seq<char>>(value),
    ensures
        crate::response::outcome_of::<GetResponse>(404, Ok(tree)) == Ok::<
            GetResponseView,
            crate::error::ErrorView,
        >(value),
{
}

/// A payload with a member `error` at its root is handed to the caller as
/// the error that it reports, whatever the status is and whichever of the
/// response types it is read as. It is never a value and never a client
/// error.
pub proof fn lemma_error_payload_is_reported(status: u16, tree: JsonValue)
    requires
        !has_no_error(tree),
    ensures
        crate::error::api_error_of(tree) is Some,
        crate::response::outcome_of::<Json>(status, Ok(tree)) == Err::<
            JsonValue,
            crate::error::ErrorView,
        >(crate::error::ErrorView::Api(crate::error::api_error_of(tree).unwrap())),
        crate::response::outcome_of::<GetResponse>(status, Ok(tree)) == Err::<
            GetResponseView,
            crate::error::ErrorView,
        >(crate::error::ErrorView::Api(crate::error::api_error_of(tree).unwrap())),
        crate::response::outcome_of::<SearchResponse>(status, Ok(tree)) == Err::<
            SearchResponseView,
            crate::error::ErrorView,
        >(crate::error::ErrorView::Api(crate::error::api_error_of(tree).unwrap())),
{
}

/// A payload whose member `error` is an object of the kind
/// `index_not_found_exception` that names an index is handed to the caller as
/// an index that was not found, with that name, whatever the status is.
pub proof fn lemma_index_not_found_is_reported(
    status: u16,
    tree: JsonValue,
    inner: Seq<(Seq<char>, JsonValue)>,
    index: Seq<char>,
)
    requires
        tree.member("error"@) == Some(JsonValue::Object(inner)),
        text_member(inner, "type"@) == Some("index_not_found_exception"@),
        text_member(inner, "index"@) == Some(index),
    ensures
        crate::response::outcome_of::<GetResponse>(status, Ok(tree)) == Err::<
            GetResponseView,
            crate::error::ErrorView,
        >(crate::error::ErrorView::Api(crate::error::ApiErrorView::IndexNotFound { index })),
{
}

} // verus!
