use vstd::prelude::*;

verus! {

/// Why a response body could not be turned into a result page.
pub enum ProtocolError {
    /// The body is not well-formed JSON.
    Malformed,
    /// Some entry of the `data` array has no `path` string.
    MissingPath,
    /// The body has no `meta.last_page` unsigned integer.
    MissingPageCount,
}

/// One page of results from the remote API: the image references of its
/// `data` array and the total page count it reports.
pub struct ResultPage {
    pub paths: Vec<String>,
    pub last_page: u64,
}

#[verifier::external_type_specification]
#[verifier::external_body]
pub struct ExJsonValue(json::JsonValue);

#[verifier::external_type_specification]
#[verifier::external_body]
pub struct ExJsonError(json::Error);

/// The entries of a parsed document's `data` array, each projected to its
/// `path` member: the path's characters when it is a string, `None` when the
/// entry has no such string. An absent or non-array `data` yields the empty
/// sequence, matching the document's empty iteration over it.
pub uninterp spec fn jv_paths(v: json::JsonValue) -> Seq<Option<Seq<char>>>;

/// A parsed document's `meta.last_page` member as an unsigned integer, when
/// it is one.
pub uninterp spec fn jv_last_page(v: json::JsonValue) -> Option<u64>;

/// Whether a text is well-formed JSON, as json::parse decides it.
pub uninterp spec fn json_wf(s: Seq<char>) -> bool;

/// The `path` projections of the `data` array of the document a text parses
/// to (json::parse is a function of the text alone).
pub uninterp spec fn response_paths(s: Seq<char>) -> Seq<Option<Seq<char>>>;

/// The `meta.last_page` member of the document a text parses to.
pub uninterp spec fn response_last_page(s: Seq<char>) -> Option<u64>;

/// Relies on json::parse: it succeeds exactly on well-formed JSON, and its
/// result is determined by the text alone.
#[verifier::external_body]
fn parse_json(text: &str) -> (r: Result<json::JsonValue, json::Error>)
    ensures
        r is Ok <==> json_wf(text@),
        r is Ok ==> jv_paths(r->Ok_0) == response_paths(text@),
        r is Ok ==> jv_last_page(r->Ok_0) == response_last_page(text@),
{
    json::parse(text)
}

/// Relies on JsonValue's Index<&str> and len: `v["data"].len()` is the number
/// of entries of the `data` array, and 0 when `data` is absent or no array.
#[verifier::external_body]
fn data_len(v: &json::JsonValue) -> (n: usize)
    ensures
        n == jv_paths(*v).len(),
{
    v["data"].len()
}

/// Relies on JsonValue's Index and as_str: the `path` member of the i-th
/// entry of the `data` array, when it is a string.
#[verifier::external_body]
fn path_at(v: &json::JsonValue, i: usize) -> (r: Option<String>)
    requires
        i < jv_paths(*v).len(),
    ensures
        r is Some <==> jv_paths(*v)[i as int] is Some,
        r is Some ==> r->0@ == jv_paths(*v)[i as int]->0,
{
    v["data"][i]["path"].as_str().map(|s| s.to_owned())
}

/// Relies on JsonValue's Index and as_u64: `meta.last_page` as an unsigned
/// integer, when it is one.
#[verifier::external_body]
fn page_count_of(v: &json::JsonValue) -> (r: Option<u64>)
    ensures
        r == jv_last_page(*v),
{
    v["meta"]["last_page"].as_u64()
}

/// Reads a result page out of a parsed response document: every entry of
/// `data` must carry a `path` string and `meta.last_page` must be an
/// unsigned integer, else the matching protocol error comes back.
pub fn read_page(v: &json::JsonValue) -> (r: Result<ResultPage, ProtocolError>)
    ensures
        r is Ok <==> (jv_last_page(*v) is Some && forall|i: int|
            0 <= i < jv_paths(*v).len() ==> jv_paths(*v)[i] is Some),
        r is Ok ==> r->Ok_0.paths@.len() == jv_paths(*v).len(),
        r is Ok ==> forall|i: int|
            0 <= i < jv_paths(*v).len() ==> r->Ok_0.paths@[i]@ == jv_paths(*v)[i]->0,
        r is Ok ==> Some(r->Ok_0.last_page) == jv_last_page(*v),
        r is Err ==> (r->Err_0 is MissingPath <==> exists|i: int|
            0 <= i < jv_paths(*v).len() && jv_paths(*v)[i] is None),
        r is Err ==> (r->Err_0 is MissingPageCount <==> ((forall|i: int|
            0 <= i < jv_paths(*v).len() ==> jv_paths(*v)[i] is Some) && jv_last_page(
            *v,
        ) is None)),
        r is Err ==> (r->Err_0 is MissingPath || r->Err_0 is MissingPageCount),
{
    let n = data_len(v);
    let mut paths: Vec<String> = Vec::new();
    let mut i: usize = 0;
    while i < n
        invariant
            i <= n,
            n == jv_paths(*v).len(),
            paths@.len() == i,
            forall|j: int| 0 <= j < i ==> jv_paths(*v)[j] is Some,
            forall|j: int| 0 <= j < i ==> paths@[j]@ == jv_paths(*v)[j]->0,
        decreases n - i,
    {
        match path_at(v, i) {
            Some(p) => {
                paths.push(p);
            },
            None => {
                return Err(ProtocolError::MissingPath);
            },
        }
        i += 1;
    }
    match page_count_of(v) {
        Some(last_page) => Ok(ResultPage { paths, last_page }),
        None => Err(ProtocolError::MissingPageCount),
    }
}

/// Parses a response body and reads its result page. The page and the
/// success of each step are functions of the body's characters alone.
pub fn parse_response(text: &str) -> (r: Result<ResultPage, ProtocolError>)
    ensures
        r is Ok <==> (json_wf(text@) && response_last_page(text@) is Some && forall|i: int|
            0 <= i < response_paths(text@).len() ==> response_paths(text@)[i] is Some),
        r is Ok ==> r->Ok_0.paths@.len() == response_paths(text@).len(),
        r is Ok ==> forall|i: int|
            0 <= i < response_paths(text@).len() ==> r->Ok_0.paths@[i]@ == response_paths(
                text@,
            )[i]->0,
        r is Ok ==> Some(r->Ok_0.last_page) == response_last_page(text@),
        r is Err ==> (r->Err_0 is Malformed <==> !json_wf(text@)),
        r is Err ==> (r->Err_0 is MissingPath <==> (json_wf(text@) && exists|i: int|
            0 <= i < response_paths(text@).len() && response_paths(text@)[i] is None)),
        r is Err ==> (r->Err_0 is MissingPageCount <==> (json_wf(text@) && (forall|i: int|
            0 <= i < response_paths(text@).len() ==> response_paths(text@)[i] is Some)
            && response_last_page(text@) is None)),
{
    match parse_json(text) {
        Ok(v) => read_page(&v),
        Err(_) => Err(ProtocolError::Malformed),
    }
}

} // verus!
