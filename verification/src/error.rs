//! The error taxonomy: failures found while a request is built, failures of
//! the transport, and the error payloads that the API answers with.

use crate::status::{status_line_text, StatusCode};
use crate::text::{
    join, joined, lemma_bytes_le_reflexive, lemma_pair_order_total, pair_order, pair_texts,
    sort_pairs, text_le, texts, Pair,
};
use crate::time::text_of;
use vstd::prelude::*;
use vstd::relations::sorted_by;
use vstd::utf8::encode_utf8;
use vstd::string::StringExecFns;

verus! {

/// One violation reported inside an error payload of the API.
#[derive(Debug)]
pub struct YouTubeErrorDetail {
    pub message: String,
    pub domain: String,
    pub reason: String,
    pub location: Option<String>,
    pub location_type: Option<String>,
}

/// `prefix`, then `value` between double quotes; nothing for an absent value.
pub open spec fn labelled(prefix: Seq<char>, value: Option<String>) -> Seq<char> {
    match value {
        Some(text) => prefix + text@ + "\""@,
        None => Seq::empty(),
    }
}

fn append_labelled(out: &mut String, prefix: &str, value: &Option<String>)
    ensures
        final(out)@ == old(out)@ + labelled(prefix@, *value),
{
    match value {
        Some(text) => {
            out.append(prefix);
            out.append(text.as_str());
            out.append("\"");
            assert(out@ =~= old(out)@ + labelled(prefix@, *value));
        },
        None => {
            assert(out@ =~= old(out)@ + labelled(prefix@, *value));
        },
    }
}

impl YouTubeErrorDetail {
    /// The violation in words: message, domain and reason, then the location
    /// and its type where the payload gave them.
    pub open spec fn text(&self) -> Seq<char> {
        "message: \""@ + self.message@ + "\", domain: \""@ + self.domain@ + "\", reason: \""@
            + self.reason@ + "\""@ + labelled(", location: \""@, self.location) + labelled(
            ", location_type: \""@,
            self.location_type,
        )
    }

    /// Renders the violation in words.
    pub fn to_text(&self) -> (out: String)
        ensures
            out@ == self.text(),
    {
        let mut out = String::from_str("message: \"");
        out.append(self.message.as_str());
        out.append("\", domain: \"");
        out.append(self.domain.as_str());
        out.append("\", reason: \"");
        out.append(self.reason.as_str());
        out.append("\"");
        append_labelled(&mut out, ", location: \"", &self.location);
        append_labelled(&mut out, ", location_type: \"", &self.location_type);
        assert(out@ =~= self.text());
        out
    }
}

/// The texts of `details`, in order.
pub open spec fn detail_texts(details: Seq<YouTubeErrorDetail>) -> Seq<Seq<char>> {
    details.map_values(|d: YouTubeErrorDetail| d.text())
}

/// The body of an error payload of the API.
#[derive(Debug)]
pub struct YouTubeErrorRepr {
    pub code: StatusCode,
    pub message: String,
    pub errors: Vec<YouTubeErrorDetail>,
    pub status: Option<String>,
}

impl YouTubeErrorRepr {
    /// The payload in words behind a given status line: the line, the status
    /// name where the payload gave one, the message, and every violation
    /// between square brackets, separated by a comma and a space.
    pub open spec fn text_after(&self, status_line: Seq<char>) -> Seq<char> {
        status_line + labelled(" status: \""@, self.status) + " message: \""@ + self.message@
            + "\" ["@ + joined(detail_texts(self.errors@), ", "@) + "]"@
    }

    /// The payload in words: as `text_after` says, behind the status line of
    /// the payload's code.
    pub open spec fn text(&self) -> Seq<char> {
        self.text_after(status_line_text(self.code.number()))
    }

    /// Renders the payload in words behind the status line `status_line`.
    pub fn to_text_after(&self, status_line: String) -> (out: String)
        ensures
            out@ == self.text_after(status_line@),
    {
        let mut out = status_line;
        append_labelled(&mut out, " status: \"", &self.status);
        out.append(" message: \"");
        out.append(self.message.as_str());
        out.append("\" [");
        let mut parts: Vec<String> = Vec::new();
        let mut i: usize = 0;
        assert(texts(parts@) =~= detail_texts(self.errors@).take(0));
        while i < self.errors.len()
            invariant
                i <= self.errors@.len(),
                texts(parts@) == detail_texts(self.errors@).take(i as int),
            decreases self.errors@.len() - i,
        {
            let ghost before = texts(parts@);
            let part = self.errors[i].to_text();
            parts.push(part);
            assert(texts(parts@) =~= before.push(self.errors@[i as int].text()));
            assert(texts(parts@) =~= detail_texts(self.errors@).take(i as int + 1));
            i = i + 1;
        }
        assert(detail_texts(self.errors@).take(i as int) =~= detail_texts(self.errors@));
        let list = join(&parts, ", ");
        out.append(list.as_str());
        out.append("]");
        assert(out@ =~= self.text_after(status_line@));
        out
    }

    /// Renders the payload in words.
    pub fn to_text(&self) -> (out: String)
        ensures
            out@ == self.text(),
    {
        self.to_text_after(self.code.to_text())
    }
}

/// An error payload of the API.
#[derive(Debug)]
pub struct YouTubeError {
    error: YouTubeErrorRepr,
}

impl YouTubeError {
    /// The body of the payload.
    pub closed spec fn repr(&self) -> YouTubeErrorRepr {
        self.error
    }

    /// The payload in words.
    pub open spec fn text(&self) -> Seq<char> {
        self.repr().text()
    }

    /// The payload with the given status code, message, violations and
    /// status name.
    pub fn new(
        code: StatusCode,
        message: String,
        errors: Vec<YouTubeErrorDetail>,
        status: Option<String>,
    ) -> (e: YouTubeError)
        ensures
            e.repr().code == code,
            e.repr().message == message,
            e.repr().errors == errors,
            e.repr().status == status,
    {
        YouTubeError { error: YouTubeErrorRepr { code, message, errors, status } }
    }

    /// The status code of the payload.
    pub fn code(&self) -> (code: StatusCode)
        ensures
            code == self.repr().code,
    {
        self.error.code
    }

    /// The top-level message of the payload.
    pub fn message(&self) -> (message: &str)
        ensures
            message@ == self.repr().message@,
    {
        self.error.message.as_str()
    }

    /// The violations that the payload lists.
    pub fn errors(&self) -> (errors: &Vec<YouTubeErrorDetail>)
        ensures
            *errors == self.repr().errors,
    {
        &self.error.errors
    }

    /// The status name of the payload, where it gave one.
    pub fn status(&self) -> (status: Option<&str>)
        ensures
            status is Some <==> self.repr().status is Some,
            status is Some ==> status.unwrap()@ == self.repr().status.unwrap()@,
    {
        match &self.error.status {
            Some(name) => Some(name.as_str()),
            None => None,
        }
    }

    /// Renders the payload in words.
    pub fn to_text(&self) -> (out: String)
        ensures
            out@ == self.text(),
    {
        self.error.to_text()
    }
}

/// What diagnostics show of the URL of a request: its path, and the pairs of
/// its query as they were sent.
#[derive(Debug)]
pub struct RequestUrl {
    pub path: String,
    pub query: Vec<(String, String)>,
}

/// A pair of a query with its value hidden where it is the authentication
/// key.
pub open spec fn redact(pair: Pair) -> Pair {
    if pair.0 == "key"@ {
        (pair.0, "[API_KEY]"@)
    } else {
        pair
    }
}

/// The pairs of a query, each with the authentication key's value hidden.
pub open spec fn redacted(query: Seq<Pair>) -> Seq<Pair> {
    query.map_values(|pair: Pair| redact(pair))
}

/// A pair of a query as it stands in a URL: key, `=`, value.
pub open spec fn assignment(pair: Pair) -> Seq<char> {
    pair.0 + "="@ + pair.1
}

/// The pairs of a query as they stand in a URL, in order.
pub open spec fn assignments(query: Seq<Pair>) -> Seq<Seq<char>> {
    query.map_values(|pair: Pair| assignment(pair))
}

/// The form in which diagnostics show a URL: the path, `?`, and the pairs of
/// the query joined by `&`, with the authentication key's value hidden and
/// the pairs in the order of their keys (and of their shown values, among
/// equal keys).
pub open spec fn diagnostic_url(path: Seq<char>, query: Seq<Pair>) -> Seq<char> {
    path + "?"@ + joined(assignments(redacted(query).sort_by(pair_order())), "&"@)
}

/// The diagnostic form of an optional URL.
pub open spec fn sensitive_replaced(url: Option<RequestUrl>) -> Option<Seq<char>> {
    match url {
        Some(u) => Some(diagnostic_url(u.path@, pair_texts(u.query@))),
        None => None,
    }
}

/// Renders a URL for diagnostics, with the authentication key's value hidden
/// and the query in a fixed order.
pub fn replace_sensitive_query_params(url: Option<RequestUrl>) -> (out: Option<String>)
    ensures
        text_of(out) == sensitive_replaced(url),
{
    let url = match url {
        Some(u) => u,
        None => {
            return None;
        },
    };
    let secret = String::from_str("key");
    let mut hidden: Vec<(String, String)> = Vec::new();
    let mut i: usize = 0;
    assert(pair_texts(hidden@) =~= redacted(pair_texts(url.query@)).take(0));
    while i < url.query.len()
        invariant
            i <= url.query@.len(),
            secret@ == "key"@,
            pair_texts(hidden@) == redacted(pair_texts(url.query@)).take(i as int),
        decreases url.query@.len() - i,
    {
        let ghost before = pair_texts(hidden@);
        let key = url.query[i].0.clone();
        let value = if key == secret {
            String::from_str("[API_KEY]")
        } else {
            url.query[i].1.clone()
        };
        hidden.push((key, value));
        assert(pair_texts(hidden@) =~= before.push(redact(pair_texts(url.query@)[i as int])));
        assert(pair_texts(hidden@) =~= redacted(pair_texts(url.query@)).take(i as int + 1));
        i = i + 1;
    }
    assert(redacted(pair_texts(url.query@)).take(i as int) =~= redacted(pair_texts(url.query@)));
    let sorted = sort_pairs(hidden);
    let mut parts: Vec<String> = Vec::new();
    let mut j: usize = 0;
    assert(texts(parts@) =~= assignments(pair_texts(sorted@)).take(0));
    while j < sorted.len()
        invariant
            j <= sorted@.len(),
            texts(parts@) == assignments(pair_texts(sorted@)).take(j as int),
        decreases sorted@.len() - j,
    {
        let ghost before = texts(parts@);
        let mut part = sorted[j].0.clone();
        part.append("=");
        part.append(sorted[j].1.as_str());
        parts.push(part);
        assert(texts(parts@) =~= before.push(assignment(pair_texts(sorted@)[j as int])));
        assert(texts(parts@) =~= assignments(pair_texts(sorted@)).take(j as int + 1));
        j = j + 1;
    }
    assert(assignments(pair_texts(sorted@)).take(j as int) =~= assignments(pair_texts(sorted@)));
    let mut out = url.path.clone();
    out.append("?");
    out.append(join(&parts, "&").as_str());
    Some(out)
}

/// The diagnostic form of a URL does not depend on the values that its query
/// gives the authentication key: two queries that differ in those values alone
/// are shown alike.
pub proof fn lemma_key_value_hidden(path: Seq<char>, first: Seq<Pair>, second: Seq<Pair>)
    requires
        first.len() == second.len(),
        forall|i: int| 0 <= i < first.len() ==> (#[trigger] first[i]).0 == second[i].0,
        forall|i: int|
            0 <= i < first.len() && (#[trigger] first[i]).0 != "key"@ ==> first[i].1 == second[i].1,
    ensures
        diagnostic_url(path, first) == diagnostic_url(path, second),
{
    assert(redacted(first) =~= redacted(second)) by {
        assert forall|i: int| 0 <= i < first.len() implies redacted(first)[i] == redacted(
            second,
        )[i] by {
            assert(first[i].0 == second[i].0);
        }
    }
}

/// The pairs that the diagnostic form of a URL shows are as many as the query
/// has and stand in the order of pairs, so that their keys stand in the order
/// of texts; and each of them that has the authentication key's name shows
/// the placeholder for its value.
pub proof fn lemma_shown_pairs(query: Seq<Pair>)
    ensures
        sorted_by(redacted(query).sort_by(pair_order()), pair_order()),
        redacted(query).sort_by(pair_order()).len() == query.len(),
        forall|i: int, j: int|
            0 <= i < j < query.len() ==> text_le(
                (#[trigger] redacted(query).sort_by(pair_order())[i]).0,
                (#[trigger] redacted(query).sort_by(pair_order())[j]).0,
            ),
        forall|i: int|
            0 <= i < query.len() && (#[trigger] redacted(query).sort_by(pair_order())[i]).0
                == "key"@ ==> assignment(redacted(query).sort_by(pair_order())[i]) == "key"@
                + "="@ + "[API_KEY]"@,
{
    broadcast use vstd::seq_lib::group_to_multiset_ensures;

    let hidden = redacted(query);
    let shown = hidden.sort_by(pair_order());
    lemma_pair_order_total();
    hidden.lemma_sort_by_ensures(pair_order());
    assert(shown.len() == hidden.len()) by {
        assert(shown.to_multiset().len() == hidden.to_multiset().len());
    }
    assert forall|i: int, j: int| 0 <= i < j < query.len() implies text_le(
        (#[trigger] shown[i]).0,
        (#[trigger] shown[j]).0,
    ) by {
        assert(pair_order()(shown[i], shown[j]));
        lemma_bytes_le_reflexive(encode_utf8(shown[i].0));
    }
    assert forall|i: int| 0 <= i < query.len() && (#[trigger] shown[i]).0 == "key"@ implies shown[i].1
        == "[API_KEY]"@ by {
        assert(shown.contains(shown[i]));
        assert(hidden.contains(shown[i]));
        let j = choose|j: int| 0 <= j < hidden.len() && hidden[j] == shown[i];
        assert(hidden[j] == redact(query[j]));
    }
}

/// The pairs of two queries with the same pairs, in whatever order, are the
/// same once the authentication key's value is hidden.
pub proof fn lemma_redacted_same_pairs(first: Seq<Pair>, second: Seq<Pair>)
    requires
        first.to_multiset() == second.to_multiset(),
    ensures
        redacted(first).to_multiset() == redacted(second).to_multiset(),
    decreases first.len(),
{
    broadcast use vstd::seq_lib::group_to_multiset_ensures;

    first.to_multiset_ensures();
    second.to_multiset_ensures();
    if first.len() == 0 {
        assert(redacted(first) =~= redacted(second));
    } else {
        let last = first.last();
        assert(first.contains(last));
        assert(second.to_multiset().count(last) > 0);
        assert(second.contains(last));
        let j = choose|j: int| 0 <= j < second.len() && second[j] == last;
        let front = first.drop_last();
        let rest = second.remove(j);
        assert(front =~= first.remove(first.len() - 1));
        assert(front.to_multiset() =~= rest.to_multiset());
        lemma_redacted_same_pairs(front, rest);
        assert(redacted(first) =~= redacted(front).push(redact(last)));
        assert(redacted(second).remove(j) =~= redacted(rest));
        assert(redacted(second)[j] == redact(last));
        assert(redacted(second).contains(redact(last)));
        assert(redacted(second).to_multiset() =~= redacted(rest).to_multiset().insert(
            redact(last),
        ));
    }
}

/// The diagnostic form of a URL does not depend on the order in which its
/// query holds its pairs.
pub proof fn lemma_query_order_fixed(path: Seq<char>, first: Seq<Pair>, second: Seq<Pair>)
    requires
        first.to_multiset() == second.to_multiset(),
    ensures
        diagnostic_url(path, first) == diagnostic_url(path, second),
{
    lemma_redacted_same_pairs(first, second);
    lemma_pair_order_total();
    redacted(first).lemma_sort_by_ensures(pair_order());
    redacted(second).lemma_sort_by_ensures(pair_order());
    vstd::seq_lib::lemma_sorted_unique(
        redacted(first).sort_by(pair_order()),
        redacted(second).sort_by(pair_order()),
        pair_order(),
    );
}

/// A failure found while a request was built, before anything was sent.
#[derive(Debug)]
pub enum BuilderErrorKind {
    /// The request specifies an invalid parameter value.
    InvalidParameter { message: String },
    /// The request specifies parameters that cannot be used together.
    IncompatibleParameters { message: String },
    /// The request lacks a required parameter.
    MissingRequiredParameter { message: String },
    /// The request uses a parameter that needs an authorized caller.
    AuthorizationRequired { message: String },
}

/// A `BuilderErrorKind` with its message as text.
pub enum BuilderErrorKindView {
    InvalidParameter { message: Seq<char> },
    IncompatibleParameters { message: Seq<char> },
    MissingRequiredParameter { message: Seq<char> },
    AuthorizationRequired { message: Seq<char> },
}

impl BuilderErrorKindView {
    /// The message, whatever the kind.
    pub open spec fn message(self) -> Seq<char> {
        match self {
            BuilderErrorKindView::InvalidParameter { message } => message,
            BuilderErrorKindView::IncompatibleParameters { message } => message,
            BuilderErrorKindView::MissingRequiredParameter { message } => message,
            BuilderErrorKindView::AuthorizationRequired { message } => message,
        }
    }
}

impl View for BuilderErrorKind {
    type V = BuilderErrorKindView;

    open spec fn view(&self) -> BuilderErrorKindView {
        match self {
            BuilderErrorKind::InvalidParameter { message } => BuilderErrorKindView::InvalidParameter {
                message: message@,
            },
            BuilderErrorKind::IncompatibleParameters {
                message,
            } => BuilderErrorKindView::IncompatibleParameters { message: message@ },
            BuilderErrorKind::MissingRequiredParameter {
                message,
            } => BuilderErrorKindView::MissingRequiredParameter { message: message@ },
            BuilderErrorKind::AuthorizationRequired {
                message,
            } => BuilderErrorKindView::AuthorizationRequired { message: message@ },
        }
    }
}

impl BuilderErrorKind {
    /// The message, whatever the kind.
    pub fn message(&self) -> (message: &str)
        ensures
            message@ == self@.message(),
    {
        match self {
            BuilderErrorKind::InvalidParameter { message } => message.as_str(),
            BuilderErrorKind::IncompatibleParameters { message } => message.as_str(),
            BuilderErrorKind::MissingRequiredParameter { message } => message.as_str(),
            BuilderErrorKind::AuthorizationRequired { message } => message.as_str(),
        }
    }
}

/// The kind of an error.
#[derive(Debug)]
pub enum ErrorKind {
    /// The request could not be built.
    BuilderError(BuilderErrorKind),
    /// The API answered with a client error.
    ClientError,
    /// The API answered with a server error.
    ServerError,
    /// The transport failed.
    ReqwestError,
}

/// An `ErrorKind` with its message as text.
pub enum ErrorKindView {
    BuilderError(BuilderErrorKindView),
    ClientError,
    ServerError,
    ReqwestError,
}

impl View for ErrorKind {
    type V = ErrorKindView;

    open spec fn view(&self) -> ErrorKindView {
        match self {
            ErrorKind::BuilderError(kind) => ErrorKindView::BuilderError(kind@),
            ErrorKind::ClientError => ErrorKindView::ClientError,
            ErrorKind::ServerError => ErrorKindView::ServerError,
            ErrorKind::ReqwestError => ErrorKindView::ReqwestError,
        }
    }
}

/// What lies behind an error: a payload of the API, or the words of a failure
/// of the transport.
#[derive(Debug)]
pub enum ErrorSource {
    Api(YouTubeError),
    Other(String),
}

impl ErrorSource {
    /// The source in words.
    pub open spec fn text(&self) -> Seq<char> {
        match self {
            ErrorSource::Api(payload) => payload.text(),
            ErrorSource::Other(words) => words@,
        }
    }

    /// Renders the source in words.
    pub fn to_text(&self) -> (out: String)
        ensures
            out@ == self.text(),
    {
        match self {
            ErrorSource::Api(payload) => payload.to_text(),
            ErrorSource::Other(words) => words.clone(),
        }
    }
}

/// The words of an optional source.
pub open spec fn source_text(source: Option<ErrorSource>) -> Option<Seq<char>> {
    match source {
        Some(s) => Some(s.text()),
        None => None,
    }
}

/// An error as contracts see it: its kind, the words of its source and the
/// diagnostic form of the URL of the request that failed.
pub struct ErrorView {
    pub kind: ErrorKindView,
    pub source: Option<Seq<char>>,
    pub url: Option<Seq<char>>,
}

impl ErrorView {
    /// The error says that a parameter has an invalid value.
    pub open spec fn is_invalid_parameter(self) -> bool {
        match self.kind {
            ErrorKindView::BuilderError(BuilderErrorKindView::InvalidParameter { .. }) => true,
            _ => false,
        }
    }

    /// The error says that parameters cannot be used together.
    pub open spec fn is_incompatible_parameters(self) -> bool {
        match self.kind {
            ErrorKindView::BuilderError(BuilderErrorKindView::IncompatibleParameters { .. }) => true,
            _ => false,
        }
    }
}

/// The error of a request that could not be built: it has no source and no
/// URL.
pub open spec fn builder_error(kind: BuilderErrorKindView) -> ErrorView {
    ErrorView { kind: ErrorKindView::BuilderError(kind), source: None, url: None }
}

/// The words for the kind of an error.
pub open spec fn kind_text(kind: ErrorKindView) -> Seq<char> {
    match kind {
        ErrorKindView::BuilderError(builder) => "builder error: \""@ + builder.message() + "\""@,
        ErrorKindView::ClientError => "client error"@,
        ErrorKindView::ServerError => "server error"@,
        ErrorKindView::ReqwestError => "reqwest error"@,
    }
}

/// An error in words: its kind, then the URL and the source where it has
/// them.
pub open spec fn error_text(error: ErrorView) -> Seq<char> {
    kind_text(error.kind) + (match error.url {
        Some(url) => " for url (\""@ + url + "\")"@,
        None => Seq::empty(),
    }) + (match error.source {
        Some(source) => ": "@ + source,
        None => Seq::empty(),
    })
}

/// A `Result` whose error is this module's `Error`.
pub type Result<T> = core::result::Result<T, Error>;

/// Any failure of a request.
#[derive(Debug)]
pub struct Error {
    kind: ErrorKind,
    source: Option<ErrorSource>,
    url: Option<String>,
}

impl View for Error {
    type V = ErrorView;

    closed spec fn view(&self) -> ErrorView {
        ErrorView { kind: self.kind@, source: source_text(self.source), url: text_of(self.url) }
    }
}

impl Error {
    /// An error of the given kind. The URL is kept in its diagnostic form.
    pub fn new(kind: ErrorKind, source: Option<ErrorSource>, url: Option<RequestUrl>) -> (e: Error)
        ensures
            e@ == (ErrorView {
                kind: kind@,
                source: source_text(source),
                url: sensitive_replaced(url),
            }),
    {
        Error { kind, source, url: replace_sensitive_query_params(url) }
    }

    /// The request specifies an invalid parameter value.
    pub fn invalid_parameter(message: &str) -> (e: Error)
        ensures
            e@ == builder_error(BuilderErrorKindView::InvalidParameter { message: message@ }),
    {
        Error::new(
            ErrorKind::BuilderError(
                BuilderErrorKind::InvalidParameter { message: String::from_str(message) },
            ),
            None,
            None,
        )
    }

    /// The request specifies parameters that cannot be used together.
    pub fn incompatible_parameters(message: &str) -> (e: Error)
        ensures
            e@ == builder_error(BuilderErrorKindView::IncompatibleParameters { message: message@ }),
    {
        Error::new(
            ErrorKind::BuilderError(
                BuilderErrorKind::IncompatibleParameters { message: String::from_str(message) },
            ),
            None,
            None,
        )
    }

    /// The request lacks a required parameter.
    pub fn missing_required_parameter(message: &str) -> (e: Error)
        ensures
            e@ == builder_error(
                BuilderErrorKindView::MissingRequiredParameter { message: message@ },
            ),
    {
        Error::new(
            ErrorKind::BuilderError(
                BuilderErrorKind::MissingRequiredParameter { message: String::from_str(message) },
            ),
            None,
            None,
        )
    }

    /// The request uses a parameter that needs an authorized caller.
    pub fn authorization_required(message: &str) -> (e: Error)
        ensures
            e@ == builder_error(BuilderErrorKindView::AuthorizationRequired { message: message@ }),
    {
        Error::new(
            ErrorKind::BuilderError(
                BuilderErrorKind::AuthorizationRequired { message: String::from_str(message) },
            ),
            None,
            None,
        )
    }

    /// The API answered the request to `url` with the client error `source`.
    pub fn client_error(source: YouTubeError, url: RequestUrl) -> (e: Error)
        ensures
            e@ == (ErrorView {
                kind: ErrorKindView::ClientError,
                source: Some(source.text()),
                url: sensitive_replaced(Some(url)),
            }),
    {
        Error::new(ErrorKind::ClientError, Some(ErrorSource::Api(source)), Some(url))
    }

    /// The API answered the request to `url` with the server error `source`.
    pub fn server_error(source: YouTubeError, url: RequestUrl) -> (e: Error)
        ensures
            e@ == (ErrorView {
                kind: ErrorKindView::ServerError,
                source: Some(source.text()),
                url: sensitive_replaced(Some(url)),
            }),
    {
        Error::new(ErrorKind::ServerError, Some(ErrorSource::Api(source)), Some(url))
    }

    /// The API answered the request to `url` with the payload `source`: a
    /// server error where the payload's status code is one of 500 to 599, a
    /// client error otherwise.
    pub fn from_payload(source: YouTubeError, url: RequestUrl) -> (e: Error)
        ensures
            e@ == (ErrorView {
                kind: if 500 <= source.repr().code.number() <= 599 {
                    ErrorKindView::ServerError
                } else {
                    ErrorKindView::ClientError
                },
                source: Some(source.text()),
                url: sensitive_replaced(Some(url)),
            }),
    {
        if source.code().is_server_error() {
            Error::server_error(source, url)
        } else {
            Error::client_error(source, url)
        }
    }

    /// The transport failed, and says so in `words`.
    pub fn transport(words: String) -> (e: Error)
        ensures
            e@ == (ErrorView {
                kind: ErrorKindView::ReqwestError,
                source: Some(words@),
                url: None,
            }),
    {
        Error::new(ErrorKind::ReqwestError, Some(ErrorSource::Other(words)), None)
    }

    /// The kind of the error.
    pub fn kind(&self) -> (kind: &ErrorKind)
        ensures
            kind@ == self@.kind,
    {
        &self.kind
    }

    /// What lies behind the error, if anything.
    pub fn source(&self) -> (source: Option<&ErrorSource>)
        ensures
            source is Some <==> self@.source is Some,
            source is Some ==> Some(source.unwrap().text()) == self@.source,
    {
        self.source.as_ref()
    }

    /// The diagnostic form of the URL of the request that failed, if the
    /// error has one.
    pub fn url(&self) -> (url: Option<&str>)
        ensures
            url is Some <==> self@.url is Some,
            url is Some ==> Some(url.unwrap()@) == self@.url,
    {
        match &self.url {
            Some(text) => Some(text.as_str()),
            None => None,
        }
    }

    /// Renders the error in words.
    pub fn to_text(&self) -> (out: String)
        ensures
            out@ == error_text(self@),
    {
        let mut out = match &self.kind {
            ErrorKind::BuilderError(kind) => {
                let mut words = String::from_str("builder error: \"");
                words.append(kind.message());
                words.append("\"");
                words
            },
            ErrorKind::ClientError => String::from_str("client error"),
            ErrorKind::ServerError => String::from_str("server error"),
            ErrorKind::ReqwestError => String::from_str("reqwest error"),
        };
        assert(out@ =~= kind_text(self@.kind));
        if let Some(url) = &self.url {
            out.append(" for url (\"");
            out.append(url.as_str());
            out.append("\")");
        }
        if let Some(source) = &self.source {
            out.append(": ");
            out.append(source.to_text().as_str());
        }
        assert(out@ =~= error_text(self@));
        out
    }
}

} // verus!
