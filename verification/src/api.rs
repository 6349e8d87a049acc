//! What every request builder shares: the values that can be sent as a query
//! parameter, and the rules by which they enter the parameter mapping.

use crate::error::{builder_error, BuilderErrorKindView, Error, ErrorView};
use crate::params::{offered, with_value, Offer, RequestParameters};
use crate::text::{join, joined, texts};
use crate::time::{rfc3339_text, text_of, Timestamp};
use vstd::prelude::*;
use vstd::string::StringExecFns;

verus! {

/// A value with a wire form: the text that stands for it in a query string.
pub trait WireValue {
    /// The wire form.
    spec fn wire(&self) -> Seq<char>;

    /// Renders the wire form.
    fn to_wire(&self) -> (s: String)
        ensures
            s@ == self.wire(),
    ;
}

impl<'a> WireValue for &'a str {
    open spec fn wire(&self) -> Seq<char> {
        self@
    }

    fn to_wire(&self) -> (s: String) {
        String::from_str(*self)
    }
}

impl WireValue for String {
    open spec fn wire(&self) -> Seq<char> {
        self@
    }

    fn to_wire(&self) -> (s: String) {
        self.clone()
    }
}

impl WireValue for bool {
    open spec fn wire(&self) -> Seq<char> {
        if *self {
            "true"@
        } else {
            "false"@
        }
    }

    fn to_wire(&self) -> (s: String) {
        if *self {
            String::from_str("true")
        } else {
            String::from_str("false")
        }
    }
}

impl WireValue for u32 {
    open spec fn wire(&self) -> Seq<char> {
        crate::text::decimal_text(*self as nat)
    }

    fn to_wire(&self) -> (s: String) {
        crate::text::decimal_string(*self)
    }
}

impl<'a, V: WireValue> WireValue for &'a V {
    open spec fn wire(&self) -> Seq<char> {
        (**self).wire()
    }

    fn to_wire(&self) -> (s: String) {
        (**self).to_wire()
    }
}

/// The wire form of an optional value.
pub open spec fn wire_of<V: WireValue>(value: Option<V>) -> Option<Seq<char>> {
    match value {
        Some(v) => Some(v.wire()),
        None => None,
    }
}

/// The wire forms of `values`, in order.
pub open spec fn wire_forms<V: WireValue>(values: Seq<V>) -> Seq<Seq<char>> {
    values.map_values(|v: V| v.wire())
}

/// The members of `parts` that are not empty, in order.
pub open spec fn without_empty(parts: Seq<Seq<char>>) -> Seq<Seq<char>>
    decreases parts.len(),
{
    if parts.len() == 0 {
        Seq::empty()
    } else if parts.last().len() > 0 {
        without_empty(parts.drop_last()).push(parts.last())
    } else {
        without_empty(parts.drop_last())
    }
}

/// The wire form of a list of texts: the texts that are not empty, joined by
/// commas.
pub open spec fn text_list(parts: Seq<Seq<char>>) -> Seq<char> {
    joined(without_empty(parts), ","@)
}

/// The wire form of a list: its members' non-empty wire forms, joined by
/// commas.
pub open spec fn list_wire<V: WireValue>(values: Seq<V>) -> Seq<char> {
    text_list(wire_forms(values))
}

/// The wire form of an optional list.
pub open spec fn list_wire_of<V: WireValue>(value: Option<&Vec<V>>) -> Option<Seq<char>> {
    match value {
        Some(v) => Some(list_wire(v@)),
        None => None,
    }
}

/// The wire form of an optional instant: absent too where the instant has no
/// RFC 3339 text.
pub open spec fn time_wire_of(value: Option<Timestamp>) -> Option<Seq<char>> {
    match value {
        Some(t) => rfc3339_text(t.seconds as int),
        None => None,
    }
}

/// Renders the wire form of a list.
pub fn list_to_wire<V: WireValue>(values: &Vec<V>) -> (s: String)
    ensures
        s@ == list_wire(values@),
{
    let mut kept: Vec<String> = Vec::new();
    let mut i: usize = 0;
    assert(texts(kept@) =~= without_empty(wire_forms(values@).take(0)));
    while i < values.len()
        invariant
            i <= values@.len(),
            texts(kept@) == without_empty(wire_forms(values@).take(i as int)),
        decreases values@.len() - i,
    {
        let ghost before = texts(kept@);
        let text = values[i].to_wire();
        assert(wire_forms(values@).take(i as int + 1).drop_last() =~= wire_forms(values@).take(
            i as int,
        ));
        assert(wire_forms(values@).take(i as int + 1).last() == values@[i as int].wire());
        if !text.as_str().is_empty() {
            kept.push(text);
            assert(texts(kept@) =~= before.push(values@[i as int].wire()));
        }
        i = i + 1;
    }
    assert(wire_forms(values@).take(i as int) =~= wire_forms(values@));
    join(&kept, ",")
}

/// Renders the wire form of an optional value.
pub fn rendered<V: WireValue>(value: Option<V>) -> (out: Option<String>)
    ensures
        text_of(out) == wire_of(value),
{
    match value {
        Some(v) => Some(v.to_wire()),
        None => None,
    }
}

/// Renders the wire form of an optional list.
pub fn rendered_list<V: WireValue>(value: Option<&Vec<V>>) -> (out: Option<String>)
    ensures
        text_of(out) == list_wire_of(value),
{
    match value {
        Some(v) => Some(list_to_wire(v)),
        None => None,
    }
}

/// Renders the wire form of an optional instant.
pub fn rendered_time(value: Option<Timestamp>) -> (out: Option<String>)
    ensures
        text_of(out) == time_wire_of(value),
{
    match value {
        Some(instant) => instant.to_rfc3339(),
        None => None,
    }
}

/// The names and values of `offers` as texts, in order.
pub open spec fn offer_texts(offers: Seq<(&'static str, Option<String>)>) -> Seq<Offer> {
    offers.map_values(|offer: (&'static str, Option<String>)| (offer.0@, text_of(offer.1)))
}

/// The base of every request builder: the path of its endpoint, and the rules
/// by which a value enters the query parameters.
pub trait DataApi {
    /// The endpoint's path below the API's base.
    fn api_path(&self) -> &str;

    /// Sets `key` to the wire form of `value`, unless the value is absent or
    /// its wire form is empty.
    fn insert_query_parameter<V: WireValue>(
        &self,
        map: &mut RequestParameters,
        key: &str,
        value: Option<V>,
    )
        ensures
            final(map)@ == with_value(old(map)@, key@, wire_of(value)),
    {
        if let Some(v) = value {
            let text = v.to_wire();
            if !text.as_str().is_empty() {
                map.insert(String::from_str(key), text);
            }
        }
    }

    /// Sets `key` to the comma-joined non-empty wire forms of the members of
    /// `value`, unless the list is absent or nothing is left to join.
    fn insert_query_parameters<V: WireValue>(
        &self,
        map: &mut RequestParameters,
        key: &str,
        value: Option<&Vec<V>>,
    )
        ensures
            final(map)@ == with_value(old(map)@, key@, list_wire_of(value)),
    {
        self.insert_query_parameter(map, key, rendered_list(value));
    }

    /// Sets `key` to the RFC 3339 text of `value`, unless the instant is
    /// absent or has no such text.
    fn insert_date_time_query_parameter(
        &self,
        map: &mut RequestParameters,
        key: &str,
        value: Option<Timestamp>,
    )
        ensures
            final(map)@ == with_value(old(map)@, key@, time_wire_of(value)),
    {
        self.insert_query_parameter(map, key, rendered_time(value));
    }

    /// Offers every parameter of `offers`, in order: each enters as
    /// `insert_query_parameter` lets it.
    fn insert_offers(&self, map: &mut RequestParameters, offers: &Vec<(&'static str, Option<String>)>)
        ensures
            final(map)@ == offered(old(map)@, offer_texts(offers@)),
    {
        let mut i: usize = 0;
        assert(offer_texts(offers@).take(0) =~= Seq::<Offer>::empty());
        while i < offers.len()
            invariant
                i <= offers@.len(),
                map@ == offered(old(map)@, offer_texts(offers@).take(i as int)),
            decreases offers@.len() - i,
        {
            let ghost next = offer_texts(offers@).take(i as int + 1);
            assert(next.drop_last() =~= offer_texts(offers@).take(i as int));
            assert(next.last() == (offers@[i as int].0@, text_of(offers@[i as int].1)));
            self.insert_query_parameter(map, offers[i].0, offers[i].1.as_ref());
            i = i + 1;
        }
        assert(offer_texts(offers@).take(i as int) =~= offer_texts(offers@));
    }
}

/// A request as contracts see its outcome: the query parameters to send, or
/// the error that stopped it.
pub open spec fn outcome_of(result: Result<RequestParameters, Error>) -> Result<
    Map<Seq<char>, Seq<char>>,
    ErrorView,
> {
    match result {
        Ok(params) => Ok(params@),
        Err(error) => Err(error@),
    }
}

/// An optional error as contracts see it.
pub open spec fn error_view(error: Option<Error>) -> Option<ErrorView> {
    match error {
        Some(e) => Some(e@),
        None => None,
    }
}

/// A request builder for a list endpoint.
pub trait ListApi: DataApi {
    /// What finishing the builder gives: the query parameters of the request,
    /// or the first rule that the configuration breaks.
    spec fn outcome(&self) -> Result<Map<Seq<char>, Seq<char>>, ErrorView>;

    /// Checks the configuration against the endpoint's rules and gives the
    /// query parameters to send. The builder is left as it was.
    fn request(&self) -> (result: Result<RequestParameters, Error>)
        ensures
            outcome_of(result) == self.outcome(),
    ;
}

/// The names of the members of a filter group that are set, in the order in
/// which the group declares them.
pub open spec fn set_names(group: Seq<(bool, Seq<char>)>) -> Seq<Seq<char>>
    decreases group.len(),
{
    if group.len() == 0 {
        Seq::empty()
    } else if group.last().0 {
        set_names(group.drop_last()).push(group.last().1)
    } else {
        set_names(group.drop_last())
    }
}

/// A filter group with its names as texts.
pub open spec fn group_texts(group: Seq<(bool, &'static str)>) -> Seq<(bool, Seq<char>)> {
    group.map_values(|member: (bool, &'static str)| (member.0, member.1@))
}

/// Collects the names of the members of a filter group that are set.
pub fn selected(group: &Vec<(bool, &'static str)>) -> (names: Vec<String>)
    ensures
        texts(names@) == set_names(group_texts(group@)),
{
    let mut names: Vec<String> = Vec::new();
    let mut i: usize = 0;
    assert(group_texts(group@).take(0) =~= Seq::<(bool, Seq<char>)>::empty());
    assert(texts(names@) =~= set_names(group_texts(group@).take(0)));
    while i < group.len()
        invariant
            i <= group@.len(),
            texts(names@) == set_names(group_texts(group@).take(i as int)),
        decreases group@.len() - i,
    {
        let ghost before = texts(names@);
        let ghost next = group_texts(group@).take(i as int + 1);
        assert(next.drop_last() =~= group_texts(group@).take(i as int));
        assert(next.last() == (group@[i as int].0, group@[i as int].1@));
        if group[i].0 {
            names.push(String::from_str(group[i].1));
            assert(texts(names@) =~= before.push(group@[i as int].1@));
        }
        i = i + 1;
    }
    assert(group_texts(group@).take(i as int) =~= group_texts(group@));
    names
}

/// The error for a filter group of which more than one member is set: it
/// names the members that are set, separated by a comma and a space.
pub open spec fn incompatible(names: Seq<Seq<char>>) -> ErrorView {
    builder_error(
        BuilderErrorKindView::IncompatibleParameters {
            message: "Incompatible parameters specified in the request: "@ + joined(names, ", "@),
        },
    )
}

/// Builds the error for a filter group of which more than one member is set.
pub fn incompatible_error(names: &Vec<String>) -> (error: Error)
    ensures
        error@ == incompatible(texts(names@)),
{
    let mut message = String::from_str("Incompatible parameters specified in the request: ");
    message.append(join(names, ", ").as_str());
    Error::incompatible_parameters(message.as_str())
}

/// The error for a parameter that needs an authorized caller.
pub open spec fn unauthorized(parameter: Seq<char>) -> ErrorView {
    builder_error(
        BuilderErrorKindView::AuthorizationRequired {
            message: "The request uses the `"@ + parameter
                + "` parameter but is not properly authorized"@,
        },
    )
}

/// Builds the error for a parameter that needs an authorized caller.
pub fn unauthorized_error(parameter: &str) -> (error: Error)
    ensures
        error@ == unauthorized(parameter@),
{
    let mut message = String::from_str("The request uses the `");
    message.append(parameter);
    message.append("` parameter but is not properly authorized");
    Error::authorization_required(message.as_str())
}

/// The error for a request that holds an invalid argument, with the reason in
/// `detail`.
pub open spec fn invalid_argument(detail: Seq<char>) -> ErrorView {
    builder_error(
        BuilderErrorKindView::InvalidParameter {
            message: "Request contains an invalid argument: "@ + detail,
        },
    )
}

/// Builds the error for a request that holds an invalid argument.
pub fn invalid_argument_error(detail: &str) -> (error: Error)
    ensures
        error@ == invalid_argument(detail@),
{
    let mut message = String::from_str("Request contains an invalid argument: ");
    message.append(detail);
    Error::invalid_parameter(message.as_str())
}

/// The text of an optional string slice.
pub open spec fn str_text(value: Option<&str>) -> Option<Seq<char>> {
    match value {
        Some(s) => Some(s@),
        None => None,
    }
}

/// The one name of a member of a filter group that is set; nothing for a
/// member that is not.
pub open spec fn named_if(set: bool, name: Seq<char>) -> Seq<Seq<char>> {
    if set {
        seq![name]
    } else {
        Seq::empty()
    }
}

/// The names that a filter group gives with one more member declared are
/// those of the group, followed by the new member's name where it is set.
pub proof fn lemma_set_names_push(group: Seq<(bool, Seq<char>)>, member: (bool, Seq<char>))
    ensures
        set_names(group.push(member)) == set_names(group) + named_if(member.0, member.1),
{
    assert(group.push(member).drop_last() =~= group);
    assert(set_names(group.push(member)) =~= set_names(group) + named_if(member.0, member.1));
}

/// The names of a filter group of three members.
pub proof fn lemma_set_names_three(
    a: (bool, Seq<char>),
    b: (bool, Seq<char>),
    c: (bool, Seq<char>),
)
    ensures
        set_names(seq![a, b, c]) == named_if(a.0, a.1) + named_if(b.0, b.1) + named_if(c.0, c.1),
{
    let none = Seq::<(bool, Seq<char>)>::empty();
    lemma_set_names_push(none, a);
    lemma_set_names_push(none.push(a), b);
    lemma_set_names_push(none.push(a).push(b), c);
    assert(seq![a, b, c] =~= none.push(a).push(b).push(c));
    assert(set_names(none) =~= Seq::<Seq<char>>::empty());
    assert(set_names(seq![a, b, c]) =~= named_if(a.0, a.1) + named_if(b.0, b.1) + named_if(
        c.0,
        c.1,
    ));
}

} // verus!
