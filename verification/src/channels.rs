//! The channels endpoint: its request builder and its resources.

use crate::api::{
    error_view, group_texts, incompatible, incompatible_error, lemma_set_names_push,
    lemma_set_names_three, list_wire, named_if, offer_texts, rendered, rendered_list, selected,
    set_names, str_text, unauthorized, unauthorized_error, wire_of, DataApi, ListApi, WireValue,
};
use crate::error::{builder_error, BuilderErrorKindView, Error, ErrorView};
use crate::model::{ListResponse, Localization, Thumbnails};
use crate::params::{
    lemma_offered_holds, lemma_offered_no_empty, no_empty_value, offered, Offer, RequestParameters,
};
use crate::text::{decimal_text, joined, texts};
use crate::time::Timestamp;
use vstd::prelude::*;
use vstd::string::StringExecFns;

verus! {

/// The groups of fields that a channel resource can be asked to carry.
#[derive(Clone, Copy, Debug, PartialEq, Eq, Structural)]
pub enum Part {
    AuditDetails,
    BrandingSettings,
    ContentDetails,
    ContentOwnerDetails,
    Id,
    Localizations,
    Snippet,
    Statistics,
    Status,
    TopicDetails,
}

impl Part {
    /// The wire token of the part.
    pub fn as_str(&self) -> (token: &'static str)
        ensures
            token@ == self.wire(),
    {
        match self {
            Part::AuditDetails => "auditDetails",
            Part::BrandingSettings => "brandingSettings",
            Part::ContentDetails => "contentDetails",
            Part::ContentOwnerDetails => "contentOwnerDetails",
            Part::Id => "id",
            Part::Localizations => "localizations",
            Part::Snippet => "snippet",
            Part::Statistics => "statistics",
            Part::Status => "status",
            Part::TopicDetails => "topicDetails",
        }
    }
}

impl WireValue for Part {
    open spec fn wire(&self) -> Seq<char> {
        match self {
            Part::AuditDetails => "auditDetails"@,
            Part::BrandingSettings => "brandingSettings"@,
            Part::ContentDetails => "contentDetails"@,
            Part::ContentOwnerDetails => "contentOwnerDetails"@,
            Part::Id => "id"@,
            Part::Localizations => "localizations"@,
            Part::Snippet => "snippet"@,
            Part::Statistics => "statistics"@,
            Part::Status => "status"@,
            Part::TopicDetails => "topicDetails"@,
        }
    }

    fn to_wire(&self) -> (s: String) {
        String::from_str(self.as_str())
    }
}

/// The service for the channels endpoint.
#[derive(Clone)]
pub struct ChannelsService {
    api_key: String,
}

impl ChannelsService {
    /// The authentication key that the service's requests carry.
    pub closed spec fn key(&self) -> Seq<char> {
        self.api_key@
    }

    /// The authentication key that the service's requests carry.
    pub fn api_key(&self) -> (key: &str)
        ensures
            key@ == self.key(),
    {
        self.api_key.as_str()
    }

    /// The service of a session that authenticates with `api_key`.
    pub fn new(api_key: String) -> (service: Self)
        ensures
            service.key() == api_key@,
    {
        Self { api_key }
    }

    /// A builder for a request that asks for `part`, or for the identifier
    /// alone where `part` is empty. No filter is chosen yet.
    pub fn list(&self, part: Vec<Part>) -> (list: ChannelList<'_>)
        ensures
            list@ == ChannelListView::fresh(
                self.key(),
                if part@.len() == 0 {
                    seq![Part::Id]
                } else {
                    part@
                },
            ),
    {
        ChannelList::new(self, part)
    }
}

/// A request to list channels, while it is configured.
pub struct ChannelList<'a> {
    service: &'a ChannelsService,
    part: Vec<Part>,
    for_username: Option<&'a str>,
    id: Option<&'a str>,
    managed_by_me: Option<bool>,
    mine: Option<bool>,
    hl: Option<&'a str>,
    max_results: Option<u32>,
    on_behalf_of_content_owner: Option<&'a str>,
    page_token: Option<&'a str>,
}

/// The configuration of a `ChannelList`.
pub struct ChannelListView {
    pub api_key: Seq<char>,
    pub part: Seq<Part>,
    pub for_username: Option<Seq<char>>,
    pub id: Option<Seq<char>>,
    pub managed_by_me: Option<bool>,
    pub mine: Option<bool>,
    pub hl: Option<Seq<char>>,
    pub max_results: Option<u32>,
    pub on_behalf_of_content_owner: Option<Seq<char>>,
    pub page_token: Option<Seq<char>>,
}

impl ChannelListView {
    /// The configuration of a builder on which nothing was set.
    pub open spec fn fresh(api_key: Seq<char>, part: Seq<Part>) -> ChannelListView {
        ChannelListView {
            api_key,
            part,
            for_username: None,
            id: None,
            managed_by_me: None,
            mine: None,
            hl: None,
            max_results: None,
            on_behalf_of_content_owner: None,
            page_token: None,
        }
    }

    /// The filter group of the endpoint, in the order of its declaration:
    /// exactly one of its members has to be set.
    pub open spec fn filters(self) -> Seq<(bool, Seq<char>)> {
        seq![
            (self.for_username is Some, "for_username"@),
            (self.id is Some, "id"@),
            (self.managed_by_me is Some, "managed_by_me"@),
            (self.mine is Some, "mine"@),
        ]
    }

    /// The parameters that the request offers, in the order in which it
    /// offers them.
    pub open spec fn offers(self) -> Seq<Offer> {
        seq![
            ("key"@, Some(self.api_key)),
            ("part"@, Some(list_wire(self.part))),
            ("forUsername"@, self.for_username),
            ("id"@, self.id),
            ("hl"@, self.hl),
            ("maxResults"@, wire_of(self.max_results)),
            ("pageToken"@, self.page_token),
        ]
    }

    /// The query parameters of the request, for a configuration that breaks
    /// no rule: what is offered, less the absent and the empty values.
    pub open spec fn params(self) -> Map<Seq<char>, Seq<char>> {
        offered(Map::empty(), self.offers())
    }

    /// The rule that the configuration breaks, if any: exactly one filter
    /// has to be set, and neither a filter nor the content owner may need an
    /// authorized caller.
    pub open spec fn violation(self) -> Option<ErrorView> {
        let names = set_names(self.filters());
        if names.len() == 0 {
            Some(
                builder_error(
                    BuilderErrorKindView::MissingRequiredParameter {
                        message: "No filter selected. Expected one of: for_username, id, managed_by_me, mine"@,
                    },
                ),
            )
        } else if names.len() > 1 {
            Some(incompatible(names))
        } else if self.managed_by_me is Some {
            Some(unauthorized("managed_by_me"@))
        } else if self.mine is Some {
            Some(unauthorized("mine"@))
        } else if self.on_behalf_of_content_owner is Some
            && self.on_behalf_of_content_owner.unwrap().len() > 0 {
            Some(unauthorized("on_behalf_of_content_owner"@))
        } else {
            None
        }
    }

    /// What finishing the builder gives.
    pub open spec fn outcome(self) -> Result<Map<Seq<char>, Seq<char>>, ErrorView> {
        match self.violation() {
            Some(error) => Err(error),
            None => Ok(self.params()),
        }
    }

    /// The names of the filters that are set, in the order of their
    /// declaration.
    pub open spec fn chosen(self) -> Seq<Seq<char>> {
        named_if(self.for_username is Some, "for_username"@) + named_if(self.id is Some, "id"@)
            + named_if(self.managed_by_me is Some, "managed_by_me"@) + named_if(
            self.mine is Some,
            "mine"@,
        )
    }
}

/// Exactly one filter has to be set. A configuration without any is refused
/// as lacking a required parameter. One with two or more is refused as holding
/// incompatible parameters, and the message names the filters that are set,
/// in the order of their declaration, separated by a comma and a space.
pub proof fn lemma_exactly_one_filter(v: ChannelListView)
    ensures
        set_names(v.filters()) == v.chosen(),
        v.chosen().len() == 0 ==> v.outcome() == Err::<Map<Seq<char>, Seq<char>>, ErrorView>(
            builder_error(
                BuilderErrorKindView::MissingRequiredParameter {
                    message: "No filter selected. Expected one of: for_username, id, managed_by_me, mine"@,
                },
            ),
        ),
        v.chosen().len() >= 2 ==> v.outcome() == Err::<Map<Seq<char>, Seq<char>>, ErrorView>(
            builder_error(
                BuilderErrorKindView::IncompatibleParameters {
                    message: "Incompatible parameters specified in the request: "@ + joined(
                        v.chosen(),
                        ", "@,
                    ),
                },
            ),
        ),
{
    let a = (v.for_username is Some, "for_username"@);
    let b = (v.id is Some, "id"@);
    let c = (v.managed_by_me is Some, "managed_by_me"@);
    let d = (v.mine is Some, "mine"@);
    lemma_set_names_three(a, b, c);
    lemma_set_names_push(seq![a, b, c], d);
    assert(v.filters() =~= seq![a, b, c].push(d));
}

/// A filter that needs an authorized caller, set as the only filter, has the
/// request refused for want of authorization, whatever else is set.
pub proof fn lemma_gated_filter_refused(v: ChannelListView)
    requires
        v.for_username is None,
        v.id is None,
        (v.managed_by_me is Some) != (v.mine is Some),
    ensures
        v.managed_by_me is Some ==> v.outcome() == Err::<Map<Seq<char>, Seq<char>>, ErrorView>(
            unauthorized("managed_by_me"@),
        ),
        v.mine is Some ==> v.outcome() == Err::<Map<Seq<char>, Seq<char>>, ErrorView>(
            unauthorized("mine"@),
        ),
{
    lemma_exactly_one_filter(v);
}

/// The page size never decides whether a request is accepted, and an
/// accepted request sends the page size that the builder holds, as a decimal
/// numeral. The builder holds at most 50.
pub proof fn lemma_page_size_sent(v: ChannelListView, size: Option<u32>)
    ensures
        v.outcome() is Ok <==> (ChannelListView { max_results: size, ..v }).outcome() is Ok,
        v.outcome() is Ok ==> v.outcome() == Ok::<Map<Seq<char>, Seq<char>>, ErrorView>(v.params()),
        v.max_results is Some ==> {
            &&& v.params().contains_key("maxResults"@)
            &&& v.params()["maxResults"@] == decimal_text(v.max_results.unwrap() as nat)
        },
        decimal_text(50) == "50"@,
{
    lemma_names();
    let offers = v.offers();
    if v.max_results is Some {
        assert(offers[5].0 == "maxResults"@);
        assert forall|j: int| 5 < j < offers.len() implies (#[trigger] offers[j]).0
            != "maxResults"@ by {
            assert(offers[j].0[0] != 'm');
        }
        lemma_offered_holds(Map::empty(), offers, 5);
    }
    assert(decimal_text(50) =~= "50"@) by {
        reveal_strlit("50");
        reveal_with_fuel(decimal_text, 3);
    }
}

/// Every request carries the authentication key, unless the key is empty,
/// and the parts that are asked for, unless none is: whatever else is set.
/// No parameter of a request has an empty value.
pub proof fn lemma_key_and_part_sent(v: ChannelListView)
    ensures
        v.api_key.len() > 0 ==> v.params().contains_key("key"@) && v.params()["key"@] == v.api_key,
        list_wire(v.part).len() > 0 ==> v.params().contains_key("part"@) && v.params()["part"@]
            == list_wire(v.part),
        no_empty_value(v.params()),
{
    lemma_names();
    let offers = v.offers();
    lemma_offered_no_empty(Map::empty(), offers);
    if v.api_key.len() > 0 {
        assert forall|j: int| 0 < j < offers.len() implies (#[trigger] offers[j]).0 != "key"@ by {
            assert(offers[j].0.len() != 3);
        }
        lemma_offered_holds(Map::empty(), offers, 0);
    }
    if list_wire(v.part).len() > 0 {
        assert forall|j: int| 1 < j < offers.len() implies (#[trigger] offers[j]).0 != "part"@ by {
            assert(offers[j].0.len() != 4);
        }
        lemma_offered_holds(Map::empty(), offers, 1);
    }
}

/// What the wire names of the endpoint are made of.
proof fn lemma_names()
    ensures
        "key"@.len() == 3 && "key"@[0] == 'k',
        "part"@.len() == 4 && "part"@[0] == 'p',
        "forUsername"@.len() == 11 && "forUsername"@[0] == 'f',
        "id"@.len() == 2 && "id"@[0] == 'i',
        "hl"@.len() == 2 && "hl"@[0] == 'h',
        "maxResults"@.len() == 10 && "maxResults"@[0] == 'm',
        "pageToken"@.len() == 9 && "pageToken"@[0] == 'p',
{
    reveal_strlit("key");
    reveal_strlit("part");
    reveal_strlit("forUsername");
    reveal_strlit("id");
    reveal_strlit("hl");
    reveal_strlit("maxResults");
    reveal_strlit("pageToken");
}

impl<'a> View for ChannelList<'a> {
    type V = ChannelListView;

    closed spec fn view(&self) -> ChannelListView {
        ChannelListView {
            api_key: self.service.key(),
            part: self.part@,
            for_username: str_text(self.for_username),
            id: str_text(self.id),
            managed_by_me: self.managed_by_me,
            mine: self.mine,
            hl: str_text(self.hl),
            max_results: self.max_results,
            on_behalf_of_content_owner: str_text(self.on_behalf_of_content_owner),
            page_token: str_text(self.page_token),
        }
    }
}

impl<'a> DataApi for ChannelList<'a> {
    fn api_path(&self) -> (p: &str)
        ensures
            p@ == "channels"@,
    {
        "channels"
    }
}

impl<'a> ListApi for ChannelList<'a> {
    open spec fn outcome(&self) -> Result<Map<Seq<char>, Seq<char>>, ErrorView> {
        self@.outcome()
    }

    fn request(&self) -> (result: Result<RequestParameters, Error>) {
        if let Some(error) = self.check() {
            return Err(error);
        }
        Ok(self.query())
    }
}

impl<'a> ChannelList<'a> {
    fn check(&self) -> (error: Option<Error>)
        ensures
            error_view(error) == self@.violation(),
    {
        let group = vec![
            (self.for_username.is_some(), "for_username"),
            (self.id.is_some(), "id"),
            (self.managed_by_me.is_some(), "managed_by_me"),
            (self.mine.is_some(), "mine"),
        ];
        let names = selected(&group);
        assert(group_texts(group@) =~= self@.filters());
        assert(names@.len() == texts(names@).len());
        if names.len() == 0 {
            return Some(
                Error::missing_required_parameter(
                    "No filter selected. Expected one of: for_username, id, managed_by_me, mine",
                ),
            );
        }
        if names.len() > 1 {
            return Some(incompatible_error(&names));
        }
        if self.managed_by_me.is_some() {
            return Some(unauthorized_error("managed_by_me"));
        }
        if self.mine.is_some() {
            return Some(unauthorized_error("mine"));
        }
        if let Some(owner) = self.on_behalf_of_content_owner {
            if !owner.is_empty() {
                return Some(unauthorized_error("on_behalf_of_content_owner"));
            }
        }
        None
    }

    fn query(&self) -> (params: RequestParameters)
        ensures
            params@ == self@.params(),
    {
        let offers = vec![
            ("key", rendered(Some(self.service.api_key()))),
            ("part", rendered_list(Some(&self.part))),
            ("forUsername", rendered(self.for_username)),
            ("id", rendered(self.id)),
            ("hl", rendered(self.hl)),
            ("maxResults", rendered(self.max_results)),
            ("pageToken", rendered(self.page_token)),
        ];
        assert(offer_texts(offers@) =~= self@.offers());
        let mut params = RequestParameters::new();
        self.insert_offers(&mut params, &offers);
        params
    }

    /// A builder for a request that asks for `part`, or for the identifier
    /// alone where `part` is empty. No filter is chosen yet.
    pub fn new(service: &'a ChannelsService, part: Vec<Part>) -> (list: Self)
        ensures
            list@ == ChannelListView::fresh(
                service.key(),
                if part@.len() == 0 {
                    seq![Part::Id]
                } else {
                    part@
                },
            ),
    {
        let ghost given = part@;
        let part = if part.is_empty() {
            vec![Part::Id]
        } else {
            part
        };
        assert(part@ =~= if given.len() == 0 {
            seq![Part::Id]
        } else {
            given
        });
        Self {
            service,
            part,
            for_username: None,
            id: None,
            managed_by_me: None,
            mine: None,
            hl: None,
            max_results: None,
            on_behalf_of_content_owner: None,
            page_token: None,
        }
    }

    /// Asks for the parts `part` instead.
    pub fn part(&mut self, part: Vec<Part>) -> (ret: &mut Self)
        ensures
            ret@ == (ChannelListView { part: part@, ..old(self)@ }),
            *final(self) == *final(ret),
    {
        self.part = part;
        self
    }

    /// Selects the channel of the user `for_username`.
    pub fn for_username(&mut self, for_username: &'a str) -> (ret: &mut Self)
        ensures
            ret@ == (ChannelListView { for_username: Some(for_username@), ..old(self)@ }),
            *final(self) == *final(ret),
    {
        self.for_username = Some(for_username);
        self
    }

    /// Selects the channels with the identifiers in `id`, a comma-separated
    /// list.
    pub fn id(&mut self, id: &'a str) -> (ret: &mut Self)
        ensures
            ret@ == (ChannelListView { id: Some(id@), ..old(self)@ }),
            *final(self) == *final(ret),
    {
        self.id = Some(id);
        self
    }

    /// Selects the channels that the caller manages.
    pub fn managed_by_me(&mut self, managed_by_me: bool) -> (ret: &mut Self)
        ensures
            ret@ == (ChannelListView { managed_by_me: Some(managed_by_me), ..old(self)@ }),
            *final(self) == *final(ret),
    {
        self.managed_by_me = Some(managed_by_me);
        self
    }

    /// Selects the channels that the caller owns.
    pub fn mine(&mut self, mine: bool) -> (ret: &mut Self)
        ensures
            ret@ == (ChannelListView { mine: Some(mine), ..old(self)@ }),
            *final(self) == *final(ret),
    {
        self.mine = Some(mine);
        self
    }

    /// Asks for text in the language `hl`.
    pub fn hl(&mut self, hl: &'a str) -> (ret: &mut Self)
        ensures
            ret@ == (ChannelListView { hl: Some(hl@), ..old(self)@ }),
            *final(self) == *final(ret),
    {
        self.hl = Some(hl);
        self
    }

    /// Asks for at most `max_results` items per page; more than 50 are taken
    /// as 50.
    pub fn max_results(&mut self, max_results: u32) -> (ret: &mut Self)
        ensures
            ret@ == (ChannelListView {
                max_results: Some(
                    if max_results > 50 {
                        50u32
                    } else {
                        max_results
                    },
                ),
                ..old(self)@
            }),
            *final(self) == *final(ret),
    {
        let max_results = if max_results > 50 {
            50
        } else {
            max_results
        };
        self.max_results = Some(max_results);
        self
    }

    /// Acts on behalf of the content owner `on_behalf_of_content_owner`.
    pub fn on_behalf_of_content_owner(&mut self, on_behalf_of_content_owner: &'a str) -> (ret:
        &mut Self)
        ensures
            ret@ == (ChannelListView {
                on_behalf_of_content_owner: Some(on_behalf_of_content_owner@),
                ..old(self)@
            }),
            *final(self) == *final(ret),
    {
        self.on_behalf_of_content_owner = Some(on_behalf_of_content_owner);
        self
    }

    /// Asks for the page that `page_token` stands for.
    pub fn page_token(&mut self, page_token: &'a str) -> (ret: &mut Self)
        ensures
            ret@ == (ChannelListView { page_token: Some(page_token@), ..old(self)@ }),
            *final(self) == *final(ret),
    {
        self.page_token = Some(page_token);
        self
    }
}

/// One page of channels.
pub type ChannelListResponse = ListResponse<ChannelListResource>;

/// A channel.
#[derive(Debug)]
pub struct ChannelListResource {
    /// The kind of the resource.
    pub kind: String,
    /// The cache tag of the resource.
    pub etag: String,
    /// The identifier of the channel.
    pub id: String,
    /// The channel's basic details, where they were asked for.
    pub snippet: Option<ChannelSnippet>,
}

/// The basic details of a channel.
#[derive(Debug)]
pub struct ChannelSnippet {
    /// The channel's title.
    pub title: String,
    /// The channel's description.
    pub description: String,
    /// The channel's custom URL.
    pub custom_url: Option<String>,
    /// When the channel was created.
    pub published_at: Timestamp,
    /// The channel's thumbnail images.
    pub thumbnails: Thumbnails,
    /// The language of the title and the description.
    pub default_language: Option<String>,
    /// The title and the description in the language that was asked for.
    pub localized: Option<Localization>,
    /// The country with which the channel is associated.
    pub country: Option<String>,
}

/// The content details of a channel.
#[derive(Debug)]
pub struct ChannelContentDetails {}

/// The statistics of a channel.
#[derive(Debug)]
pub struct ChannelStatistics {}

/// The topic details of a channel.
#[derive(Debug)]
pub struct ChannelTopicDetails {}

/// The status of a channel.
#[derive(Debug)]
pub struct ChannelStatus {}

/// The branding settings of a channel.
#[derive(Debug)]
pub struct ChannelBrandingSettings {}

/// The audit details of a channel.
#[derive(Debug)]
pub struct ChannelAuditDetails {}

/// The content owner details of a channel.
#[derive(Debug)]
pub struct ChannelContentOwnerDetails {}

} // verus!
