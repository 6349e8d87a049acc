//! The videos endpoint: its request builder and its parameter enumerations.

use crate::api::{
    error_view, group_texts, incompatible, incompatible_error, invalid_argument,
    invalid_argument_error, lemma_set_names_three, list_wire, named_if, offer_texts, rendered,
    rendered_list, selected, set_names, str_text, text_list, unauthorized, unauthorized_error,
    wire_forms, wire_of, DataApi, ListApi, WireValue,
};
use crate::error::{builder_error, BuilderErrorKindView, Error, ErrorView};
use crate::model::{ListResponse, Localization, Thumbnails};
use crate::params::{
    lemma_offered_holds, lemma_offered_no_empty, no_empty_value, offered, Offer, RequestParameters,
};
use crate::text::{decimal_text, joined, texts};
use crate::time::Timestamp;
use vstd::prelude::*;
use vstd::string::StringExecFns;

verus! {

/// The groups of fields that a video resource can be asked to carry.
#[derive(Clone, Copy, Debug, PartialEq, Eq, Structural)]
pub enum Part {
    ContentDetails,
    FileDetails,
    Id,
    LiveStreamingDetails,
    Localizations,
    Player,
    ProcessingDetails,
    RecordingDetails,
    Snippet,
    Statistics,
    Status,
    Suggestions,
    TopicDetails,
}

impl Part {
    /// The wire token of the part.
    pub fn as_str(&self) -> (token: &'static str)
        ensures
            token@ == self.wire(),
    {
        match self {
            Part::ContentDetails => "contentDetails",
            Part::FileDetails => "fileDetails",
            Part::Id => "id",
            Part::LiveStreamingDetails => "liveStreamingDetails",
            Part::Localizations => "localizations",
            Part::Player => "player",
            Part::ProcessingDetails => "processingDetails",
            Part::RecordingDetails => "recordingDetails",
            Part::Snippet => "snippet",
            Part::Statistics => "statistics",
            Part::Status => "status",
            Part::Suggestions => "suggestions",
            Part::TopicDetails => "topicDetails",
        }
    }
}

impl WireValue for Part {
    open spec fn wire(&self) -> Seq<char> {
        match self {
            Part::ContentDetails => "contentDetails"@,
            Part::FileDetails => "fileDetails"@,
            Part::Id => "id"@,
            Part::LiveStreamingDetails => "liveStreamingDetails"@,
            Part::Localizations => "localizations"@,
            Part::Player => "player"@,
            Part::ProcessingDetails => "processingDetails"@,
            Part::RecordingDetails => "recordingDetails"@,
            Part::Snippet => "snippet"@,
            Part::Statistics => "statistics"@,
            Part::Status => "status"@,
            Part::Suggestions => "suggestions"@,
            Part::TopicDetails => "topicDetails"@,
        }
    }

    fn to_wire(&self) -> (s: String) {
        String::from_str(self.as_str())
    }
}

/// The charts that the endpoint can list.
#[derive(Clone, Copy, Debug, PartialEq, Eq, Structural)]
pub enum Chart {
    /// The most popular videos of a region and a category.
    MostPopular,
}

impl Chart {
    /// The wire token of the chart.
    pub fn as_str(&self) -> (token: &'static str)
        ensures
            token@ == self.wire(),
    {
        match self {
            Chart::MostPopular => "mostPopular",
        }
    }
}

impl WireValue for Chart {
    open spec fn wire(&self) -> Seq<char> {
        match self {
            Chart::MostPopular => "mostPopular"@,
        }
    }

    fn to_wire(&self) -> (s: String) {
        String::from_str(self.as_str())
    }
}

/// The ratings of the caller by which videos can be selected.
#[derive(Clone, Copy, Debug, PartialEq, Eq, Structural)]
pub enum MyRating {
    /// The videos that the caller disliked.
    Dislike,
    /// The videos that the caller liked.
    Like,
}

impl MyRating {
    /// The wire token of the rating.
    pub fn as_str(&self) -> (token: &'static str)
        ensures
            token@ == self.wire(),
    {
        match self {
            MyRating::Dislike => "dislike",
            MyRating::Like => "like",
        }
    }
}

impl WireValue for MyRating {
    open spec fn wire(&self) -> Seq<char> {
        match self {
            MyRating::Dislike => "dislike"@,
            MyRating::Like => "like"@,
        }
    }

    fn to_wire(&self) -> (s: String) {
        String::from_str(self.as_str())
    }
}

/// The service for the videos endpoint.
#[derive(Clone)]
pub struct VideosService {
    api_key: String,
}

impl VideosService {
    /// The authentication key that the service's requests carry.
    pub closed spec fn key(&self) -> Seq<char> {
        self.api_key@
    }

    /// The authentication key that the service's requests carry.
    pub fn api_key(&self) -> (key: &str)
        ensures
            key@ == self.key(),
    {
        self.api_key.as_str()
    }

    /// The service of a session that authenticates with `api_key`.
    pub fn new(api_key: String) -> (service: Self)
        ensures
            service.key() == api_key@,
    {
        Self { api_key }
    }

    /// A builder for a request that asks for `part`, or for the identifier
    /// alone where `part` is empty. No filter is chosen yet.
    pub fn list(&self, part: Vec<Part>) -> (list: VideoList<'_>)
        ensures
            list@ == VideoListView::fresh(
                self.key(),
                if part@.len() == 0 {
                    seq![Part::Id]
                } else {
                    part@
                },
            ),
    {
        VideoList::new(self, part)
    }
}

/// A request to list videos, while it is configured.
pub struct VideoList<'a> {
    service: &'a VideosService,
    part: Vec<Part>,
    chart: Option<Chart>,
    id: Option<Vec<&'a str>>,
    my_rating: Option<MyRating>,
    hl: Option<&'a str>,
    max_height: Option<u32>,
    max_results: Option<u32>,
    max_width: Option<u32>,
    on_behalf_of_content_owner: Option<&'a str>,
    page_token: Option<&'a str>,
    region_code: Option<&'a str>,
    video_category_id: Option<&'a str>,
}

/// The configuration of a `VideoList`.
pub struct VideoListView {
    pub api_key: Seq<char>,
    pub part: Seq<Part>,
    pub chart: Option<Chart>,
    pub id: Option<Seq<Seq<char>>>,
    pub my_rating: Option<MyRating>,
    pub hl: Option<Seq<char>>,
    pub max_height: Option<u32>,
    pub max_results: Option<u32>,
    pub max_width: Option<u32>,
    pub on_behalf_of_content_owner: Option<Seq<char>>,
    pub page_token: Option<Seq<char>>,
    pub region_code: Option<Seq<char>>,
    pub video_category_id: Option<Seq<char>>,
}

/// `value` brought into the range from `low` to `high`.
pub open spec fn clamped(value: u32, low: u32, high: u32) -> u32 {
    if value > high {
        high
    } else if value < low {
        low
    } else {
        value
    }
}

/// The texts of a list of string slices.
pub open spec fn slice_texts(list: Seq<&str>) -> Seq<Seq<char>> {
    list.map_values(|s: &str| s@)
}

/// The texts of an optional list of string slices.
pub open spec fn list_text(list: Option<Vec<&str>>) -> Option<Seq<Seq<char>>> {
    match list {
        Some(v) => Some(slice_texts(v@)),
        None => None,
    }
}

impl VideoListView {
    /// The configuration of a builder on which nothing was set.
    pub open spec fn fresh(api_key: Seq<char>, part: Seq<Part>) -> VideoListView {
        VideoListView {
            api_key,
            part,
            chart: None,
            id: None,
            my_rating: None,
            hl: None,
            max_height: None,
            max_results: None,
            max_width: None,
            on_behalf_of_content_owner: None,
            page_token: None,
            region_code: None,
            video_category_id: None,
        }
    }

    /// The filter group of the endpoint, in the order of its declaration:
    /// exactly one of its members has to be set.
    pub open spec fn filters(self) -> Seq<(bool, Seq<char>)> {
        seq![
            (self.chart is Some, "chart"@),
            (self.id is Some, "id"@),
            (self.my_rating is Some, "my_rating"@),
        ]
    }

    /// The parameters that the request offers, in the order in which it
    /// offers them. The video category is offered only with a chart.
    pub open spec fn offers(self) -> Seq<Offer> {
        seq![
            ("key"@, Some(self.api_key)),
            ("part"@, Some(list_wire(self.part))),
            ("chart"@, wire_of(self.chart)),
            (
                "videoCategoryId"@,
                if self.chart is Some {
                    self.video_category_id
                } else {
                    None
                },
            ),
            (
                "id"@,
                match self.id {
                    Some(list) => Some(text_list(list)),
                    None => None,
                },
            ),
            ("hl"@, self.hl),
            ("maxHeight"@, wire_of(self.max_height)),
            ("maxResults"@, wire_of(self.max_results)),
            ("maxWidth"@, wire_of(self.max_width)),
            ("pageToken"@, self.page_token),
            ("regionCode"@, self.region_code),
        ]
    }

    /// The query parameters of the request, for a configuration that breaks
    /// no rule: what is offered, less the absent and the empty values.
    pub open spec fn params(self) -> Map<Seq<char>, Seq<char>> {
        offered(Map::empty(), self.offers())
    }

    /// The rule that the configuration breaks, if any: exactly one filter
    /// has to be set, a list of identifiers may not be empty, and neither the
    /// filter nor the content owner may need an authorized caller.
    pub open spec fn violation(self) -> Option<ErrorView> {
        let names = set_names(self.filters());
        if names.len() == 0 {
            Some(
                builder_error(
                    BuilderErrorKindView::MissingRequiredParameter {
                        message: "No filter selected. Expected one of: chart, id, my_rating"@,
                    },
                ),
            )
        } else if names.len() > 1 {
            Some(incompatible(names))
        } else if self.id is Some && self.id.unwrap().len() == 0 {
            Some(invalid_argument("parameter `id` must not be empty"@))
        } else if self.my_rating is Some {
            Some(unauthorized("my_rating"@))
        } else if self.on_behalf_of_content_owner is Some {
            Some(unauthorized("on_behalf_of_content_owner"@))
        } else {
            None
        }
    }

    /// What finishing the builder gives.
    pub open spec fn outcome(self) -> Result<Map<Seq<char>, Seq<char>>, ErrorView> {
        match self.violation() {
            Some(error) => Err(error),
            None => Ok(self.params()),
        }
    }

    /// The names of the filters that are set, in the order of their
    /// declaration.
    pub open spec fn chosen(self) -> Seq<Seq<char>> {
        named_if(self.chart is Some, "chart"@) + named_if(self.id is Some, "id"@) + named_if(
            self.my_rating is Some,
            "my_rating"@,
        )
    }
}

/// Exactly one filter has to be set. A configuration without any is refused
/// as lacking a required parameter. One with two or more is refused as holding
/// incompatible parameters, and the message names the filters that are set,
/// in the order of their declaration, separated by a comma and a space.
pub proof fn lemma_exactly_one_filter(v: VideoListView)
    ensures
        set_names(v.filters()) == v.chosen(),
        v.chosen().len() == 0 ==> v.outcome() == Err::<Map<Seq<char>, Seq<char>>, ErrorView>(
            builder_error(
                BuilderErrorKindView::MissingRequiredParameter {
                    message: "No filter selected. Expected one of: chart, id, my_rating"@,
                },
            ),
        ),
        v.chosen().len() >= 2 ==> v.outcome() == Err::<Map<Seq<char>, Seq<char>>, ErrorView>(
            builder_error(
                BuilderErrorKindView::IncompatibleParameters {
                    message: "Incompatible parameters specified in the request: "@ + joined(
                        v.chosen(),
                        ", "@,
                    ),
                },
            ),
        ),
{
    lemma_set_names_three(
        (v.chart is Some, "chart"@),
        (v.id is Some, "id"@),
        (v.my_rating is Some, "my_rating"@),
    );
}

/// The caller's rating, set as the only filter, has the request refused for
/// want of authorization, whatever else is set.
pub proof fn lemma_gated_filter_refused(v: VideoListView)
    requires
        v.chart is None,
        v.id is None,
        v.my_rating is Some,
    ensures
        v.outcome() == Err::<Map<Seq<char>, Seq<char>>, ErrorView>(unauthorized("my_rating"@)),
{
    lemma_exactly_one_filter(v);
}

/// A list of identifiers that is set but empty, as the only filter, has the
/// request refused for an invalid parameter; with no list set at all, and no
/// other filter, the request is refused as lacking a required parameter.
pub proof fn lemma_empty_id_list_refused(v: VideoListView)
    requires
        v.chart is None,
        v.my_rating is None,
    ensures
        v.id == Some(Seq::<Seq<char>>::empty()) ==> v.outcome() == Err::<
            Map<Seq<char>, Seq<char>>,
            ErrorView,
        >(
            builder_error(
                BuilderErrorKindView::InvalidParameter {
                    message: "Request contains an invalid argument: "@
                        + "parameter `id` must not be empty"@,
                },
            ),
        ),
        v.id is None ==> v.outcome() == Err::<Map<Seq<char>, Seq<char>>, ErrorView>(
            builder_error(
                BuilderErrorKindView::MissingRequiredParameter {
                    message: "No filter selected. Expected one of: chart, id, my_rating"@,
                },
            ),
        ),
{
    lemma_exactly_one_filter(v);
}

/// Every request carries the authentication key, unless the key is empty,
/// and the parts that are asked for, unless none is: whatever else is set.
/// No parameter of a request has an empty value.
pub proof fn lemma_key_and_part_sent(v: VideoListView)
    ensures
        v.api_key.len() > 0 ==> v.params().contains_key("key"@) && v.params()["key"@] == v.api_key,
        list_wire(v.part).len() > 0 ==> v.params().contains_key("part"@) && v.params()["part"@]
            == list_wire(v.part),
        no_empty_value(v.params()),
{
    lemma_names();
    let offers = v.offers();
    lemma_offered_no_empty(Map::empty(), offers);
    if v.api_key.len() > 0 {
        assert forall|j: int| 0 < j < offers.len() implies (#[trigger] offers[j]).0 != "key"@ by {
            assert(offers[j].0.len() != 3);
        }
        lemma_offered_holds(Map::empty(), offers, 0);
    }
    if list_wire(v.part).len() > 0 {
        assert forall|j: int| 1 < j < offers.len() implies (#[trigger] offers[j]).0 != "part"@ by {
            assert(offers[j].0.len() != 4);
        }
        lemma_offered_holds(Map::empty(), offers, 1);
    }
}

/// An accepted request sends the sizes that the builder holds, as decimal
/// numerals: the page size, at most 50, and the player's height and width,
/// each within its range.
pub proof fn lemma_sizes_sent(v: VideoListView)
    ensures
        v.max_results is Some ==> v.params().contains_key("maxResults"@) && v.params()["maxResults"@]
            == decimal_text(v.max_results.unwrap() as nat),
        v.max_height is Some ==> v.params().contains_key("maxHeight"@) && v.params()["maxHeight"@]
            == decimal_text(v.max_height.unwrap() as nat),
        v.max_width is Some ==> v.params().contains_key("maxWidth"@) && v.params()["maxWidth"@]
            == decimal_text(v.max_width.unwrap() as nat),
{
    lemma_names();
    let offers = v.offers();
    if v.max_height is Some {
        assert forall|j: int| 6 < j < offers.len() implies (#[trigger] offers[j]).0
            != "maxHeight"@ by {
            assert(offers[j].0.len() != 9 || offers[j].0[0] != 'm');
        }
        lemma_offered_holds(Map::empty(), offers, 6);
    }
    if v.max_results is Some {
        assert forall|j: int| 7 < j < offers.len() implies (#[trigger] offers[j]).0
            != "maxResults"@ by {
            assert(offers[j].0.len() != 10 || offers[j].0[0] != 'm');
        }
        lemma_offered_holds(Map::empty(), offers, 7);
    }
    if v.max_width is Some {
        assert forall|j: int| 8 < j < offers.len() implies (#[trigger] offers[j]).0
            != "maxWidth"@ by {
            assert(offers[j].0[0] != 'm');
        }
        lemma_offered_holds(Map::empty(), offers, 8);
    }
}

/// What the wire names of the endpoint are made of.
proof fn lemma_names()
    ensures
        "key"@.len() == 3 && "key"@[0] == 'k',
        "part"@.len() == 4 && "part"@[0] == 'p',
        "chart"@.len() == 5 && "chart"@[0] == 'c',
        "videoCategoryId"@.len() == 15 && "videoCategoryId"@[0] == 'v',
        "id"@.len() == 2 && "id"@[0] == 'i',
        "hl"@.len() == 2 && "hl"@[0] == 'h',
        "maxHeight"@.len() == 9 && "maxHeight"@[0] == 'm',
        "maxResults"@.len() == 10 && "maxResults"@[0] == 'm',
        "maxWidth"@.len() == 8 && "maxWidth"@[0] == 'm',
        "pageToken"@.len() == 9 && "pageToken"@[0] == 'p',
        "regionCode"@.len() == 10 && "regionCode"@[0] == 'r',
{
    reveal_strlit("key");
    reveal_strlit("part");
    reveal_strlit("chart");
    reveal_strlit("videoCategoryId");
    reveal_strlit("id");
    reveal_strlit("hl");
    reveal_strlit("maxHeight");
    reveal_strlit("maxResults");
    reveal_strlit("maxWidth");
    reveal_strlit("pageToken");
    reveal_strlit("regionCode");
}

impl<'a> View for VideoList<'a> {
    type V = VideoListView;

    closed spec fn view(&self) -> VideoListView {
        VideoListView {
            api_key: self.service.key(),
            part: self.part@,
            chart: self.chart,
            id: list_text(self.id),
            my_rating: self.my_rating,
            hl: str_text(self.hl),
            max_height: self.max_height,
            max_results: self.max_results,
            max_width: self.max_width,
            on_behalf_of_content_owner: str_text(self.on_behalf_of_content_owner),
            page_token: str_text(self.page_token),
            region_code: str_text(self.region_code),
            video_category_id: str_text(self.video_category_id),
        }
    }
}

impl<'a> DataApi for VideoList<'a> {
    fn api_path(&self) -> (p: &str)
        ensures
            p@ == "videos"@,
    {
        "videos"
    }
}

impl<'a> ListApi for VideoList<'a> {
    open spec fn outcome(&self) -> Result<Map<Seq<char>, Seq<char>>, ErrorView> {
        self@.outcome()
    }

    fn request(&self) -> (result: Result<RequestParameters, Error>) {
        if let Some(error) = self.check() {
            return Err(error);
        }
        Ok(self.query())
    }
}

impl<'a> VideoList<'a> {
    fn check(&self) -> (error: Option<Error>)
        ensures
            error_view(error) == self@.violation(),
    {
        let group = vec![
            (self.chart.is_some(), "chart"),
            (self.id.is_some(), "id"),
            (self.my_rating.is_some(), "my_rating"),
        ];
        let names = selected(&group);
        assert(group_texts(group@) =~= self@.filters());
        assert(names@.len() == texts(names@).len());
        if names.len() == 0 {
            return Some(
                Error::missing_required_parameter(
                    "No filter selected. Expected one of: chart, id, my_rating",
                ),
            );
        }
        if names.len() > 1 {
            return Some(incompatible_error(&names));
        }
        if let Some(id) = &self.id {
            if id.is_empty() {
                return Some(invalid_argument_error("parameter `id` must not be empty"));
            }
        }
        if self.my_rating.is_some() {
            return Some(unauthorized_error("my_rating"));
        }
        if self.on_behalf_of_content_owner.is_some() {
            return Some(unauthorized_error("on_behalf_of_content_owner"));
        }
        None
    }

    fn query(&self) -> (params: RequestParameters)
        ensures
            params@ == self@.params(),
    {
        let category = if self.chart.is_some() {
            self.video_category_id
        } else {
            None
        };
        proof {
            if self.id is Some {
                assert(wire_forms(self.id.unwrap()@) =~= slice_texts(self.id.unwrap()@));
            }
        }
        let offers = vec![
            ("key", rendered(Some(self.service.api_key()))),
            ("part", rendered_list(Some(&self.part))),
            ("chart", rendered(self.chart)),
            ("videoCategoryId", rendered(category)),
            ("id", rendered_list(self.id.as_ref())),
            ("hl", rendered(self.hl)),
            ("maxHeight", rendered(self.max_height)),
            ("maxResults", rendered(self.max_results)),
            ("maxWidth", rendered(self.max_width)),
            ("pageToken", rendered(self.page_token)),
            ("regionCode", rendered(self.region_code)),
        ];
        assert(offer_texts(offers@) =~= self@.offers());
        let mut params = RequestParameters::new();
        self.insert_offers(&mut params, &offers);
        params
    }

    /// A builder for a request that asks for `part`, or for the identifier
    /// alone where `part` is empty. No filter is chosen yet.
    pub fn new(service: &'a VideosService, part: Vec<Part>) -> (list: Self)
        ensures
            list@ == VideoListView::fresh(
                service.key(),
                if part@.len() == 0 {
                    seq![Part::Id]
                } else {
                    part@
                },
            ),
    {
        let ghost given = part@;
        let part = if part.is_empty() {
            vec![Part::Id]
        } else {
            part
        };
        assert(part@ =~= if given.len() == 0 {
            seq![Part::Id]
        } else {
            given
        });
        Self {
            service,
            part,
            chart: None,
            id: None,
            my_rating: None,
            hl: None,
            max_height: None,
            max_results: None,
            max_width: None,
            on_behalf_of_content_owner: None,
            page_token: None,
            region_code: None,
            video_category_id: None,
        }
    }

    /// Asks for the parts `part` instead.
    pub fn part(&mut self, part: Vec<Part>) -> (ret: &mut Self)
        ensures
            ret@ == (VideoListView { part: part@, ..old(self)@ }),
            *final(self) == *final(ret),
    {
        self.part = part;
        self
    }

    /// Selects the videos of the chart `chart`.
    pub fn chart(&mut self, chart: Chart) -> (ret: &mut Self)
        ensures
            ret@ == (VideoListView { chart: Some(chart), ..old(self)@ }),
            *final(self) == *final(ret),
    {
        self.chart = Some(chart);
        self
    }

    /// Selects the videos with the identifiers in `id`.
    pub fn id(&mut self, id: Vec<&'a str>) -> (ret: &mut Self)
        ensures
            ret@ == (VideoListView { id: Some(slice_texts(id@)), ..old(self)@ }),
            *final(self) == *final(ret),
    {
        self.id = Some(id);
        self
    }

    /// Selects the videos that the caller rated with `my_rating`.
    pub fn my_rating(&mut self, my_rating: MyRating) -> (ret: &mut Self)
        ensures
            ret@ == (VideoListView { my_rating: Some(my_rating), ..old(self)@ }),
            *final(self) == *final(ret),
    {
        self.my_rating = Some(my_rating);
        self
    }

    /// Asks for text in the language `hl`.
    pub fn hl(&mut self, hl: &'a str) -> (ret: &mut Self)
        ensures
            ret@ == (VideoListView { hl: Some(hl@), ..old(self)@ }),
            *final(self) == *final(ret),
    {
        self.hl = Some(hl);
        self
    }

    /// Asks for a player at most `max_height` pixels high, brought into the
    /// range from 72 to 4320.
    pub fn max_height(&mut self, max_height: u32) -> (ret: &mut Self)
        ensures
            ret@ == (VideoListView {
                max_height: Some(clamped(max_height, 72, 4320)),
                ..old(self)@
            }),
            *final(self) == *final(ret),
    {
        let max_height = if max_height > 4320 {
            4320
        } else if max_height < 72 {
            72
        } else {
            max_height
        };
        self.max_height = Some(max_height);
        self
    }

    /// Asks for at most `max_results` items per page; more than 50 are taken
    /// as 50.
    pub fn max_results(&mut self, max_results: u32) -> (ret: &mut Self)
        ensures
            ret@ == (VideoListView {
                max_results: Some(
                    if max_results > 50 {
                        50u32
                    } else {
                        max_results
                    },
                ),
                ..old(self)@
            }),
            *final(self) == *final(ret),
    {
        let max_results = if max_results > 50 {
            50
        } else {
            max_results
        };
        self.max_results = Some(max_results);
        self
    }

    /// Asks for a player at most `max_width` pixels wide, brought into the
    /// range from 72 to 8192.
    pub fn max_width(&mut self, max_width: u32) -> (ret: &mut Self)
        ensures
            ret@ == (VideoListView { max_width: Some(clamped(max_width, 72, 8192)), ..old(self)@ }),
            *final(self) == *final(ret),
    {
        let max_width = if max_width > 8192 {
            8192
        } else if max_width < 72 {
            72
        } else {
            max_width
        };
        self.max_width = Some(max_width);
        self
    }

    /// Acts on behalf of the content owner `on_behalf_of_content_owner`.
    pub fn on_behalf_of_content_owner(&mut self, on_behalf_of_content_owner: &'a str) -> (ret:
        &mut Self)
        ensures
            ret@ == (VideoListView {
                on_behalf_of_content_owner: Some(on_behalf_of_content_owner@),
                ..old(self)@
            }),
            *final(self) == *final(ret),
    {
        self.on_behalf_of_content_owner = Some(on_behalf_of_content_owner);
        self
    }

    /// Asks for the page that `page_token` stands for.
    pub fn page_token(&mut self, page_token: &'a str) -> (ret: &mut Self)
        ensures
            ret@ == (VideoListView { page_token: Some(page_token@), ..old(self)@ }),
            *final(self) == *final(ret),
    {
        self.page_token = Some(page_token);
        self
    }

    /// Asks for the chart of the region `region_code`.
    pub fn region_code(&mut self, region_code: &'a str) -> (ret: &mut Self)
        ensures
            ret@ == (VideoListView { region_code: Some(region_code@), ..old(self)@ }),
            *final(self) == *final(ret),
    {
        self.region_code = Some(region_code);
        self
    }

    /// Asks for the chart of the category `video_category_id`.
    pub fn video_category_id(&mut self, video_category_id: &'a str) -> (ret: &mut Self)
        ensures
            ret@ == (VideoListView { video_category_id: Some(video_category_id@), ..old(self)@ }),
            *final(self) == *final(ret),
    {
        self.video_category_id = Some(video_category_id);
        self
    }
}

/// One page of videos.
pub type VideoListResponse = ListResponse<VideoListResource>;

/// A video.
#[derive(Debug)]
pub struct VideoListResource {
    /// The kind of the resource.
    pub kind: String,
    /// The cache tag of the resource.
    pub etag: String,
    /// The identifier of the video.
    pub id: String,
    /// The video's basic details, where they were asked for.
    pub snippet: Option<VideoSnippet>,
    /// The details of the video's broadcast, where they were asked for.
    pub live_streaming_details: Option<VideoLiveStreamingDetails>,
}

/// The basic details of a video.
#[derive(Debug)]
pub struct VideoSnippet {
    /// When the video was published.
    pub published_at: Timestamp,
    /// The identifier of the channel that the video was uploaded to.
    pub channel_id: String,
    /// The video's title.
    pub title: String,
    /// The video's description.
    pub description: String,
    /// The video's thumbnail images.
    pub thumbnails: Thumbnails,
    /// The title of the channel that the video belongs to.
    pub channel_title: String,
    /// The keyword tags of the video.
    pub tags: Option<Vec<String>>,
    /// The category of the video.
    pub category_id: Option<String>,
    /// Whether the video is an upcoming or a running broadcast.
    pub live_broadcast_content: Option<String>,
    /// The language of the title and the description.
    pub default_language: Option<String>,
    /// The title and the description in the language that was asked for.
    pub localized: Option<Localization>,
    /// The language of the video's default audio track.
    pub default_audio_language: Option<String>,
}

/// The content details of a video.
#[derive(Debug)]
pub struct VideoContentDetail {}

/// The status of a video.
#[derive(Debug)]
pub struct VideoStatus {
    /// The status of the upload.
    pub upload_status: String,
    /// Why the upload failed.
    pub failure_reason: Option<String>,
    /// Why the upload was rejected.
    pub rejection_reason: Option<String>,
    /// The privacy status of the video.
    pub privacy_status: Option<String>,
    /// When the video is scheduled to be published.
    pub publish_at: Option<Timestamp>,
    /// The license of the video.
    pub license: Option<String>,
    /// Whether the video can be embedded.
    pub embeddable: bool,
    /// Whether the extended statistics are open to everybody.
    pub public_stats_viewable: bool,
    /// Whether the video is designated as directed at children.
    pub made_for_kids: bool,
    /// Whether the owner designated the video as directed at children.
    pub self_declared_made_for_kids: Option<bool>,
}

/// The statistics of a video.
#[derive(Debug)]
pub struct VideoStatistics {
    /// How often the video was viewed.
    pub view_count: Option<u64>,
    /// How many users liked the video.
    pub like_count: Option<u64>,
    /// How many users disliked the video.
    pub dislike_count: Option<u64>,
    /// How many users marked the video as a favourite.
    pub favorite_count: u64,
    /// How many comments the video has.
    pub comment_count: Option<u64>,
}

/// The player of a video.
#[derive(Debug)]
pub struct VideoPlayer {
    /// The markup that embeds the player.
    pub embed_html: Option<String>,
    /// The height of the embedded player.
    pub embed_height: Option<i64>,
    /// The width of the embedded player.
    pub embed_width: Option<i64>,
}

/// The topic details of a video.
#[derive(Debug)]
pub struct VideoTopicDetails {}

/// The recording details of a video.
#[derive(Debug)]
pub struct VideoRecordingDetails {}

/// The file details of a video.
#[derive(Debug)]
pub struct VideoFileDetails {}

/// The processing details of a video.
#[derive(Debug)]
pub struct VideoProcessingDetails {}

/// The suggestions for a video.
#[derive(Debug)]
pub struct VideoSuggestions {}

/// The details of the broadcast of a video.
#[derive(Debug)]
pub struct VideoLiveStreamingDetails {
    /// When the broadcast began.
    pub actual_start_time: Option<Timestamp>,
    /// When the broadcast ended.
    pub actual_end_time: Option<Timestamp>,
    /// When the broadcast is scheduled to begin.
    pub scheduled_start_time: Timestamp,
    /// When the broadcast is scheduled to end.
    pub scheduled_end_time: Option<Timestamp>,
    /// How many viewers are watching the broadcast.
    pub concurrent_viewers: Option<u64>,
    /// The identifier of the live chat of the broadcast.
    pub active_live_chat_id: Option<String>,
}

} // verus!
