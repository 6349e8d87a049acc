//! The search endpoint: its request builder and its parameter enumerations.

use crate::api::{
    error_view, group_texts, incompatible, incompatible_error, invalid_argument, invalid_argument_error,
    lemma_set_names_three, list_wire, named_if, offer_texts, rendered, rendered_list,
    rendered_time, selected, set_names, str_text, time_wire_of, unauthorized, unauthorized_error,
    wire_of, DataApi, ListApi, WireValue,
};
use crate::error::{builder_error, BuilderErrorKindView, Error, ErrorView};
use crate::model::{ListResponse, Thumbnails};
use crate::params::{
    lemma_offered_holds, lemma_offered_no_empty, no_empty_value, offered, Offer, RequestParameters,
};
use crate::text::{decimal_text, joined, texts};
use crate::time::Timestamp;
use vstd::prelude::*;
use vstd::string::StringExecFns;

verus! {

/// The groups of fields that a search result can be asked to carry.
#[derive(Clone, Copy, Debug, PartialEq, Eq, Structural)]
pub enum Part {
    Id,
    Snippet,
}

impl Part {
    /// The wire token.
    pub fn as_str(&self) -> (token: &'static str)
        ensures
            token@ == self.wire(),
    {
        match self {
            Part::Id => "id",
            Part::Snippet => "snippet",
        }
    }
}

impl WireValue for Part {
    open spec fn wire(&self) -> Seq<char> {
        match self {
            Part::Id => "id"@,
            Part::Snippet => "snippet"@,
        }
    }

    fn to_wire(&self) -> (s: String) {
        String::from_str(self.as_str())
    }
}

/// The kinds of channel to which a search can be narrowed.
#[derive(Clone, Copy, Debug, PartialEq, Eq, Structural)]
pub enum ChannelType {
    /// Every channel.
    Any,
    /// Shows only.
    Show,
}

impl ChannelType {
    /// The wire token.
    pub fn as_str(&self) -> (token: &'static str)
        ensures
            token@ == self.wire(),
    {
        match self {
            ChannelType::Any => "any",
            ChannelType::Show => "show",
        }
    }
}

impl WireValue for ChannelType {
    open spec fn wire(&self) -> Seq<char> {
        match self {
            ChannelType::Any => "any"@,
            ChannelType::Show => "show"@,
        }
    }

    fn to_wire(&self) -> (s: String) {
        String::from_str(self.as_str())
    }
}

/// The kinds of broadcast to which a search can be narrowed.
#[derive(Clone, Copy, Debug, PartialEq, Eq, Structural)]
pub enum EventType {
    /// Broadcasts that have ended.
    Completed,
    /// Broadcasts that are running.
    Live,
    /// Broadcasts that are yet to start.
    Upcoming,
}

impl EventType {
    /// The wire token.
    pub fn as_str(&self) -> (token: &'static str)
        ensures
            token@ == self.wire(),
    {
        match self {
            EventType::Completed => "completed",
            EventType::Live => "live",
            EventType::Upcoming => "upcoming",
        }
    }
}

impl WireValue for EventType {
    open spec fn wire(&self) -> Seq<char> {
        match self {
            EventType::Completed => "completed"@,
            EventType::Live => "live"@,
            EventType::Upcoming => "upcoming"@,
        }
    }

    fn to_wire(&self) -> (s: String) {
        String::from_str(self.as_str())
    }
}

/// The orders in which a search can give its results.
#[derive(Clone, Copy, Debug, PartialEq, Eq, Structural)]
pub enum Order {
    /// Newest first.
    Date,
    /// Best rated first.
    Rating,
    /// Closest to the query first.
    Relevance,
    /// By title, in the order of the alphabet.
    Title,
    /// Channels with the most uploads first.
    VideoCount,
    /// Most viewed first.
    ViewCount,
}

impl Order {
    /// The wire token.
    pub fn as_str(&self) -> (token: &'static str)
        ensures
            token@ == self.wire(),
    {
        match self {
            Order::Date => "date",
            Order::Rating => "rating",
            Order::Relevance => "relevance",
            Order::Title => "title",
            Order::VideoCount => "videoCount",
            Order::ViewCount => "viewCount",
        }
    }
}

impl WireValue for Order {
    open spec fn wire(&self) -> Seq<char> {
        match self {
            Order::Date => "date"@,
            Order::Rating => "rating"@,
            Order::Relevance => "relevance"@,
            Order::Title => "title"@,
            Order::VideoCount => "videoCount"@,
            Order::ViewCount => "viewCount"@,
        }
    }

    fn to_wire(&self) -> (s: String) {
        String::from_str(self.as_str())
    }
}

/// How much restricted content a search leaves out.
#[derive(Clone, Copy, Debug, PartialEq, Eq, Structural)]
pub enum SafeSearch {
    /// Leaves out what is restricted in the caller's region.
    Moderate,
    /// Leaves nothing out.
    Unfiltered,
    /// Leaves out all restricted content.
    Strict,
}

impl SafeSearch {
    /// The wire token.
    pub fn as_str(&self) -> (token: &'static str)
        ensures
            token@ == self.wire(),
    {
        match self {
            SafeSearch::Moderate => "moderate",
            SafeSearch::Unfiltered => "none",
            SafeSearch::Strict => "strict",
        }
    }
}

impl WireValue for SafeSearch {
    open spec fn wire(&self) -> Seq<char> {
        match self {
            SafeSearch::Moderate => "moderate"@,
            SafeSearch::Unfiltered => "none"@,
            SafeSearch::Strict => "strict"@,
        }
    }

    fn to_wire(&self) -> (s: String) {
        String::from_str(self.as_str())
    }
}

/// The kinds of resource that a search can give.
#[derive(Clone, Copy, Debug, PartialEq, Eq, Structural)]
pub enum ResourceType {
    Channel,
    Playlist,
    Video,
}

impl ResourceType {
    /// The wire token.
    pub fn as_str(&self) -> (token: &'static str)
        ensures
            token@ == self.wire(),
    {
        match self {
            ResourceType::Channel => "channel",
            ResourceType::Playlist => "playlist",
            ResourceType::Video => "video",
        }
    }
}

impl WireValue for ResourceType {
    open spec fn wire(&self) -> Seq<char> {
        match self {
            ResourceType::Channel => "channel"@,
            ResourceType::Playlist => "playlist"@,
            ResourceType::Video => "video"@,
        }
    }

    fn to_wire(&self) -> (s: String) {
        String::from_str(self.as_str())
    }
}

/// Whether the videos of a search have captions.
#[derive(Clone, Copy, Debug, PartialEq, Eq, Structural)]
pub enum VideoCaption {
    /// With or without captions.
    Any,
    /// With captions only.
    ClosedCaption,
    /// Without captions only.
    Uncaptioned,
}

impl VideoCaption {
    /// The wire token.
    pub fn as_str(&self) -> (token: &'static str)
        ensures
            token@ == self.wire(),
    {
        match self {
            VideoCaption::Any => "any",
            VideoCaption::ClosedCaption => "closedCaption",
            VideoCaption::Uncaptioned => "none",
        }
    }
}

impl WireValue for VideoCaption {
    open spec fn wire(&self) -> Seq<char> {
        match self {
            VideoCaption::Any => "any"@,
            VideoCaption::ClosedCaption => "closedCaption"@,
            VideoCaption::Uncaptioned => "none"@,
        }
    }

    fn to_wire(&self) -> (s: String) {
        String::from_str(self.as_str())
    }
}

/// The definitions to which a search can be narrowed.
#[derive(Clone, Copy, Debug, PartialEq, Eq, Structural)]
pub enum VideoDefinition {
    /// Every definition.
    Any,
    /// High definition only.
    High,
    /// Standard definition only.
    Standard,
}

impl VideoDefinition {
    /// The wire token.
    pub fn as_str(&self) -> (token: &'static str)
        ensures
            token@ == self.wire(),
    {
        match self {
            VideoDefinition::Any => "any",
            VideoDefinition::High => "high",
            VideoDefinition::Standard => "standard",
        }
    }
}

impl WireValue for VideoDefinition {
    open spec fn wire(&self) -> Seq<char> {
        match self {
            VideoDefinition::Any => "any"@,
            VideoDefinition::High => "high"@,
            VideoDefinition::Standard => "standard"@,
        }
    }

    fn to_wire(&self) -> (s: String) {
        String::from_str(self.as_str())
    }
}

/// The dimensions to which a search can be narrowed.
#[derive(Clone, Copy, Debug, PartialEq, Eq, Structural)]
pub enum VideoDimension {
    /// Flat and spatial videos.
    Any,
    /// Flat videos only.
    TwoDimensional,
    /// Spatial videos only.
    ThreeDimensional,
}

impl VideoDimension {
    /// The wire token.
    pub fn as_str(&self) -> (token: &'static str)
        ensures
            token@ == self.wire(),
    {
        match self {
            VideoDimension::Any => "any",
            VideoDimension::TwoDimensional => "2d",
            VideoDimension::ThreeDimensional => "3d",
        }
    }
}

impl WireValue for VideoDimension {
    open spec fn wire(&self) -> Seq<char> {
        match self {
            VideoDimension::Any => "any"@,
            VideoDimension::TwoDimensional => "2d"@,
            VideoDimension::ThreeDimensional => "3d"@,
        }
    }

    fn to_wire(&self) -> (s: String) {
        String::from_str(self.as_str())
    }
}

/// The lengths to which a search can be narrowed.
#[derive(Clone, Copy, Debug, PartialEq, Eq, Structural)]
pub enum VideoDuration {
    /// Every length.
    Any,
    /// Under four minutes.
    Short,
    /// From four to twenty minutes.
    Medium,
    /// Over twenty minutes.
    Long,
}

impl VideoDuration {
    /// The wire token.
    pub fn as_str(&self) -> (token: &'static str)
        ensures
            token@ == self.wire(),
    {
        match self {
            VideoDuration::Any => "any",
            VideoDuration::Short => "short",
            VideoDuration::Medium => "medium",
            VideoDuration::Long => "long",
        }
    }
}

impl WireValue for VideoDuration {
    open spec fn wire(&self) -> Seq<char> {
        match self {
            VideoDuration::Any => "any"@,
            VideoDuration::Short => "short"@,
            VideoDuration::Medium => "medium"@,
            VideoDuration::Long => "long"@,
        }
    }

    fn to_wire(&self) -> (s: String) {
        String::from_str(self.as_str())
    }
}

/// Whether the videos of a search can be embedded.
#[derive(Clone, Copy, Debug, PartialEq, Eq, Structural)]
pub enum VideoEmbeddable {
    /// Embeddable or not.
    Any,
    /// Embeddable only.
    True,
}

impl VideoEmbeddable {
    /// The wire token.
    pub fn as_str(&self) -> (token: &'static str)
        ensures
            token@ == self.wire(),
    {
        match self {
            VideoEmbeddable::Any => "any",
            VideoEmbeddable::True => "true",
        }
    }
}

impl WireValue for VideoEmbeddable {
    open spec fn wire(&self) -> Seq<char> {
        match self {
            VideoEmbeddable::Any => "any"@,
            VideoEmbeddable::True => "true"@,
        }
    }

    fn to_wire(&self) -> (s: String) {
        String::from_str(self.as_str())
    }
}

/// The licenses to which a search can be narrowed.
#[derive(Clone, Copy, Debug, PartialEq, Eq, Structural)]
pub enum VideoLicense {
    /// Every license.
    Any,
    /// Creative Commons only.
    CreativeCommon,
    /// The standard license only.
    Youtube,
}

impl VideoLicense {
    /// The wire token.
    pub fn as_str(&self) -> (token: &'static str)
        ensures
            token@ == self.wire(),
    {
        match self {
            VideoLicense::Any => "any",
            VideoLicense::CreativeCommon => "creativeCommon",
            VideoLicense::Youtube => "youtube",
        }
    }
}

impl WireValue for VideoLicense {
    open spec fn wire(&self) -> Seq<char> {
        match self {
            VideoLicense::Any => "any"@,
            VideoLicense::CreativeCommon => "creativeCommon"@,
            VideoLicense::Youtube => "youtube"@,
        }
    }

    fn to_wire(&self) -> (s: String) {
        String::from_str(self.as_str())
    }
}

/// Whether the videos of a search hold paid promotion.
#[derive(Clone, Copy, Debug, PartialEq, Eq, Structural)]
pub enum VideoPaidProductPlacement {
    /// With or without paid promotion.
    Any,
    /// With paid promotion only.
    True,
}

impl VideoPaidProductPlacement {
    /// The wire token.
    pub fn as_str(&self) -> (token: &'static str)
        ensures
            token@ == self.wire(),
    {
        match self {
            VideoPaidProductPlacement::Any => "any",
            VideoPaidProductPlacement::True => "true",
        }
    }
}

impl WireValue for VideoPaidProductPlacement {
    open spec fn wire(&self) -> Seq<char> {
        match self {
            VideoPaidProductPlacement::Any => "any"@,
            VideoPaidProductPlacement::True => "true"@,
        }
    }

    fn to_wire(&self) -> (s: String) {
        String::from_str(self.as_str())
    }
}

/// Whether the videos of a search can be played elsewhere.
#[derive(Clone, Copy, Debug, PartialEq, Eq, Structural)]
pub enum VideoSyndicated {
    /// Syndicated or not.
    Any,
    /// Syndicated only.
    True,
}

impl VideoSyndicated {
    /// The wire token.
    pub fn as_str(&self) -> (token: &'static str)
        ensures
            token@ == self.wire(),
    {
        match self {
            VideoSyndicated::Any => "any",
            VideoSyndicated::True => "true",
        }
    }
}

impl WireValue for VideoSyndicated {
    open spec fn wire(&self) -> Seq<char> {
        match self {
            VideoSyndicated::Any => "any"@,
            VideoSyndicated::True => "true"@,
        }
    }

    fn to_wire(&self) -> (s: String) {
        String::from_str(self.as_str())
    }
}

/// The kinds of video to which a search can be narrowed.
#[derive(Clone, Copy, Debug, PartialEq, Eq, Structural)]
pub enum VideoType {
    /// Every video.
    Any,
    /// Episodes of shows only.
    Episode,
    /// Movies only.
    Movie,
}

impl VideoType {
    /// The wire token.
    pub fn as_str(&self) -> (token: &'static str)
        ensures
            token@ == self.wire(),
    {
        match self {
            VideoType::Any => "any",
            VideoType::Episode => "episode",
            VideoType::Movie => "movie",
        }
    }
}

impl WireValue for VideoType {
    open spec fn wire(&self) -> Seq<char> {
        match self {
            VideoType::Any => "any"@,
            VideoType::Episode => "episode"@,
            VideoType::Movie => "movie"@,
        }
    }

    fn to_wire(&self) -> (s: String) {
        String::from_str(self.as_str())
    }
}

/// The service for the search endpoint.
#[derive(Clone)]
pub struct SearchService {
    api_key: String,
}

/// The resource types that a search gives where none were chosen: all of
/// them.
pub open spec fn every_resource_type() -> Seq<ResourceType> {
    seq![ResourceType::Channel, ResourceType::Playlist, ResourceType::Video]
}

impl SearchService {
    /// The authentication key that the service's requests carry.
    pub closed spec fn key(&self) -> Seq<char> {
        self.api_key@
    }

    /// The authentication key that the service's requests carry.
    pub fn api_key(&self) -> (key: &str)
        ensures
            key@ == self.key(),
    {
        self.api_key.as_str()
    }

    /// The service of a session that authenticates with `api_key`.
    pub fn new(api_key: String) -> (service: Self)
        ensures
            service.key() == api_key@,
    {
        Self { api_key }
    }

    /// A builder for a request that asks for `part`, or for the snippet where
    /// `part` is empty. It searches every resource type and nothing else is
    /// set.
    pub fn list(&self, part: Vec<Part>) -> (list: SearchList<'_>)
        ensures
            list@ == SearchListView::fresh(
                self.key(),
                if part@.len() == 0 {
                    seq![Part::Snippet]
                } else {
                    part@
                },
            ),
    {
        SearchList::new(self, part)
    }
}

/// A search request, while it is configured.
pub struct SearchList<'a> {
    service: &'a SearchService,
    part: Vec<Part>,
    for_content_owner: Option<bool>,
    for_developer: Option<bool>,
    for_mine: Option<bool>,
    channel_id: Option<&'a str>,
    channel_type: Option<ChannelType>,
    event_type: Option<EventType>,
    location: Option<&'a str>,
    location_radius: Option<&'a str>,
    max_results: Option<u32>,
    on_behalf_of_content_owner: Option<&'a str>,
    order: Option<Order>,
    page_token: Option<&'a str>,
    published_after: Option<Timestamp>,
    published_before: Option<Timestamp>,
    q: Option<&'a str>,
    region_code: Option<&'a str>,
    relevance_language: Option<&'a str>,
    safe_search: Option<SafeSearch>,
    topic_id: Option<&'a str>,
    resource_type: Vec<ResourceType>,
    video_caption: Option<VideoCaption>,
    video_category_id: Option<&'a str>,
    video_definition: Option<VideoDefinition>,
    video_dimension: Option<VideoDimension>,
    video_duration: Option<VideoDuration>,
    video_embeddable: Option<VideoEmbeddable>,
    video_license: Option<VideoLicense>,
    video_paid_product_placement: Option<VideoPaidProductPlacement>,
    video_syndicated: Option<VideoSyndicated>,
    video_type: Option<VideoType>,
}

/// The configuration of a `SearchList`.
pub struct SearchListView {
    pub api_key: Seq<char>,
    pub part: Seq<Part>,
    pub for_content_owner: Option<bool>,
    pub for_developer: Option<bool>,
    pub for_mine: Option<bool>,
    pub channel_id: Option<Seq<char>>,
    pub channel_type: Option<ChannelType>,
    pub event_type: Option<EventType>,
    pub location: Option<Seq<char>>,
    pub location_radius: Option<Seq<char>>,
    pub max_results: Option<u32>,
    pub on_behalf_of_content_owner: Option<Seq<char>>,
    pub order: Option<Order>,
    pub page_token: Option<Seq<char>>,
    pub published_after: Option<Timestamp>,
    pub published_before: Option<Timestamp>,
    pub q: Option<Seq<char>>,
    pub region_code: Option<Seq<char>>,
    pub relevance_language: Option<Seq<char>>,
    pub safe_search: Option<SafeSearch>,
    pub topic_id: Option<Seq<char>>,
    pub resource_type: Seq<ResourceType>,
    pub video_caption: Option<VideoCaption>,
    pub video_category_id: Option<Seq<char>>,
    pub video_definition: Option<VideoDefinition>,
    pub video_dimension: Option<VideoDimension>,
    pub video_duration: Option<VideoDuration>,
    pub video_embeddable: Option<VideoEmbeddable>,
    pub video_license: Option<VideoLicense>,
    pub video_paid_product_placement: Option<VideoPaidProductPlacement>,
    pub video_syndicated: Option<VideoSyndicated>,
    pub video_type: Option<VideoType>,
}

/// The error for a parameter that is used while the resource type is not
/// narrowed to videos alone.
pub open spec fn type_must_be_video(parameter: Seq<char>) -> ErrorView {
    invalid_argument(
        "parameter `type` must be set to `video` when using `"@ + parameter + "`"@,
    )
}

/// Builds the error for a parameter that is used while the resource type is
/// not narrowed to videos alone.
pub fn type_must_set_be_video(parameter: &str) -> (error: Error)
    ensures
        error@ == type_must_be_video(parameter@),
{
    let mut detail = String::from_str("parameter `type` must be set to `video` when using `");
    detail.append(parameter);
    detail.append("`");
    invalid_argument_error(detail.as_str())
}

impl SearchListView {
    /// The configuration of a builder on which nothing was set.
    pub open spec fn fresh(api_key: Seq<char>, part: Seq<Part>) -> SearchListView {
        SearchListView {
            api_key,
            part,
            for_content_owner: None,
            for_developer: None,
            for_mine: None,
            channel_id: None,
            channel_type: None,
            event_type: None,
            location: None,
            location_radius: None,
            max_results: None,
            on_behalf_of_content_owner: None,
            order: None,
            page_token: None,
            published_after: None,
            published_before: None,
            q: None,
            region_code: None,
            relevance_language: None,
            safe_search: None,
            topic_id: None,
            resource_type: every_resource_type(),
            video_caption: None,
            video_category_id: None,
            video_definition: None,
            video_dimension: None,
            video_duration: None,
            video_embeddable: None,
            video_license: None,
            video_paid_product_placement: None,
            video_syndicated: None,
            video_type: None,
        }
    }

    /// The filter group of the endpoint, in the order of its declaration: at
    /// most one of its members may be set.
    pub open spec fn filters(self) -> Seq<(bool, Seq<char>)> {
        seq![
            (self.for_content_owner is Some, "for_content_owner"@),
            (self.for_developer is Some, "for_developer"@),
            (self.for_mine is Some, "for_mine"@),
        ]
    }

    /// The resource type is narrowed to videos alone.
    pub open spec fn video_only(self) -> bool {
        self.resource_type.len() == 1 && self.resource_type[0] == ResourceType::Video
    }

    /// The parameters that the request offers, in the order in which it
    /// offers them.
    pub open spec fn offers(self) -> Seq<Offer> {
        seq![
            ("key"@, Some(self.api_key)),
            ("part"@, Some(list_wire(self.part))),
            ("channelId"@, self.channel_id),
            ("channelType"@, wire_of(self.channel_type)),
            ("eventType"@, wire_of(self.event_type)),
            ("location"@, self.location),
            ("locationRadius"@, self.location_radius),
            ("maxResults"@, wire_of(self.max_results)),
            ("order"@, wire_of(self.order)),
            ("pageToken"@, self.page_token),
            ("publishedAfter"@, time_wire_of(self.published_after)),
            ("publishedBefore"@, time_wire_of(self.published_before)),
            ("q"@, self.q),
            ("regionCode"@, self.region_code),
            ("relevanceLanguage"@, self.relevance_language),
            ("safeSearch"@, wire_of(self.safe_search)),
            ("topicId"@, self.topic_id),
            ("type"@, Some(list_wire(self.resource_type))),
            ("videoCaption"@, wire_of(self.video_caption)),
            ("videoCategoryId"@, self.video_category_id),
            ("videoDefinition"@, wire_of(self.video_definition)),
            ("videoDimension"@, wire_of(self.video_dimension)),
            ("videoDuration"@, wire_of(self.video_duration)),
            ("videoEmbeddable"@, wire_of(self.video_embeddable)),
            ("videoLicense"@, wire_of(self.video_license)),
            ("videoPaidProductPlacement"@, wire_of(self.video_paid_product_placement)),
            ("videoSyndicated"@, wire_of(self.video_syndicated)),
            ("videoType"@, wire_of(self.video_type)),
        ]
    }

    /// The query parameters of the request, for a configuration that breaks
    /// no rule: what is offered, less the absent and the empty values.
    pub open spec fn params(self) -> Map<Seq<char>, Seq<char>> {
        offered(Map::empty(), self.offers())
    }
    /// The rule on the filter group that the configuration breaks, if any:
    /// more than one member set, or a member set that needs an authorized
    /// caller.
    pub open spec fn filter_violation(self) -> Option<ErrorView> {
        let names = set_names(self.filters());
        if names.len() > 1 {
            Some(incompatible(names))
        } else if self.for_content_owner is Some {
            Some(unauthorized("for_content_owner"@))
        } else if self.for_developer is Some {
            Some(unauthorized("for_developer"@))
        } else if self.for_mine is Some {
            Some(unauthorized("for_mine"@))
        } else {
            None
        }
    }

    /// The rule on broadcasts and places that the configuration breaks, if
    /// any: the kind of broadcast and the place need the resource type
    /// narrowed to videos, and the radius needs a place.
    pub open spec fn place_violation(self) -> Option<ErrorView> {
        if self.event_type is Some && !self.video_only() {
            Some(type_must_be_video("event_type"@))
        } else if self.location is Some && !self.video_only() {
            Some(type_must_be_video("location"@))
        } else if self.location_radius is Some && self.location is None {
            Some(
                invalid_argument(
                    "parameter `location` must be specified when using `location_radius`"@,
                ),
            )
        } else {
            None
        }
    }

    /// The first video filter, in the order of their declaration, that is set
    /// while the resource type is not narrowed to videos, if any.
    pub open spec fn video_filter_violation(self) -> Option<ErrorView> {
        if self.video_only() {
            None
        } else if self.video_caption is Some {
            Some(type_must_be_video("video_caption"@))
        } else if self.video_category_id is Some {
            Some(type_must_be_video("video_category_id"@))
        } else if self.video_definition is Some {
            Some(type_must_be_video("video_definition"@))
        } else if self.video_dimension is Some {
            Some(type_must_be_video("video_dimension"@))
        } else if self.video_duration is Some {
            Some(type_must_be_video("video_duration"@))
        } else if self.video_embeddable is Some {
            Some(type_must_be_video("video_embeddable"@))
        } else if self.video_license is Some {
            Some(type_must_be_video("video_license"@))
        } else if self.video_paid_product_placement is Some {
            Some(type_must_be_video("video_paid_product_placement"@))
        } else if self.video_syndicated is Some {
            Some(type_must_be_video("video_syndicated"@))
        } else if self.video_type is Some {
            Some(type_must_be_video("video_type"@))
        } else {
            None
        }
    }

    /// The first rule that the configuration breaks, if any: the rules on
    /// the filter group come first, then those on broadcasts and places, then
    /// those on the video filters.
    pub open spec fn violation(self) -> Option<ErrorView> {
        if self.filter_violation() is Some {
            self.filter_violation()
        } else if self.place_violation() is Some {
            self.place_violation()
        } else {
            self.video_filter_violation()
        }
    }

    /// What finishing the builder gives.
    pub open spec fn outcome(self) -> Result<Map<Seq<char>, Seq<char>>, ErrorView> {
        match self.violation() {
            Some(error) => Err(error),
            None => Ok(self.params()),
        }
    }

    /// The names of the members of the filter group that are set, in the
    /// order of their declaration.
    pub open spec fn chosen(self) -> Seq<Seq<char>> {
        named_if(self.for_content_owner is Some, "for_content_owner"@) + named_if(
            self.for_developer is Some,
            "for_developer"@,
        ) + named_if(self.for_mine is Some, "for_mine"@)
    }

    /// One of the parameters that need the resource type narrowed to videos
    /// is set.
    pub open spec fn uses_video_filter(self) -> bool {
        ||| self.event_type is Some
        ||| self.location is Some
        ||| self.video_caption is Some
        ||| self.video_category_id is Some
        ||| self.video_definition is Some
        ||| self.video_dimension is Some
        ||| self.video_duration is Some
        ||| self.video_embeddable is Some
        ||| self.video_license is Some
        ||| self.video_paid_product_placement is Some
        ||| self.video_syndicated is Some
        ||| self.video_type is Some
    }
}

/// At most one member of the filter group may be set. A configuration with
/// two or more is refused as holding incompatible parameters, and the message
/// names the members that are set, in the order of their declaration: all
/// three where all three are set. With none or one set, the request is never
/// refused for incompatible parameters, and with none set the filter group
/// raises no objection at all.
pub proof fn lemma_at_most_one_filter(v: SearchListView)
    ensures
        set_names(v.filters()) == v.chosen(),
        v.chosen().len() >= 2 ==> v.outcome() == Err::<Map<Seq<char>, Seq<char>>, ErrorView>(
            builder_error(
                BuilderErrorKindView::IncompatibleParameters {
                    message: "Incompatible parameters specified in the request: "@ + joined(
                        v.chosen(),
                        ", "@,
                    ),
                },
            ),
        ),
        v.for_content_owner is Some && v.for_developer is Some && v.for_mine is Some
            ==> v.chosen() == seq!["for_content_owner"@, "for_developer"@, "for_mine"@],
        v.chosen().len() <= 1 ==> match v.outcome() {
            Ok(_) => true,
            Err(error) => !error.is_incompatible_parameters(),
        },
        v.chosen().len() == 0 ==> v.filter_violation() is None,
{
    lemma_set_names_three(
        (v.for_content_owner is Some, "for_content_owner"@),
        (v.for_developer is Some, "for_developer"@),
        (v.for_mine is Some, "for_mine"@),
    );
    if v.for_content_owner is Some && v.for_developer is Some && v.for_mine is Some {
        assert(v.chosen() =~= seq!["for_content_owner"@, "for_developer"@, "for_mine"@]);
    }
}

/// A member of the filter group, set as the only one, has the request
/// refused for want of authorization, whatever else is set.
pub proof fn lemma_gated_filter_refused(v: SearchListView)
    requires
        v.chosen().len() == 1,
    ensures
        v.for_content_owner is Some ==> v.outcome() == Err::<
            Map<Seq<char>, Seq<char>>,
            ErrorView,
        >(unauthorized("for_content_owner"@)),
        v.for_developer is Some ==> v.outcome() == Err::<Map<Seq<char>, Seq<char>>, ErrorView>(
            unauthorized("for_developer"@),
        ),
        v.for_mine is Some ==> v.outcome() == Err::<Map<Seq<char>, Seq<char>>, ErrorView>(
            unauthorized("for_mine"@),
        ),
{
    lemma_at_most_one_filter(v);
}

/// Where no member of the filter group is set: a parameter that needs the
/// resource type narrowed to videos, used without that, has the request
/// refused for an invalid parameter; with the resource type narrowed to
/// videos alone, and a place wherever a radius is set, the request is
/// accepted.
pub proof fn lemma_video_filters_need_videos(v: SearchListView)
    requires
        v.chosen().len() == 0,
    ensures
        v.uses_video_filter() && !v.video_only() ==> match v.outcome() {
            Ok(_) => false,
            Err(error) => error.is_invalid_parameter(),
        },
        v.video_only() && (v.location_radius is Some ==> v.location is Some) ==> v.outcome()
            == Ok::<Map<Seq<char>, Seq<char>>, ErrorView>(v.params()),
{
    lemma_at_most_one_filter(v);
}

/// The page size never decides whether a request is accepted.
pub proof fn lemma_page_size_never_refused(v: SearchListView, size: Option<u32>)
    ensures
        v.outcome() is Ok <==> (SearchListView { max_results: size, ..v }).outcome() is Ok,
        v.outcome() is Ok ==> v.outcome() == Ok::<Map<Seq<char>, Seq<char>>, ErrorView>(v.params()),
{
}

/// A request sends the page size that the builder holds, as a decimal
/// numeral. The builder holds at most 50.
pub proof fn lemma_page_size_sent(v: SearchListView)
    requires
        v.max_results is Some,
    ensures
        v.params().contains_key("maxResults"@),
        v.params()["maxResults"@] == decimal_text(v.max_results.unwrap() as nat),
        decimal_text(50) == "50"@,
{
    lemma_names();
    let offers = v.offers();
    assert(offers[7].0 == "maxResults"@);
    assert forall|j: int| 7 < j < offers.len() implies (#[trigger] offers[j]).0
        != "maxResults"@ by {
        assert(offers[j].0[0] != 'm');
    }
    lemma_offered_holds(Map::empty(), offers, 7);
    assert(decimal_text(50) =~= "50"@) by {
        reveal_strlit("50");
        reveal_with_fuel(decimal_text, 3);
    }
}

/// Every request carries the authentication key, unless the key is empty,
/// and the parts that are asked for, unless none is: whatever else is set.
/// No parameter of a request has an empty value.
pub proof fn lemma_key_and_part_sent(v: SearchListView)
    ensures
        v.api_key.len() > 0 ==> v.params().contains_key("key"@) && v.params()["key"@] == v.api_key,
        list_wire(v.part).len() > 0 ==> v.params().contains_key("part"@) && v.params()["part"@]
            == list_wire(v.part),
        no_empty_value(v.params()),
{
    lemma_names();
    let offers = v.offers();
    lemma_offered_no_empty(Map::empty(), offers);
    if v.api_key.len() > 0 {
        assert forall|j: int| 0 < j < offers.len() implies (#[trigger] offers[j]).0 != "key"@ by {
            assert(offers[j].0.len() != 3);
        }
        lemma_offered_holds(Map::empty(), offers, 0);
    }
    if list_wire(v.part).len() > 0 {
        assert forall|j: int| 1 < j < offers.len() implies (#[trigger] offers[j]).0 != "part"@ by {
            assert(offers[j].0.len() != 4 || offers[j].0[0] != 'p');
        }
        lemma_offered_holds(Map::empty(), offers, 1);
    }
}

/// What the wire names of the endpoint are made of.
proof fn lemma_names()
    ensures
        "key"@.len() == 3 && "key"@[0] == 'k',
        "part"@.len() == 4 && "part"@[0] == 'p',
        "channelId"@.len() == 9 && "channelId"@[0] == 'c',
        "channelType"@.len() == 11 && "channelType"@[0] == 'c',
        "eventType"@.len() == 9 && "eventType"@[0] == 'e',
        "location"@.len() == 8 && "location"@[0] == 'l',
        "locationRadius"@.len() == 14 && "locationRadius"@[0] == 'l',
        "maxResults"@.len() == 10 && "maxResults"@[0] == 'm',
        "order"@.len() == 5 && "order"@[0] == 'o',
        "pageToken"@.len() == 9 && "pageToken"@[0] == 'p',
        "publishedAfter"@.len() == 14 && "publishedAfter"@[0] == 'p',
        "publishedBefore"@.len() == 15 && "publishedBefore"@[0] == 'p',
        "q"@.len() == 1 && "q"@[0] == 'q',
        "regionCode"@.len() == 10 && "regionCode"@[0] == 'r',
        "relevanceLanguage"@.len() == 17 && "relevanceLanguage"@[0] == 'r',
        "safeSearch"@.len() == 10 && "safeSearch"@[0] == 's',
        "topicId"@.len() == 7 && "topicId"@[0] == 't',
        "type"@.len() == 4 && "type"@[0] == 't',
        "videoCaption"@.len() == 12 && "videoCaption"@[0] == 'v',
        "videoCategoryId"@.len() == 15 && "videoCategoryId"@[0] == 'v',
        "videoDefinition"@.len() == 15 && "videoDefinition"@[0] == 'v',
        "videoDimension"@.len() == 14 && "videoDimension"@[0] == 'v',
        "videoDuration"@.len() == 13 && "videoDuration"@[0] == 'v',
        "videoEmbeddable"@.len() == 15 && "videoEmbeddable"@[0] == 'v',
        "videoLicense"@.len() == 12 && "videoLicense"@[0] == 'v',
        "videoPaidProductPlacement"@.len() == 25 && "videoPaidProductPlacement"@[0] == 'v',
        "videoSyndicated"@.len() == 15 && "videoSyndicated"@[0] == 'v',
        "videoType"@.len() == 9 && "videoType"@[0] == 'v',
{
    reveal_strlit("key");
    reveal_strlit("part");
    reveal_strlit("channelId");
    reveal_strlit("channelType");
    reveal_strlit("eventType");
    reveal_strlit("location");
    reveal_strlit("locationRadius");
    reveal_strlit("maxResults");
    reveal_strlit("order");
    reveal_strlit("pageToken");
    reveal_strlit("publishedAfter");
    reveal_strlit("publishedBefore");
    reveal_strlit("q");
    reveal_strlit("regionCode");
    reveal_strlit("relevanceLanguage");
    reveal_strlit("safeSearch");
    reveal_strlit("topicId");
    reveal_strlit("type");
    reveal_strlit("videoCaption");
    reveal_strlit("videoCategoryId");
    reveal_strlit("videoDefinition");
    reveal_strlit("videoDimension");
    reveal_strlit("videoDuration");
    reveal_strlit("videoEmbeddable");
    reveal_strlit("videoLicense");
    reveal_strlit("videoPaidProductPlacement");
    reveal_strlit("videoSyndicated");
    reveal_strlit("videoType");
}

impl<'a> View for SearchList<'a> {
    type V = SearchListView;

    closed spec fn view(&self) -> SearchListView {
        SearchListView {
            api_key: self.service.key(),
            part: self.part@,
            for_content_owner: self.for_content_owner,
            for_developer: self.for_developer,
            for_mine: self.for_mine,
            channel_id: str_text(self.channel_id),
            channel_type: self.channel_type,
            event_type: self.event_type,
            location: str_text(self.location),
            location_radius: str_text(self.location_radius),
            max_results: self.max_results,
            on_behalf_of_content_owner: str_text(self.on_behalf_of_content_owner),
            order: self.order,
            page_token: str_text(self.page_token),
            published_after: self.published_after,
            published_before: self.published_before,
            q: str_text(self.q),
            region_code: str_text(self.region_code),
            relevance_language: str_text(self.relevance_language),
            safe_search: self.safe_search,
            topic_id: str_text(self.topic_id),
            resource_type: self.resource_type@,
            video_caption: self.video_caption,
            video_category_id: str_text(self.video_category_id),
            video_definition: self.video_definition,
            video_dimension: self.video_dimension,
            video_duration: self.video_duration,
            video_embeddable: self.video_embeddable,
            video_license: self.video_license,
            video_paid_product_placement: self.video_paid_product_placement,
            video_syndicated: self.video_syndicated,
            video_type: self.video_type,
        }
    }
}

impl<'a> DataApi for SearchList<'a> {
    fn api_path(&self) -> (p: &str)
        ensures
            p@ == "search"@,
    {
        "search"
    }
}

impl<'a> ListApi for SearchList<'a> {
    open spec fn outcome(&self) -> Result<Map<Seq<char>, Seq<char>>, ErrorView> {
        self@.outcome()
    }

    fn request(&self) -> (result: Result<RequestParameters, Error>) {
        if let Some(error) = self.check_filters() {
            return Err(error);
        }
        if let Some(error) = self.check_places() {
            return Err(error);
        }
        if let Some(error) = self.check_video_filters() {
            return Err(error);
        }
        Ok(self.query())
    }
}

impl<'a> SearchList<'a> {
    fn has_video_type_only(&self) -> (yes: bool)
        ensures
            yes == self@.video_only(),
    {
        self.resource_type.len() == 1 && self.resource_type[0] == ResourceType::Video
    }

    fn check_filters(&self) -> (error: Option<Error>)
        ensures
            error_view(error) == self@.filter_violation(),
    {
        let group = vec![
            (self.for_content_owner.is_some(), "for_content_owner"),
            (self.for_developer.is_some(), "for_developer"),
            (self.for_mine.is_some(), "for_mine"),
        ];
        let names = selected(&group);
        assert(group_texts(group@) =~= self@.filters());
        assert(names@.len() == texts(names@).len());
        if names.len() > 1 {
            return Some(incompatible_error(&names));
        }
        if self.for_content_owner.is_some() {
            return Some(unauthorized_error("for_content_owner"));
        }
        if self.for_developer.is_some() {
            return Some(unauthorized_error("for_developer"));
        }
        if self.for_mine.is_some() {
            return Some(unauthorized_error("for_mine"));
        }
        None
    }

    fn check_places(&self) -> (error: Option<Error>)
        ensures
            error_view(error) == self@.place_violation(),
    {
        let has_video_type_only = self.has_video_type_only();
        if self.event_type.is_some() && !has_video_type_only {
            return Some(type_must_set_be_video("event_type"));
        }
        if self.location.is_some() && !has_video_type_only {
            return Some(type_must_set_be_video("location"));
        }
        if self.location_radius.is_some() && self.location.is_none() {
            return Some(
                invalid_argument_error(
                    "parameter `location` must be specified when using `location_radius`",
                ),
            );
        }
        None
    }

    fn check_video_filters(&self) -> (error: Option<Error>)
        ensures
            error_view(error) == self@.video_filter_violation(),
    {
        if self.has_video_type_only() {
            return None;
        }

        if self.video_caption.is_some() {
            return Some(type_must_set_be_video("video_caption"));
        }
        if self.video_category_id.is_some() {
            return Some(type_must_set_be_video("video_category_id"));
        }
        if self.video_definition.is_some() {
            return Some(type_must_set_be_video("video_definition"));
        }
        if self.video_dimension.is_some() {
            return Some(type_must_set_be_video("video_dimension"));
        }
        if self.video_duration.is_some() {
            return Some(type_must_set_be_video("video_duration"));
        }
        if self.video_embeddable.is_some() {
            return Some(type_must_set_be_video("video_embeddable"));
        }
        if self.video_license.is_some() {
            return Some(type_must_set_be_video("video_license"));
        }
        if self.video_paid_product_placement.is_some() {
            return Some(type_must_set_be_video("video_paid_product_placement"));
        }
        if self.video_syndicated.is_some() {
            return Some(type_must_set_be_video("video_syndicated"));
        }
        if self.video_type.is_some() {
            return Some(type_must_set_be_video("video_type"));
        }
        None
    }

    fn query(&self) -> (params: RequestParameters)
        ensures
            params@ == self@.params(),
    {
        let offers = vec![
            ("key", rendered(Some(self.service.api_key()))),
            ("part", rendered_list(Some(&self.part))),

            ("channelId", rendered(self.channel_id)),
            ("channelType", rendered(self.channel_type)),
            ("eventType", rendered(self.event_type)),
            ("location", rendered(self.location)),
            ("locationRadius", rendered(self.location_radius)),
            ("maxResults", rendered(self.max_results)),
            ("order", rendered(self.order)),
            ("pageToken", rendered(self.page_token)),
            ("publishedAfter", rendered_time(self.published_after)),
            ("publishedBefore", rendered_time(self.published_before)),
            ("q", rendered(self.q)),
            ("regionCode", rendered(self.region_code)),
            ("relevanceLanguage", rendered(self.relevance_language)),
            ("safeSearch", rendered(self.safe_search)),
            ("topicId", rendered(self.topic_id)),
            ("type", rendered_list(Some(&self.resource_type))),
            ("videoCaption", rendered(self.video_caption)),
            ("videoCategoryId", rendered(self.video_category_id)),
            ("videoDefinition", rendered(self.video_definition)),
            ("videoDimension", rendered(self.video_dimension)),
            ("videoDuration", rendered(self.video_duration)),
            ("videoEmbeddable", rendered(self.video_embeddable)),
            ("videoLicense", rendered(self.video_license)),
            ("videoPaidProductPlacement", rendered(self.video_paid_product_placement)),
            ("videoSyndicated", rendered(self.video_syndicated)),
            ("videoType", rendered(self.video_type)),
        ];
        assert(offer_texts(offers@) =~= self@.offers());
        let mut params = RequestParameters::new();
        self.insert_offers(&mut params, &offers);
        params
    }

    /// A builder for a request that asks for `part`, or for the snippet where
    /// `part` is empty. It searches every resource type and nothing else is
    /// set.
    pub fn new(service: &'a SearchService, part: Vec<Part>) -> (list: Self)
        ensures
            list@ == SearchListView::fresh(
                service.key(),
                if part@.len() == 0 {
                    seq![Part::Snippet]
                } else {
                    part@
                },
            ),
    {
        let ghost given = part@;
        let part = if part.is_empty() {
            vec![Part::Snippet]
        } else {
            part
        };
        assert(part@ =~= if given.len() == 0 {
            seq![Part::Snippet]
        } else {
            given
        });
        let resource_type = vec![ResourceType::Channel, ResourceType::Playlist, ResourceType::Video];
        assert(resource_type@ =~= every_resource_type());
        Self {
            service,
            part,
            for_content_owner: None,
            for_developer: None,
            for_mine: None,
            channel_id: None,
            channel_type: None,
            event_type: None,
            location: None,
            location_radius: None,
            max_results: None,
            on_behalf_of_content_owner: None,
            order: None,
            page_token: None,
            published_after: None,
            published_before: None,
            q: None,
            region_code: None,
            relevance_language: None,
            safe_search: None,
            topic_id: None,
            resource_type,
            video_caption: None,
            video_category_id: None,
            video_definition: None,
            video_dimension: None,
            video_duration: None,
            video_embeddable: None,
            video_license: None,
            video_paid_product_placement: None,
            video_syndicated: None,
            video_type: None,
        }
    }

    /// Asks for the parts `part` instead.
    pub fn part(&mut self, part: Vec<Part>) -> (ret: &mut Self)
        ensures
            ret@ == (SearchListView { part: part@, ..old(self)@ }),
            *final(self) == *final(ret),
    {
        self.part = part;
        self
    }

    /// Narrows the search to what the content owner owns.
    pub fn for_content_owner(&mut self, for_content_owner: bool) -> (ret: &mut Self)
        ensures
            ret@ == (SearchListView { for_content_owner: Some(for_content_owner), ..old(self)@ }),
            *final(self) == *final(ret),
    {
        self.for_content_owner = Some(for_content_owner);
        self
    }

    /// Narrows the search to what was uploaded through the developer's
    /// application.
    pub fn for_developer(&mut self, for_developer: bool) -> (ret: &mut Self)
        ensures
            ret@ == (SearchListView { for_developer: Some(for_developer), ..old(self)@ }),
            *final(self) == *final(ret),
    {
        self.for_developer = Some(for_developer);
        self
    }

    /// Narrows the search to what the caller owns.
    pub fn for_mine(&mut self, for_mine: bool) -> (ret: &mut Self)
        ensures
            ret@ == (SearchListView { for_mine: Some(for_mine), ..old(self)@ }),
            *final(self) == *final(ret),
    {
        self.for_mine = Some(for_mine);
        self
    }

    /// Narrows the search to the channel `channel_id`.
    pub fn channel_id(&mut self, channel_id: &'a str) -> (ret: &mut Self)
        ensures
            ret@ == (SearchListView { channel_id: Some(channel_id@), ..old(self)@ }),
            *final(self) == *final(ret),
    {
        self.channel_id = Some(channel_id);
        self
    }

    /// Narrows the search to channels of the kind `channel_type`.
    pub fn channel_type(&mut self, channel_type: ChannelType) -> (ret: &mut Self)
        ensures
            ret@ == (SearchListView { channel_type: Some(channel_type), ..old(self)@ }),
            *final(self) == *final(ret),
    {
        self.channel_type = Some(channel_type);
        self
    }

    /// Narrows the search to broadcasts of the kind `event_type`. Needs the
    /// resource type narrowed to videos.
    pub fn event_type(&mut self, event_type: EventType) -> (ret: &mut Self)
        ensures
            ret@ == (SearchListView { event_type: Some(event_type), ..old(self)@ }),
            *final(self) == *final(ret),
    {
        self.event_type = Some(event_type);
        self
    }

    /// Narrows the search to videos around the place `location`. Needs the
    /// resource type narrowed to videos.
    pub fn location(&mut self, location: &'a str) -> (ret: &mut Self)
        ensures
            ret@ == (SearchListView { location: Some(location@), ..old(self)@ }),
            *final(self) == *final(ret),
    {
        self.location = Some(location);
        self
    }

    /// Sets how far around the place the search reaches. Needs a place.
    pub fn location_radius(&mut self, location_radius: &'a str) -> (ret: &mut Self)
        ensures
            ret@ == (SearchListView { location_radius: Some(location_radius@), ..old(self)@ }),
            *final(self) == *final(ret),
    {
        self.location_radius = Some(location_radius);
        self
    }

    /// Asks for at most `max_results` items per page; more than 50 are taken
    /// as 50.
    pub fn max_results(&mut self, max_results: u32) -> (ret: &mut Self)
        ensures
            ret@ == (SearchListView {
                max_results: Some(
                    if max_results > 50 {
                        50u32
                    } else {
                        max_results
                    },
                ),
                ..old(self)@
            }),
            *final(self) == *final(ret),
    {
        let max_results = if max_results > 50 {
            50
        } else {
            max_results
        };
        self.max_results = Some(max_results);
        self
    }

    /// Acts on behalf of the content owner `on_behalf_of_content_owner`. The
    /// search sends nothing for it.
    pub fn on_behalf_of_content_owner(&mut self, on_behalf_of_content_owner: &'a str) -> (ret: &mut Self)
        ensures
            ret@ == (SearchListView { on_behalf_of_content_owner: Some(on_behalf_of_content_owner@), ..old(self)@ }),
            *final(self) == *final(ret),
    {
        self.on_behalf_of_content_owner = Some(on_behalf_of_content_owner);
        self
    }

    /// Asks for the results in the order `order`.
    pub fn order(&mut self, order: Order) -> (ret: &mut Self)
        ensures
            ret@ == (SearchListView { order: Some(order), ..old(self)@ }),
            *final(self) == *final(ret),
    {
        self.order = Some(order);
        self
    }

    /// Asks for the page that `page_token` stands for.
    pub fn page_token(&mut self, page_token: &'a str) -> (ret: &mut Self)
        ensures
            ret@ == (SearchListView { page_token: Some(page_token@), ..old(self)@ }),
            *final(self) == *final(ret),
    {
        self.page_token = Some(page_token);
        self
    }

    /// Narrows the search to what was published at or after `published_after`.
    pub fn published_after(&mut self, published_after: Timestamp) -> (ret: &mut Self)
        ensures
            ret@ == (SearchListView { published_after: Some(published_after), ..old(self)@ }),
            *final(self) == *final(ret),
    {
        self.published_after = Some(published_after);
        self
    }

    /// Narrows the search to what was published before `published_before`.
    pub fn published_before(&mut self, published_before: Timestamp) -> (ret: &mut Self)
        ensures
            ret@ == (SearchListView { published_before: Some(published_before), ..old(self)@ }),
            *final(self) == *final(ret),
    {
        self.published_before = Some(published_before);
        self
    }

    /// Sets the query term.
    pub fn q(&mut self, q: &'a str) -> (ret: &mut Self)
        ensures
            ret@ == (SearchListView { q: Some(q@), ..old(self)@ }),
            *final(self) == *final(ret),
    {
        self.q = Some(q);
        self
    }

    /// Asks for results that can be viewed in the region `region_code`.
    pub fn region_code(&mut self, region_code: &'a str) -> (ret: &mut Self)
        ensures
            ret@ == (SearchListView { region_code: Some(region_code@), ..old(self)@ }),
            *final(self) == *final(ret),
    {
        self.region_code = Some(region_code);
        self
    }

    /// Asks for results most relevant to the language `relevance_language`.
    pub fn relevance_language(&mut self, relevance_language: &'a str) -> (ret: &mut Self)
        ensures
            ret@ == (SearchListView { relevance_language: Some(relevance_language@), ..old(self)@ }),
            *final(self) == *final(ret),
    {
        self.relevance_language = Some(relevance_language);
        self
    }

    /// Sets how much restricted content the search leaves out.
    pub fn safe_search(&mut self, safe_search: SafeSearch) -> (ret: &mut Self)
        ensures
            ret@ == (SearchListView { safe_search: Some(safe_search), ..old(self)@ }),
            *final(self) == *final(ret),
    {
        self.safe_search = Some(safe_search);
        self
    }

    /// Narrows the search to the topic `topic_id`.
    pub fn topic_id(&mut self, topic_id: &'a str) -> (ret: &mut Self)
        ensures
            ret@ == (SearchListView { topic_id: Some(topic_id@), ..old(self)@ }),
            *final(self) == *final(ret),
    {
        self.topic_id = Some(topic_id);
        self
    }

    /// Narrows the search to the resource types in `resource_type`.
    pub fn resource_type(&mut self, resource_type: Vec<ResourceType>) -> (ret: &mut Self)
        ensures
            ret@ == (SearchListView { resource_type: resource_type@, ..old(self)@ }),
            *final(self) == *final(ret),
    {
        self.resource_type = resource_type;
        self
    }

    /// Narrows the search by captions. Needs the resource type narrowed to
    /// videos.
    pub fn video_caption(&mut self, video_caption: VideoCaption) -> (ret: &mut Self)
        ensures
            ret@ == (SearchListView { video_caption: Some(video_caption), ..old(self)@ }),
            *final(self) == *final(ret),
    {
        self.video_caption = Some(video_caption);
        self
    }

    /// Narrows the search to the category `video_category_id`. Needs the resource
    /// type narrowed to videos.
    pub fn video_category_id(&mut self, video_category_id: &'a str) -> (ret: &mut Self)
        ensures
            ret@ == (SearchListView { video_category_id: Some(video_category_id@), ..old(self)@ }),
            *final(self) == *final(ret),
    {
        self.video_category_id = Some(video_category_id);
        self
    }

    /// Narrows the search by definition. Needs the resource type narrowed to
    /// videos.
    pub fn video_definition(&mut self, video_definition: VideoDefinition) -> (ret: &mut Self)
        ensures
            ret@ == (SearchListView { video_definition: Some(video_definition), ..old(self)@ }),
            *final(self) == *final(ret),
    {
        self.video_definition = Some(video_definition);
        self
    }

    /// Narrows the search by dimension. Needs the resource type narrowed to
    /// videos.
    pub fn video_dimension(&mut self, video_dimension: VideoDimension) -> (ret: &mut Self)
        ensures
            ret@ == (SearchListView { video_dimension: Some(video_dimension), ..old(self)@ }),
            *final(self) == *final(ret),
    {
        self.video_dimension = Some(video_dimension);
        self
    }

    /// Narrows the search by length. Needs the resource type narrowed to videos.
    pub fn video_duration(&mut self, video_duration: VideoDuration) -> (ret: &mut Self)
        ensures
            ret@ == (SearchListView { video_duration: Some(video_duration), ..old(self)@ }),
            *final(self) == *final(ret),
    {
        self.video_duration = Some(video_duration);
        self
    }

    /// Narrows the search to videos that can be embedded. Needs the resource type
    /// narrowed to videos.
    pub fn video_embeddable(&mut self, video_embeddable: VideoEmbeddable) -> (ret: &mut Self)
        ensures
            ret@ == (SearchListView { video_embeddable: Some(video_embeddable), ..old(self)@ }),
            *final(self) == *final(ret),
    {
        self.video_embeddable = Some(video_embeddable);
        self
    }

    /// Narrows the search by license. Needs the resource type narrowed to videos.
    pub fn video_license(&mut self, video_license: VideoLicense) -> (ret: &mut Self)
        ensures
            ret@ == (SearchListView { video_license: Some(video_license), ..old(self)@ }),
            *final(self) == *final(ret),
    {
        self.video_license = Some(video_license);
        self
    }

    /// Narrows the search by paid promotion. Needs the resource type narrowed to
    /// videos.
    pub fn video_paid_product_placement(&mut self, video_paid_product_placement: VideoPaidProductPlacement) -> (ret: &mut Self)
        ensures
            ret@ == (SearchListView { video_paid_product_placement: Some(video_paid_product_placement), ..old(self)@ }),
            *final(self) == *final(ret),
    {
        self.video_paid_product_placement = Some(video_paid_product_placement);
        self
    }

    /// Narrows the search to videos that can be played elsewhere. Needs the
    /// resource type narrowed to videos.
    pub fn video_syndicated(&mut self, video_syndicated: VideoSyndicated) -> (ret: &mut Self)
        ensures
            ret@ == (SearchListView { video_syndicated: Some(video_syndicated), ..old(self)@ }),
            *final(self) == *final(ret),
    {
        self.video_syndicated = Some(video_syndicated);
        self
    }

    /// Narrows the search by the kind of video. Needs the resource type narrowed
    /// to videos.
    pub fn video_type(&mut self, video_type: VideoType) -> (ret: &mut Self)
        ensures
            ret@ == (SearchListView { video_type: Some(video_type), ..old(self)@ }),
            *final(self) == *final(ret),
    {
        self.video_type = Some(video_type);
        self
    }

}

/// One page of search results.
pub type SearchListResponse = ListResponse<SearchListResource>;

/// A search result.
#[derive(Debug)]
pub struct SearchListResource {
    /// The kind of the resource.
    pub kind: String,
    /// The cache tag of the resource.
    pub etag: String,
    /// What the result refers to.
    pub id: ResourceId,
    /// The result's basic details, where they were asked for.
    pub snippet: Option<SearchSnippet>,
}

/// What a search result refers to: the kind of the resource, and its
/// identifier in the field that belongs to that kind.
#[derive(Debug)]
pub struct ResourceId {
    /// The kind of the resource that the result refers to.
    pub kind: String,
    /// The identifier of the video, where the result is a video.
    pub video_id: Option<String>,
    /// The identifier of the channel, where the result is a channel.
    pub channel_id: Option<String>,
    /// The identifier of the playlist, where the result is a playlist.
    pub playlist_id: Option<String>,
}

/// The basic details of a search result.
#[derive(Debug)]
pub struct SearchSnippet {
    /// When the resource was created.
    pub published_at: Timestamp,
    /// The identifier of the channel that published the resource.
    pub channel_id: String,
    /// The title of the result.
    pub title: Option<String>,
    /// The description of the result.
    pub description: Option<String>,
    /// The result's thumbnail images.
    pub thumbnails: Thumbnails,
    /// The title of the channel that published the resource.
    pub channel_title: String,
    /// Whether the resource is an upcoming or a running broadcast.
    pub live_broadcast_content: Option<String>,
}

} // verus!
