//! The resource models that every endpoint shares: the envelope of a page of
//! results, thumbnails and localized text.

use vstd::prelude::*;

verus! {

/// Paging information of a result set.
#[derive(Debug)]
pub struct PageInfo {
    /// The total number of results in the result set, an approximation.
    pub total_results: i32,
    /// The number of results that a page holds.
    pub results_per_page: i32,
}

/// The envelope of one page of results.
#[derive(Debug)]
pub struct ListResponse<T> {
    /// The kind of the response.
    pub kind: String,
    /// The cache tag of the response.
    pub etag: String,
    /// The token of the next page, where there is one.
    pub next_page_token: Option<String>,
    /// The token of the previous page, where there is one.
    pub prev_page_token: Option<String>,
    /// The region that the query was answered for.
    pub region_code: Option<String>,
    /// Paging information of the result set.
    pub page_info: PageInfo,
    /// The results of this page, in order.
    pub items: Vec<T>,
}

impl<T> ListResponse<T> {
    /// A page holds no more items than the paging information allows.
    pub open spec fn well_formed(&self) -> bool {
        self.items@.len() <= self.page_info.results_per_page
    }

    /// Whether the page holds no more items than the paging information
    /// allows.
    pub fn is_well_formed(&self) -> (yes: bool)
        ensures
            yes == self.well_formed(),
    {
        self.page_info.results_per_page >= 0 && self.items.len()
            <= self.page_info.results_per_page as usize
    }

    /// Whether a page follows this one.
    pub fn has_next_page(&self) -> (yes: bool)
        ensures
            yes == self.next_page_token is Some,
    {
        self.next_page_token.is_some()
    }
}

/// The sizes in which a thumbnail image comes.
#[derive(Clone, Copy, Debug, PartialEq, Eq, Hash, Structural)]
pub enum ThumbnailKind {
    /// The default size.
    Default,
    /// A higher resolution than the default.
    Medium,
    /// A high resolution.
    High,
    /// A higher resolution than high, for some videos.
    Standard,
    /// The highest resolution, for some videos.
    Maxres,
}

/// A thumbnail image.
#[derive(Debug)]
pub struct Thumbnail {
    /// The image's URL.
    pub url: String,
    /// The image's width.
    pub width: Option<u32>,
    /// The image's height.
    pub height: Option<u32>,
}

/// The thumbnail images of a resource, at most one of each size.
#[derive(Debug)]
pub struct Thumbnails {
    default: Option<Thumbnail>,
    medium: Option<Thumbnail>,
    high: Option<Thumbnail>,
    standard: Option<Thumbnail>,
    maxres: Option<Thumbnail>,
}

impl Thumbnails {
    /// The image of the size `kind`, if the set has one.
    pub closed spec fn image(&self, kind: ThumbnailKind) -> Option<Thumbnail> {
        match kind {
            ThumbnailKind::Default => self.default,
            ThumbnailKind::Medium => self.medium,
            ThumbnailKind::High => self.high,
            ThumbnailKind::Standard => self.standard,
            ThumbnailKind::Maxres => self.maxres,
        }
    }

    /// The set without any image.
    pub fn new() -> (set: Thumbnails)
        ensures
            forall|kind: ThumbnailKind| set.image(kind) is None,
    {
        Thumbnails { default: None, medium: None, high: None, standard: None, maxres: None }
    }

    /// Puts `thumbnail` in as the image of the size `kind` and gives back the
    /// image that had the size before.
    pub fn insert(&mut self, kind: ThumbnailKind, thumbnail: Thumbnail) -> (before: Option<
        Thumbnail,
    >)
        ensures
            before == old(self).image(kind),
            final(self).image(kind) == Some(thumbnail),
            forall|other: ThumbnailKind|
                other != kind ==> final(self).image(other) == old(self).image(other),
    {
        match kind {
            ThumbnailKind::Default => {
                let before = self.default.take();
                self.default = Some(thumbnail);
                before
            },
            ThumbnailKind::Medium => {
                let before = self.medium.take();
                self.medium = Some(thumbnail);
                before
            },
            ThumbnailKind::High => {
                let before = self.high.take();
                self.high = Some(thumbnail);
                before
            },
            ThumbnailKind::Standard => {
                let before = self.standard.take();
                self.standard = Some(thumbnail);
                before
            },
            ThumbnailKind::Maxres => {
                let before = self.maxres.take();
                self.maxres = Some(thumbnail);
                before
            },
        }
    }

    /// The image of the size `kind`, if the set has one.
    pub fn get(&self, kind: ThumbnailKind) -> (found: Option<&Thumbnail>)
        ensures
            found is Some <==> self.image(kind) is Some,
            found is Some ==> *found.unwrap() == self.image(kind).unwrap(),
    {
        match kind {
            ThumbnailKind::Default => self.default.as_ref(),
            ThumbnailKind::Medium => self.medium.as_ref(),
            ThumbnailKind::High => self.high.as_ref(),
            ThumbnailKind::Standard => self.standard.as_ref(),
            ThumbnailKind::Maxres => self.maxres.as_ref(),
        }
    }
}

/// A title and a description in one language.
#[derive(Debug)]
pub struct Localization {
    /// The localized description.
    pub description: String,
    /// The localized title.
    pub title: String,
}

} // verus!
