//! The entry point of the client: the credential and the services that build
//! requests with it.

use crate::channels::ChannelsService;
use crate::search::SearchService;
use crate::videos::VideosService;
use vstd::prelude::*;
use vstd::string::StringExecFns;

verus! {

/// A session with the data API: the authentication key, the base of the API's
/// URLs and an optional user agent. Nothing in it changes once it is made.
pub struct YouTube {
    api_key: String,
    base_path: String,
    user_agent: Option<String>,
    channels: ChannelsService,
    search: SearchService,
    videos: VideosService,
}

impl YouTube {
    #[verifier::type_invariant]
    spec fn one_key(&self) -> bool {
        &&& self.channels.key() == self.api_key@
        &&& self.search.key() == self.api_key@
        &&& self.videos.key() == self.api_key@
    }

    /// The authentication key.
    pub closed spec fn key(&self) -> Seq<char> {
        self.api_key@
    }

    /// The base of the API's URLs.
    pub closed spec fn base(&self) -> Seq<char> {
        self.base_path@
    }

    /// The user agent to send, if one was given.
    pub closed spec fn agent(&self) -> Option<Seq<char>> {
        crate::time::text_of(self.user_agent)
    }

    /// A session that authenticates with `api_key`.
    pub fn new(api_key: String, user_agent: Option<String>) -> (youtube: YouTube)
        ensures
            youtube.key() == api_key@,
            youtube.agent() == crate::time::text_of(user_agent),
            youtube.base() == "https://www.googleapis.com/youtube/v3"@,
    {
        let channels = ChannelsService::new(api_key.clone());
        let search = SearchService::new(api_key.clone());
        let videos = VideosService::new(api_key.clone());
        YouTube {
            api_key,
            base_path: String::from_str("https://www.googleapis.com/youtube/v3"),
            user_agent,
            channels,
            search,
            videos,
        }
    }

    /// The authentication key.
    pub fn api_key(&self) -> (key: &str)
        ensures
            key@ == self.key(),
    {
        self.api_key.as_str()
    }

    /// The base of the API's URLs.
    pub fn base_path(&self) -> (base: &str)
        ensures
            base@ == self.base(),
    {
        self.base_path.as_str()
    }

    /// The user agent to send, if one was given.
    pub fn user_agent(&self) -> (agent: Option<&str>)
        ensures
            crate::api::str_text(agent) == self.agent(),
    {
        match &self.user_agent {
            Some(agent) => Some(agent.as_str()),
            None => None,
        }
    }

    /// The service for the channels endpoint. Its requests carry the
    /// session's key.
    pub fn channels(&self) -> (service: &ChannelsService)
        ensures
            service.key() == self.key(),
    {
        proof {
            use_type_invariant(self);
        }
        &self.channels
    }

    /// The service for the search endpoint. Its requests carry the session's
    /// key.
    pub fn search(&self) -> (service: &SearchService)
        ensures
            service.key() == self.key(),
    {
        proof {
            use_type_invariant(self);
        }
        &self.search
    }

    /// The service for the videos endpoint. Its requests carry the session's
    /// key.
    pub fn videos(&self) -> (service: &VideosService)
        ensures
            service.key() == self.key(),
    {
        proof {
            use_type_invariant(self);
        }
        &self.videos
    }
}

impl Clone for YouTube {
    /// A session with the same key, base and user agent.
    fn clone(&self) -> (copy: Self)
        ensures
            copy.key() == self.key(),
            copy.base() == self.base(),
            copy.agent() == self.agent(),
    {
        YouTube {
            api_key: self.api_key.clone(),
            base_path: self.base_path.clone(),
            user_agent: self.user_agent.clone(),
            channels: ChannelsService::new(self.api_key.clone()),
            search: SearchService::new(self.api_key.clone()),
            videos: VideosService::new(self.api_key.clone()),
        }
    }
}

} // verus!
