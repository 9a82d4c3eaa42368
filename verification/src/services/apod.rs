//! NASA's Astronomy Picture of the Day: the embed made from an APOD answer,
//! the cache key of a day's answer, and the retry policy of the fetch.

use vstd::prelude::*;
use vstd::string::*;

use crate::discord::embed::{Embed, EmbedAuthor, EmbedField, EmbedFooter, EmbedImage, EmbedVideo};
use crate::text::{join_strings, join_with, replace_all, replace_str};
use crate::traits::color::{hex_color_value, trim_start_char};

verus! {

#[verifier::external_type_specification]
#[verifier::external_body]
pub struct ExUrl(url::Url);

#[verifier::external_type_specification]
#[verifier::external_body]
pub struct ExNaiveDate(chrono::NaiveDate);

/// Whether `Url::parse` accepts `input`.
pub uninterp spec fn url_parses(input: Seq<char>) -> bool;

/// The path segments that `Url::path_segments` yields for the URL parsed from
/// `input` (`None` for a URL that cannot be a base).
pub uninterp spec fn url_path_segments(input: Seq<char>) -> Option<Seq<Seq<char>>>;

/// A URL together with the text it was parsed from.
pub struct ParsedUrl {
    url: url::Url,
    source: String,
}

impl View for ParsedUrl {
    type V = Seq<char>;

    closed spec fn view(&self) -> Seq<char> {
        self.source@
    }
}

/// Parses `input` with `Url::parse`, which succeeds exactly when the text
/// is an absolute URL that `url_parses` accepts.
#[verifier::external_body]
fn parse_url(input: &str) -> (res: Option<ParsedUrl>)
    ensures
        res is Some <==> url_parses(input@),
        res matches Some(u) ==> u@ == input@,
{
    match url::Url::parse(input) {
        Ok(url) => Some(ParsedUrl { url, source: input.to_string() }),
        Err(_) => None,
    }
}

/// The path segments of a parsed URL, from `Url::path_segments`, collected.
#[verifier::external_body]
fn path_segments(url: &ParsedUrl) -> (res: Option<Vec<String>>)
    ensures
        match url_path_segments(url@) {
            Some(s) => res matches Some(v) && v@.map_values(|p: String| p@) == s,
            None => res is None,
        },
{
    url.url.path_segments().map(|segments| segments.map(|s| s.to_string()).collect())
}

/// The YouTube watch URL for the path segments of an embed URL: the first
/// segment is `embed` and a second one (the video id) follows.
pub open spec fn watch_from_segments(segments: Seq<Seq<char>>) -> Option<Seq<char>> {
    if segments.len() >= 2 && segments[0] == "embed"@ {
        Some("https://www.youtube.com/watch?v="@ + segments[1])
    } else {
        None
    }
}

/// The YouTube watch URL of an embed URL `https://…/embed/<id>…` (see
/// `watch_from_segments`), where the text parses as a URL with path segments.
pub open spec fn watch_url(input: Seq<char>) -> Option<Seq<char>> {
    if url_parses(input) {
        match url_path_segments(input) {
            Some(s) => watch_from_segments(s),
            None => None,
        }
    } else {
        None
    }
}

/// The YouTube watch URL for the path segments of an embed URL.
pub fn watch_url_from_segments(segments: &Vec<String>) -> (res: Option<String>)
    ensures
        match watch_from_segments(segments@.map_values(|p: String| p@)) {
            Some(w) => res matches Some(r) && r@ == w,
            None => res is None,
        },
{
    let ghost views = segments@.map_values(|p: String| p@);
    if segments.len() >= 2 {
        assert(views[0] == segments@[0]@);
        assert(views[1] == segments@[1]@);
        if segments[0] == "embed".to_owned() {
            let mut url = "https://www.youtube.com/watch?v=".to_owned();
            url.append(segments[1].as_str());
            return Some(url);
        }
    }
    None
}

/// Turns NASA's embedded-video URL into a YouTube watch URL.
pub fn convert_to_watch_url(nasa_embed_url: &str) -> (res: Option<String>)
    ensures
        match watch_url(nasa_embed_url@) {
            Some(w) => res matches Some(r) && r@ == w,
            None => res is None,
        },
{
    let parsed = match parse_url(nasa_embed_url) {
        Some(u) => u,
        None => return None,
    };
    let segments = match path_segments(&parsed) {
        Some(s) => s,
        None => return None,
    };
    watch_url_from_segments(&segments)
}

/// The kind of media of the day.
#[derive(Clone, Copy, Debug, PartialEq, Eq, Structural)]
pub enum ApodMediaType {
    Video,
    Image,
}

/// NASA's answer for a day.
pub struct ApodResponse {
    pub title: String,
    pub explanation: String,
    pub media_type: ApodMediaType,
    pub url: String,
    pub hdurl: Option<String>,
    pub service_version: String,
    pub date: chrono::NaiveDate,
    pub concepts: Option<Vec<String>>,
    pub thumbnail_url: Option<String>,
    pub copyright: Option<String>,
}

/// The icon shown in the APOD embed's footer and author line.
pub open spec fn apod_icon() -> Seq<char> {
    "https://api.nasa.gov/assets/img/favicons/favicon-192.png"@
}

/// The URL of the media: for a video, its YouTube watch URL where one can
/// be made, else the URL as NASA gave it.
pub open spec fn apod_media_url(data: ApodResponse) -> Seq<char> {
    match data.media_type {
        ApodMediaType::Video => match watch_url(data.url@) {
            Some(w) => w,
            None => data.url@,
        },
        ApodMediaType::Image => data.url@,
    }
}

/// Whether `o` holds a string with the characters `s`.
pub open spec fn opt_str_is(o: Option<String>, s: Seq<char>) -> bool {
    o matches Some(x) && x@ == s
}

/// Whether `e` is the embed of the day `data`.
pub open spec fn is_apod_embed(e: Embed, data: ApodResponse) -> bool {
    &&& e.color == hex_color_value("#4889D8"@)
    &&& e.title matches Some(t) && t@ == data.title@
    &&& e.description matches Some(d) && d@ == replace_all(data.explanation@, ". "@, ". \n\n"@)
    &&& e.footer matches Some(f) && f.text@ == "Resource provided by NASA APOD api"@
        && opt_str_is(f.icon_url, apod_icon()) && f.proxy_icon_url is None
    &&& e.author matches Some(a)
        && a.name@ == (match data.copyright { Some(c) => c@, None => "NASA"@ })
        && opt_str_is(a.icon_url, apod_icon())
        && opt_str_is(a.url, "https://nasa.gov"@)
        && a.proxy_icon_url is None
    &&& match data.concepts {
        Some(c) => e.fields@.len() == 1 && e.fields@[0].name@ == "Concepts"@
            && e.fields@[0].value@ == join_with(c@.map_values(|p: String| p@), ","@)
            && !e.fields@[0].inline,
        None => e.fields@.len() == 0,
    }
    &&& e.url matches Some(u) && u@ == apod_media_url(data)
    &&& match data.media_type {
        ApodMediaType::Video => e.video matches Some(v) && opt_str_is(v.url, apod_media_url(data))
            && v.height is None && v.width is None && v.proxy_url is None && e.image is None,
        ApodMediaType::Image => e.image matches Some(i) && i.url@ == apod_media_url(data)
            && i.height is None && i.width is None && i.proxy_url is None && e.video is None,
    }
    &&& e.kind@ == "rich"@
    &&& e.provider is None && e.thumbnail is None && e.timestamp is None
}

/// Builds the embed of the day.
pub fn build_embed(data: ApodResponse) -> (res: Embed)
    ensures
        is_apod_embed(res, data),
{
    let ghost d = data;
    let mut embed = Embed::new();
    embed.set_color("#4889D8");
    embed.set_title(data.title);
    proof {
        reveal_strlit(". ");
    }
    embed.set_description(replace_str(data.explanation.as_str(), ". ", ". \n\n"));
    embed.set_footer(
        "Resource provided by NASA APOD api".to_owned(),
        Some("https://api.nasa.gov/assets/img/favicons/favicon-192.png".to_owned()),
    );
    let author = match data.copyright {
        Some(c) => c,
        None => "NASA".to_owned(),
    };
    embed.set_author(
        author,
        Some("https://api.nasa.gov/assets/img/favicons/favicon-192.png".to_owned()),
        Some("https://nasa.gov".to_owned()),
    );
    if let Some(concepts) = data.concepts {
        embed.add_field("Concepts".to_owned(), join_strings(&concepts, ","), false);
    }
    match data.media_type {
        ApodMediaType::Video => {
            let resource_url = match convert_to_watch_url(data.url.as_str()) {
                Some(u) => u,
                None => data.url,
            };
            embed.set_url(resource_url.clone());
            embed.set_video(resource_url);
        },
        ApodMediaType::Image => {
            embed.set_url(data.url.clone());
            embed.set_image(data.url);
        },
    }
    embed
}

/// The request for the picture of the day with the API key `api_key`.
pub fn apod_request_url(api_key: &str) -> (res: String)
    ensures
        res@ == "https://api.nasa.gov/planetary/apod?api_key="@ + api_key@,
{
    let mut s = "https://api.nasa.gov/planetary/apod?api_key=".to_owned();
    s.append(api_key);
    s
}

/// The cache key of the answer for `date` (`YYYY-MM-DD`).
pub fn apod_cache_key(date: &str) -> (res: String)
    ensures
        res@ == "nasa:apod:"@ + date@,
{
    let mut s = "nasa:apod:".to_owned();
    s.append(date);
    s
}

/// How long a cached answer is kept, in seconds.
pub const APOD_CACHE_TTL: u64 = 86400;

/// Where the picture of the day comes from.
pub enum ApodLookup {
    /// The cached answer.
    Cached(ApodResponse),
    /// Ask NASA, then cache the answer under `key` for `ttl` seconds.
    FetchAndStore { key: String, ttl: u64 },
}

/// The day's answer comes from the cache (`cached`, what is stored under
/// the day's key) where it is there; else it is fetched and cached for a day.
pub fn apod_lookup(date: &str, cached: Option<ApodResponse>) -> (res: ApodLookup)
    ensures
        match cached {
            Some(c) => res == ApodLookup::Cached(c),
            None => res matches ApodLookup::FetchAndStore { key, ttl } && key@ == "nasa:apod:"@ + date@
                && ttl == APOD_CACHE_TTL,
        },
{
    match cached {
        Some(c) => ApodLookup::Cached(c),
        None => ApodLookup::FetchAndStore { key: apod_cache_key(date), ttl: APOD_CACHE_TTL },
    }
}

/// What the fetch of the day does next.
#[derive(Clone, Copy, Debug, PartialEq, Eq, Structural)]
pub enum RetryAction {
    /// Ask NASA.
    Fetch,
    /// Wait this many seconds, then ask again.
    WaitThenFetch(u64),
    /// Wait this many seconds, then give up.
    WaitThenGiveUp(u64),
    /// Give up without asking.
    GiveUp,
}

/// The retry state of the fetch: how many attempts failed, out of how many allowed.
pub struct ApodRetry {
    pub failed: u32,
    pub max_attempts: u32,
}

/// The action after the `failed`-th failed attempt out of `max_attempts`:
/// wait five seconds per failed attempt, then ask again while attempts are left.
pub open spec fn action_after_failure(failed: u32, max_attempts: u32) -> RetryAction {
    if failed < max_attempts {
        RetryAction::WaitThenFetch((5 * failed) as u64)
    } else {
        RetryAction::WaitThenGiveUp((5 * failed) as u64)
    }
}

impl ApodRetry {
    /// Starts the fetch with `max_attempts` attempts: the first action asks
    /// NASA unless no attempt is allowed.
    pub fn start(max_attempts: u32) -> (res: (Self, RetryAction))
        ensures
            res.0.failed == 0,
            res.0.max_attempts == max_attempts,
            res.1 == if max_attempts > 0 { RetryAction::Fetch } else { RetryAction::GiveUp },
    {
        let state = ApodRetry { failed: 0, max_attempts: max_attempts };
        if max_attempts > 0 {
            (state, RetryAction::Fetch)
        } else {
            (state, RetryAction::GiveUp)
        }
    }

    /// Records a failed attempt and says what to do next.
    pub fn on_failure(&mut self) -> (res: RetryAction)
        requires
            old(self).failed < old(self).max_attempts,
        ensures
            final(self).failed == old(self).failed + 1,
            final(self).max_attempts == old(self).max_attempts,
            res == action_after_failure(final(self).failed, final(self).max_attempts),
    {
        self.failed = self.failed + 1;
        let wait = 5 * (self.failed as u64);
        if self.failed < self.max_attempts {
            RetryAction::WaitThenFetch(wait)
        } else {
            RetryAction::WaitThenGiveUp(wait)
        }
    }
}

/// With every attempt failing, NASA is asked exactly `max_attempts` times:
/// after each of the first `max_attempts - 1` failures the fetch waits and
/// asks again, and after the last one it waits and gives up.
pub proof fn lemma_retry_attempts(max_attempts: u32, k: u32)
    requires
        1 <= k <= max_attempts,
    ensures
        k < max_attempts ==> action_after_failure(k, max_attempts) == RetryAction::WaitThenFetch((5 * k) as u64),
        k == max_attempts ==> action_after_failure(k, max_attempts) == RetryAction::WaitThenGiveUp((5 * k) as u64),
{
}

} // verus!
