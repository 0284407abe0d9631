//! Read-only queries against the upstream statistics service, made with the
//! held credential: the requests to send, and what their replies become.

use vstd::prelude::*;

use std::collections::HashMap;

use crate::errors::{AppError, UpstreamCall};
use crate::session::{ApiView, UbiApi};
use crate::text::same_text;
use crate::upstream::{
    accept_reply, accepted, headers_for, pairs_view, request_headers, Method, Reply, Request,
    RequestView, PROFILES_URL,
};

verus! {

pub const PC_SPACE_URL: &'static str =
    "https://public-ubiservices.ubi.com/v1/spaces/5172a557-50b5-4665-b7db-e3f2e8c5041d/sandboxes/OSBOR_PC_LNCH_A";

pub const XBOX_SPACE_URL: &'static str =
    "https://public-ubiservices.ubi.com/v1/spaces/98a601e5-ca91-4440-b1c5-753f601a2c90/sandboxes/OSBOR_XBOXONE_LNCH_A";

pub const PS4_SPACE_URL: &'static str =
    "https://public-ubiservices.ubi.com/v1/spaces/05bfb3f7-6c21-4c42-be1f-97a33fb5cf66/sandboxes/OSBOR_PS4_LNCH_A";

pub const STATISTICS_PATH: &'static str = "/playerstats2/statistics";

pub const PROGRESSIONS_PATH: &'static str = "/r6playerprofile/playerprofile/progressions";

pub const RANK_STATS_PATH: &'static str = "/r6karma/players";

/// A player profile found by name.
#[derive(Clone, Debug, PartialEq, Eq)]
pub struct Profile {
    pub profile_id: String,
    pub user_id: String,
    pub platform_type: String,
    pub id_on_platform: String,
    pub name_on_platform: String,
}

/// The profiles that a search found; possibly none.
#[derive(Clone, Debug, PartialEq, Eq)]
pub struct Profiles {
    pub profiles: Vec<Profile>,
}

/// The progression record of a player.
#[derive(Clone, Debug, PartialEq, Eq)]
pub struct PlayerXp {
    pub xp: i32,
    pub profile_id: String,
    pub lootbox_probability: i32,
    pub level: i32,
}

/// The progression records that a query returned.
#[derive(Clone, Debug, PartialEq, Eq)]
pub struct PlayerXpProfiles {
    pub player_profiles: Vec<PlayerXp>,
}

/// For each profile, the value of each "metric:window" label.
#[derive(Clone, Debug, PartialEq, Eq)]
pub struct PopulationsStatistics {
    pub results: HashMap<String, HashMap<String, i32>>,
}

/// A profile search by name on a platform.
#[derive(Clone, Debug)]
pub struct FindProfile {
    pub name_on_platform: String,
    pub platform_type: String,
}

/// A ranked statistics query.
#[derive(Clone, Debug)]
pub struct FindStats {
    pub profile_id: String,
    pub region_id: String,
    pub platform_type: String,
}

/// A progression query.
#[derive(Clone, Debug)]
pub struct FindXpProfiles {
    pub profile_id: String,
    pub platform_type: String,
}

/// An aggregate statistics query; `statistics` is a comma-separated list of
/// metric names, passed on unchecked.
#[derive(Clone, Debug)]
pub struct FindPopulationsStatistics {
    pub profile_id: String,
    pub platform_type: String,
    pub statistics: String,
}

/// The text of the URL that `base` with the query pairs `params` appended
/// form-encoded makes, if `base` is a URL.
pub uninterp spec fn url_with_query(base: Seq<char>, params: Seq<(Seq<char>, Seq<char>)>) -> Option<
    Seq<char>,
>;

/// Relies on reqwest's `Url::parse_with_params` (the `url` crate's), and on
/// turning the `Url` into its text: the result depends on the arguments
/// alone, and `None` stands for a parse error of `base`.
#[verifier::external_body]
fn parse_with_params(base: &str, params: &Vec<(String, String)>) -> (r: Option<String>)
    ensures
        match r {
            Some(u) => url_with_query(base@, pairs_view(params@)) == Some(u@),
            None => url_with_query(base@, pairs_view(params@)) is None,
        },
{
    reqwest::Url::parse_with_params(base, params.iter()).ok().map(String::from)
}

/// The root URL of a platform's game data: Xbox for "xbl", PlayStation for
/// "psn", and PC for any other tag.
pub open spec fn spaces_url_of(platform_type: Seq<char>) -> Seq<char> {
    if platform_type == "xbl"@ {
        XBOX_SPACE_URL@
    } else if platform_type == "psn"@ {
        PS4_SPACE_URL@
    } else {
        PC_SPACE_URL@
    }
}

/// The root URL of a platform's game data.
pub fn get_ubi_spaces_url(platform_type: &str) -> (r: &'static str)
    ensures
        r@ == spaces_url_of(platform_type@),
{
    if same_text(platform_type, "xbl") {
        XBOX_SPACE_URL
    } else if same_text(platform_type, "psn") {
        PS4_SPACE_URL
    } else {
        PC_SPACE_URL
    }
}

/// A GET request to `url` with the held credential as bearer: refused when
/// no credential is held, and an internal error when a header value could not
/// stand in a header.
pub open spec fn get_request(v: ApiView, url: Seq<char>) -> Result<RequestView, AppError> {
    if v.authorization.len() == 0 {
        Err(AppError::InvalidCredentials)
    } else {
        match headers_for(v.appid, Some(v.authorization)) {
            Some(h) => Ok(
                RequestView { method: Method::Get, url, headers: h, basic_auth: None, body: None },
            ),
            None => Err(AppError::Internal),
        }
    }
}

/// A GET request to `base` with the query `params`.
pub open spec fn query_request(
    v: ApiView,
    base: Seq<char>,
    params: Seq<(Seq<char>, Seq<char>)>,
) -> Result<RequestView, AppError> {
    if v.authorization.len() == 0 {
        Err(AppError::InvalidCredentials)
    } else {
        match url_with_query(base, params) {
            Some(url) => get_request(v, url),
            None => Err(AppError::Internal),
        }
    }
}

/// The view of a built request, or its error.
pub open spec fn request_result_view(r: Result<Request, AppError>) -> Result<RequestView, AppError> {
    match r {
        Ok(q) => Ok(q@),
        Err(e) => Err(e),
    }
}

/// The query parameters of a profile search.
pub open spec fn profile_params(name: Seq<char>, platform_type: Seq<char>) -> Seq<(Seq<char>, Seq<char>)> {
    seq![("platformType"@, platform_type), ("nameOnPlatform"@, name)]
}

/// The query parameters of an aggregate statistics query.
pub open spec fn statistics_params(profile_id: Seq<char>, statistics: Seq<char>) -> Seq<(Seq<char>, Seq<char>)> {
    seq![("populations"@, profile_id), ("statistics"@, statistics)]
}

/// The query parameters of a progression query.
pub open spec fn progression_params(profile_id: Seq<char>) -> Seq<(Seq<char>, Seq<char>)> {
    seq![("profile_ids"@, profile_id)]
}

/// The query parameters of a ranked statistics query: the ranked board, the
/// current season.
pub open spec fn rank_params(profile_id: Seq<char>, region_id: Seq<char>) -> Seq<(Seq<char>, Seq<char>)> {
    seq![
        ("board_id"@, "pvp_ranked"@),
        ("profile_ids"@, profile_id),
        ("region_id"@, region_id),
        ("season_id"@, "-1"@),
    ]
}

fn pair(name: &str, value: &str) -> (r: (String, String))
    ensures
        r.0@ == name@,
        r.1@ == value@,
{
    (String::from_str(name), String::from_str(value))
}

/// `base` followed by `path`.
fn join(base: &str, path: &str) -> (r: String)
    ensures
        r@ == base@ + path@,
{
    let mut s = String::from_str(base);
    s.append(path);
    s
}

impl UbiApi {
    fn authorized_get(&self, base: &str, params: Vec<(String, String)>) -> (r: Result<Request, AppError>)
        ensures
            request_result_view(r) == query_request(self@, base@, pairs_view(params@)),
    {
        if self.authorization.unicode_len() == 0 {
            return Err(AppError::InvalidCredentials);
        }
        match parse_with_params(base, &params) {
            None => Err(AppError::Internal),
            Some(url) => match request_headers(
                self.ubi_config.appid.as_str(),
                Some(self.authorization.as_str()),
            ) {
                Some(headers) => Ok(
                    Request { method: Method::Get, url, headers, basic_auth: None, body: None },
                ),
                None => Err(AppError::Internal),
            },
        }
    }

    /// The request that searches for profiles by name on a platform.
    pub fn find_profile_request(&self, username: &str, platform_type: &str) -> (r: Result<Request, AppError>)
        ensures
            request_result_view(r) == query_request(
                self@,
                PROFILES_URL@,
                profile_params(username@, platform_type@),
            ),
    {
        let params = vec![pair("platformType", platform_type), pair("nameOnPlatform", username)];
        assert(pairs_view(params@) =~= profile_params(username@, platform_type@));
        self.authorized_get(PROFILES_URL, params)
    }

    /// The request for aggregate statistics of a profile; the metric list is
    /// passed on as given.
    pub fn populations_statistics_request(
        &self,
        profile_id: &str,
        platform_type: &str,
        statistics_comma_sep_str: &str,
    ) -> (r: Result<Request, AppError>)
        ensures
            request_result_view(r) == query_request(
                self@,
                spaces_url_of(platform_type@) + STATISTICS_PATH@,
                statistics_params(profile_id@, statistics_comma_sep_str@),
            ),
    {
        let base = join(get_ubi_spaces_url(platform_type), STATISTICS_PATH);
        let params = vec![
            pair("populations", profile_id),
            pair("statistics", statistics_comma_sep_str),
        ];
        assert(pairs_view(params@) =~= statistics_params(profile_id@, statistics_comma_sep_str@));
        self.authorized_get(base.as_str(), params)
    }

    /// The request for the progression records of a profile.
    pub fn player_xp_profiles_request(&self, profile_id: &str, platform_type: &str) -> (r: Result<Request, AppError>)
        ensures
            request_result_view(r) == query_request(
                self@,
                spaces_url_of(platform_type@) + PROGRESSIONS_PATH@,
                progression_params(profile_id@),
            ),
    {
        let base = join(get_ubi_spaces_url(platform_type), PROGRESSIONS_PATH);
        let params = vec![pair("profile_ids", profile_id)];
        assert(pairs_view(params@) =~= progression_params(profile_id@));
        self.authorized_get(base.as_str(), params)
    }

    /// The request for the ranked statistics of a profile in a region.
    pub fn rank_stats_request(&self, profile_id: &str, region_id: &str, platform_type: &str) -> (r: Result<Request, AppError>)
        ensures
            request_result_view(r) == query_request(
                self@,
                spaces_url_of(platform_type@) + RANK_STATS_PATH@,
                rank_params(profile_id@, region_id@),
            ),
    {
        let base = join(get_ubi_spaces_url(platform_type), RANK_STATS_PATH);
        let params = vec![
            pair("board_id", "pvp_ranked"),
            pair("profile_ids", profile_id),
            pair("region_id", region_id),
            pair("season_id", "-1"),
        ];
        assert(pairs_view(params@) =~= rank_params(profile_id@, region_id@));
        self.authorized_get(base.as_str(), params)
    }
}

/// What a profile search reply becomes: "not found" (404) is an empty result,
/// a successful reply its profiles, anything else an upstream error.
pub open spec fn profiles_result(reply: Reply<Profiles>) -> Result<Seq<Profile>, AppError> {
    match reply {
        Reply::Received { status: 404, .. } => Ok(Seq::empty()),
        _ => match accepted(reply) {
            Some(p) => Ok(p.profiles@),
            None => Err(AppError::UpstreamTransport(UpstreamCall::FindProfile)),
        },
    }
}

/// The profiles of a search reply.
pub fn profiles_from_reply(reply: Reply<Profiles>) -> (r: Result<Profiles, AppError>)
    ensures
        match r {
            Ok(p) => profiles_result(reply) == Ok::<Seq<Profile>, AppError>(p.profiles@),
            Err(e) => profiles_result(reply) == Err::<Seq<Profile>, AppError>(e),
        },
        reply matches Reply::Received { status: 404, .. } ==> r matches Ok(p) && p.profiles@.len() == 0,
        reply matches Reply::Received { status: 200, body: Some(b) } ==> r matches Ok(p)
            && p.profiles@ == b.profiles@,
{
    if let Reply::Received { status, .. } = &reply {
        if *status == 404 {
            return Ok(Profiles { profiles: Vec::new() });
        }
    }
    match accept_reply(reply) {
        Some(p) => Ok(p),
        None => Err(AppError::UpstreamTransport(UpstreamCall::FindProfile)),
    }
}

/// The profiles of a search, or "not found" when there are none.
pub fn nonempty_profiles(profiles: Profiles) -> (r: Result<Profiles, AppError>)
    ensures
        profiles.profiles@.len() == 0 ==> r == Err::<Profiles, AppError>(AppError::NotFound),
        profiles.profiles@.len() > 0 ==> r == Ok::<Profiles, AppError>(profiles),
{
    if profiles.profiles.len() == 0 {
        Err(AppError::NotFound)
    } else {
        Ok(profiles)
    }
}

/// The payload of a successful reply, unchanged, or the upstream error of
/// `call`.
pub open spec fn payload_result<T>(reply: Reply<T>, call: UpstreamCall) -> Result<T, AppError> {
    match accepted(reply) {
        Some(b) => Ok(b),
        None => Err(AppError::UpstreamTransport(call)),
    }
}

/// The aggregate statistics of a reply, passed on without change to any
/// label or value.
pub fn populations_statistics_from_reply(reply: Reply<PopulationsStatistics>) -> (r: Result<
    PopulationsStatistics,
    AppError,
>)
    ensures
        r == payload_result(reply, UpstreamCall::PopulationsStatistics),
{
    match accept_reply(reply) {
        Some(b) => Ok(b),
        None => Err(AppError::UpstreamTransport(UpstreamCall::PopulationsStatistics)),
    }
}

/// The progression records of a reply.
pub fn player_xp_profiles_from_reply(reply: Reply<PlayerXpProfiles>) -> (r: Result<
    PlayerXpProfiles,
    AppError,
>)
    ensures
        r == payload_result(reply, UpstreamCall::XpProfiles),
{
    match accept_reply(reply) {
        Some(b) => Ok(b),
        None => Err(AppError::UpstreamTransport(UpstreamCall::XpProfiles)),
    }
}

/// `i` is the first position of `entries` whose key is `key`.
pub open spec fn first_with_key<T>(entries: Seq<(String, T)>, key: Seq<char>, i: int) -> bool {
    &&& 0 <= i < entries.len()
    &&& entries[i].0@ == key
    &&& forall|j: int| 0 <= j < i ==> entries[j].0@ != key
}

/// No entry has the key `key`.
pub open spec fn lacks_key<T>(entries: Seq<(String, T)>, key: Seq<char>) -> bool {
    forall|i: int| 0 <= i < entries.len() ==> entries[i].0@ != key
}

/// The value of the first entry with the key `key`, if there is one.
pub fn take_entry<T>(items: Vec<(String, T)>, key: &str) -> (r: Option<T>)
    ensures
        match r {
            Some(v) => exists|i: int| first_with_key(items@, key@, i) && items@[i].1 == v,
            None => lacks_key(items@, key@),
        },
{
    let mut entries = items;
    let mut i: usize = 0;
    while i < entries.len()
        invariant
            entries@ == items@,
            i <= entries.len(),
            forall|j: int| 0 <= j < i ==> items@[j].0@ != key@,
        decreases entries.len() - i,
    {
        if same_text(entries[i].0.as_str(), key) {
            let found = entries.remove(i);
            assert(first_with_key(items@, key@, i as int) && items@[i as int].1 == found.1);
            return Some(found.1);
        }
        i = i + 1;
    }
    None
}

/// What a ranked statistics reply becomes: the record of the asked profile;
/// an internal error when the reply has no record for it, never a record made
/// up; an upstream error when the reply failed.
pub fn player_stats_from_reply<T>(reply: Reply<Vec<(String, T)>>, profile_id: &str) -> (r: Result<T, AppError>)
    ensures
        match accepted(reply) {
            None => r == Err::<T, AppError>(AppError::UpstreamTransport(UpstreamCall::RankStats)),
            Some(players) => match r {
                Ok(v) => exists|i: int| first_with_key(players@, profile_id@, i) && players@[i].1 == v,
                Err(e) => e == AppError::Internal && lacks_key(players@, profile_id@),
            },
        },
        accepted(reply) matches Some(players) && lacks_key(players@, profile_id@) ==> r
            == Err::<T, AppError>(AppError::Internal),
{
    match accept_reply(reply) {
        None => Err(AppError::UpstreamTransport(UpstreamCall::RankStats)),
        Some(players) => match take_entry(players, profile_id) {
            Some(v) => Ok(v),
            None => Err(AppError::Internal),
        },
    }
}

} // verus!
