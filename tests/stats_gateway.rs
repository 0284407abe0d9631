use std::collections::HashMap;

use r6stats::config::UbiConfig;
use r6stats::errors::{AppError, UpstreamCall};
use r6stats::gateway::{
    get_ubi_spaces_url, nonempty_profiles, player_stats_from_reply, player_xp_profiles_from_reply,
    populations_statistics_from_reply, profiles_from_reply, take_entry, PlayerXp, PlayerXpProfiles,
    PopulationsStatistics, Profile, Profiles, PC_SPACE_URL, PS4_SPACE_URL, XBOX_SPACE_URL,
};
use r6stats::session::UbiApi;
use r6stats::upstream::{Method, Reply};

fn config() -> UbiConfig {
    UbiConfig {
        appid: "app-123".to_string(),
        authorization_prefix: "ubi_v1 t=".to_string(),
        spaces_id_pc: String::new(),
        spaces_id_xbox: String::new(),
        spaces_id_ps4: String::new(),
        sandbox_pc: String::new(),
        sandbox_xbox: String::new(),
        sandbox_ps4: String::new(),
    }
}

fn logged_in() -> UbiApi {
    let mut api = UbiApi::new("a@example.com", "pw", config());
    api.prefix_authorization("TOKEN", "2099-01-01T00:00:00Z".to_string());
    api
}

fn profile(id: &str) -> Profile {
    Profile {
        profile_id: id.to_string(),
        user_id: "u1".to_string(),
        platform_type: "uplay".to_string(),
        id_on_platform: "x".to_string(),
        name_on_platform: "Player".to_string(),
    }
}

#[test]
fn profile_search_404_is_empty() {
    let reply: Reply<Profiles> = Reply::Received { status: 404, body: None };
    let found = profiles_from_reply(reply).unwrap();
    assert!(found.profiles.is_empty());
}

#[test]
fn profile_search_200_returns_profiles() {
    let body = Profiles { profiles: vec![profile("pid1")] };
    let found = profiles_from_reply(Reply::Received { status: 200, body: Some(body.clone()) }).unwrap();
    assert_eq!(found, body);
    assert_eq!(found.profiles.len(), 1);
}

#[test]
fn profile_search_other_failures() {
    let server_error: Reply<Profiles> = Reply::Received { status: 500, body: None };
    assert_eq!(
        profiles_from_reply(server_error),
        Err(AppError::UpstreamTransport(UpstreamCall::FindProfile))
    );
    assert_eq!(
        profiles_from_reply(Reply::TransportFailed),
        Err(AppError::UpstreamTransport(UpstreamCall::FindProfile))
    );
}

#[test]
fn no_profiles_is_not_found() {
    assert_eq!(nonempty_profiles(Profiles { profiles: vec![] }), Err(AppError::NotFound));
    let some = Profiles { profiles: vec![profile("p")] };
    assert_eq!(nonempty_profiles(some.clone()), Ok(some));
}

#[test]
fn rank_stats_missing_profile_is_internal() {
    let players = vec![("other".to_string(), 42i32)];
    let reply = Reply::Received { status: 200, body: Some(players) };
    assert_eq!(player_stats_from_reply(reply, "pid1"), Err(AppError::Internal));
}

#[test]
fn rank_stats_picks_the_asked_profile() {
    let players = vec![("other".to_string(), 1i32), ("pid1".to_string(), 2i32)];
    let reply = Reply::Received { status: 200, body: Some(players) };
    assert_eq!(player_stats_from_reply(reply, "pid1"), Ok(2));
}

#[test]
fn rank_stats_failed_reply_is_upstream_error() {
    let reply: Reply<Vec<(String, i32)>> = Reply::Received { status: 503, body: None };
    assert_eq!(
        player_stats_from_reply(reply, "pid1"),
        Err(AppError::UpstreamTransport(UpstreamCall::RankStats))
    );
}

#[test]
fn take_entry_takes_first_match() {
    let entries = vec![("a".to_string(), 1), ("b".to_string(), 2), ("b".to_string(), 3)];
    assert_eq!(take_entry(entries, "b"), Some(2));
    assert_eq!(take_entry(Vec::<(String, i32)>::new(), "b"), None);
}

#[test]
fn populations_statistics_pass_through() {
    let mut inner = HashMap::new();
    inner.insert("kills:infinite".to_string(), 10);
    let mut results = HashMap::new();
    results.insert("pid1".to_string(), inner.clone());
    let body = PopulationsStatistics { results };
    let got = populations_statistics_from_reply(Reply::Received { status: 200, body: Some(body) }).unwrap();
    assert_eq!(got.results.len(), 1);
    assert_eq!(got.results.get("pid1"), Some(&inner));
    assert_eq!(got.results["pid1"]["kills:infinite"], 10);
}

#[test]
fn populations_statistics_failure() {
    let reply: Reply<PopulationsStatistics> = Reply::TransportFailed;
    assert_eq!(
        populations_statistics_from_reply(reply),
        Err(AppError::UpstreamTransport(UpstreamCall::PopulationsStatistics))
    );
}

#[test]
fn xp_profiles_pass_through() {
    let body = PlayerXpProfiles {
        player_profiles: vec![PlayerXp {
            xp: 9931,
            profile_id: "b5072e90".to_string(),
            lootbox_probability: 1250,
            level: 78,
        }],
    };
    let got = player_xp_profiles_from_reply(Reply::Received { status: 200, body: Some(body.clone()) });
    assert_eq!(got, Ok(body));
    let bad: Reply<PlayerXpProfiles> = Reply::Received { status: 200, body: None };
    assert_eq!(
        player_xp_profiles_from_reply(bad),
        Err(AppError::UpstreamTransport(UpstreamCall::XpProfiles))
    );
}

#[test]
fn spaces_url_by_platform() {
    assert_eq!(get_ubi_spaces_url("xbl"), XBOX_SPACE_URL);
    assert_eq!(get_ubi_spaces_url("psn"), PS4_SPACE_URL);
    assert_eq!(get_ubi_spaces_url("uplay"), PC_SPACE_URL);
    assert_eq!(get_ubi_spaces_url(""), PC_SPACE_URL);
    assert!(PC_SPACE_URL.ends_with("/sandboxes/OSBOR_PC_LNCH_A"));
}

#[test]
fn rank_stats_request_url() {
    let r = logged_in().rank_stats_request("pid1", "apac", "psn").unwrap();
    assert_eq!(r.method, Method::Get);
    assert_eq!(
        r.url,
        format!(
            "{}/r6karma/players?board_id=pvp_ranked&profile_ids=pid1&region_id=apac&season_id=-1",
            PS4_SPACE_URL
        )
    );
    let auth = r.headers.iter().find(|(n, _)| n == "authorization").map(|(_, v)| v.clone());
    assert_eq!(auth, Some("ubi_v1 t=TOKEN".to_string()));
}

#[test]
fn populations_statistics_request_url() {
    let r = logged_in().populations_statistics_request("pid1", "pc", "kills,deaths").unwrap();
    assert_eq!(
        r.url,
        format!("{}/playerstats2/statistics?populations=pid1&statistics=kills%2Cdeaths", PC_SPACE_URL)
    );
}

#[test]
fn xp_request_url() {
    let r = logged_in().player_xp_profiles_request("pid 1", "xbl").unwrap();
    assert_eq!(
        r.url,
        format!("{}/r6playerprofile/playerprofile/progressions?profile_ids=pid+1", XBOX_SPACE_URL)
    );
}

#[test]
fn profile_search_request_url() {
    let r = logged_in().find_profile_request("Some Name", "uplay").unwrap();
    assert_eq!(
        r.url,
        "https://public-ubiservices.ubi.com/v2/profiles?platformType=uplay&nameOnPlatform=Some+Name"
    );
    assert_eq!(r.body, None);
    assert_eq!(r.basic_auth, None);
}

#[test]
fn query_without_credential_is_refused() {
    let api = UbiApi::new("a@example.com", "pw", config());
    assert_eq!(api.find_profile_request("n", "uplay").unwrap_err(), AppError::InvalidCredentials);
    assert_eq!(api.rank_stats_request("p", "emea", "pc").unwrap_err(), AppError::InvalidCredentials);
}
