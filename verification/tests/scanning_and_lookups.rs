use nets_assist::config::{Config, ConfigError};
use nets_assist::ip_intel::{abuseipdb_query, ipinfo_url, IpIntelError};
use nets_assist::lookup::{is_success, Action, Event, Lookup, LookupError, Stage};
use nets_assist::roblox::{
    avatar_lookup_url, first_avatar, first_user, games_lookup_url, profile_page_url, user_lookup_url,
    username_lookup_address, RobloxError, RobloxUser,
};
use nets_assist::scanner::{
    common_ports, guess_service, open_ports, plan_scan, port_range, port_scan_replies, OpenPort, ScanError, ScanPlan,
};

#[test]
fn services_of_well_known_ports() {
    assert_eq!(guess_service(22), "SSH");
    assert_eq!(guess_service(27017), "MongoDB");
    assert_eq!(guess_service(8443), "HTTPS-Alt");
    assert_eq!(guess_service(12345), "Unknown");
    assert_eq!(guess_service(0), "Unknown");
}

#[test]
fn common_ports_all_have_services() {
    let ports = common_ports();
    assert_eq!(ports.len(), 23);
    assert_eq!(ports[0], 21);
    assert_eq!(ports[22], 27017);
    for p in ports {
        assert_ne!(guess_service(p), "Unknown");
    }
}

#[test]
fn ranges_include_both_ends() {
    assert_eq!(port_range(5, 8), vec![5, 6, 7, 8]);
    assert_eq!(port_range(65535, 65535), vec![65535]);
    assert_eq!(port_range(0, 5000).len(), 5001);
}

#[test]
fn findings_keep_reachable_ports_in_order() {
    let found = open_ports(&vec![22, 80, 9999, 443], &vec![true, false, true, true]);
    let ports: Vec<u16> = found.iter().map(|o| o.port).collect();
    assert_eq!(ports, vec![22, 9999, 443]);
    assert_eq!(found[0].service, "SSH");
    assert_eq!(found[1].service, "Unknown");
    assert!(open_ports(&vec![1, 2], &vec![false, false]).is_empty());
}

#[test]
fn scan_plans() {
    assert_eq!(plan_scan(None, None, None), Ok(ScanPlan::Common));
    assert_eq!(plan_scan(Some("common"), Some(1), Some(2)), Ok(ScanPlan::Common));
    assert_eq!(plan_scan(Some("Range"), None, None), Ok(ScanPlan::Common));
    assert_eq!(plan_scan(Some("range"), None, None), Ok(ScanPlan::Range { start: 1, end: 1024 }));
    assert_eq!(plan_scan(Some("range"), Some(1), Some(5001)), Ok(ScanPlan::Range { start: 1, end: 5001 }));
    assert_eq!(plan_scan(Some("range"), Some(1), Some(5002)), Err(ScanError::RangeTooLarge));
    assert_eq!(plan_scan(Some("range"), Some(10), Some(5)), Err(ScanError::RangeTooLarge));
    assert_eq!(plan_scan(Some("range"), Some(2000), None), Err(ScanError::RangeTooLarge));
    assert_eq!(ScanError::RangeTooLarge.message(), "\u{274c} Port range too large (max 5000).");
}

#[test]
fn scan_plan_parameters() {
    assert_eq!(ScanPlan::Common.concurrency(), 50);
    assert_eq!(ScanPlan::Range { start: 1, end: 2 }.concurrency(), 200);
    assert_eq!(ScanPlan::Common.timeout_ms(), 500);
    assert_eq!(ScanPlan::Range { start: 3, end: 4 }.ports(), vec![3, 4]);
    assert_eq!(ScanPlan::Common.ports(), common_ports());
}

#[test]
fn scan_replies() {
    assert_eq!(
        port_scan_replies("1.2.3.4", &vec![]),
        vec!["\u{1f50d} **1.2.3.4** \u{2014} No open ports found.".to_string()]
    );
    let found = vec![OpenPort { port: 22, service: "SSH" }, OpenPort { port: 8080, service: "HTTP-Alt" }];
    assert_eq!(
        port_scan_replies("10.0.0.1", &found),
        vec![
            "\u{1f50d} **Port Scan \u{2014} 10.0.0.1** (2 open)\n\n`   22` \u{2014} SSH\n` 8080` \u{2014} HTTP-Alt"
                .to_string()
        ]
    );
    let many: Vec<OpenPort> = (1..=25).map(|p| OpenPort { port: p, service: "Unknown" }).collect();
    let replies = port_scan_replies("h", &many);
    assert_eq!(replies.len(), 2);
    assert!(replies[1].starts_with("\u{1f50d} **Port Scan \u{2014} h** (25 open)\n\n`   21`"));
    assert_eq!(replies[0].lines().count(), 22);
}

#[test]
fn roblox_addresses() {
    assert_eq!(user_lookup_url(156), "https://users.roblox.com/v1/users/156");
    assert_eq!(games_lookup_url(-3), "https://games.roblox.com/v2/users/-3/games?limit=10&sortOrder=Asc");
    assert_eq!(
        avatar_lookup_url(1),
        "https://thumbnails.roblox.com/v1/users/avatar-headshot?userIds=1&size=420x420&format=Png"
    );
    assert_eq!(profile_page_url(42), "https://www.roblox.com/users/42/profile");
    assert_eq!(username_lookup_address(), "https://users.roblox.com/v1/usernames/users");
}

fn user(id: i64, name: &str) -> RobloxUser {
    RobloxUser {
        id,
        name: name.to_string(),
        display_name: name.to_uppercase(),
        description: String::new(),
        created: "2010-01-01".to_string(),
    }
}

#[test]
fn first_results() {
    let found = first_user(vec![user(1, "a"), user(2, "b")]).unwrap();
    assert_eq!(found.id, 1);
    assert_eq!(first_user(vec![]).unwrap_err(), RobloxError::UserNotFound);
    assert_eq!(first_avatar(vec!["x".to_string(), "y".to_string()]), Ok("x".to_string()));
    assert_eq!(first_avatar(vec![]), Err(RobloxError::NoAvatar));
}

#[test]
fn roblox_error_messages() {
    assert_eq!(RobloxError::Status(404).message("404 Not Found"), "Roblox API returned 404 Not Found");
    assert_eq!(
        RobloxError::ThumbnailStatus(500).message("500 Internal Server Error"),
        "Roblox thumbnails API returned 500 Internal Server Error"
    );
    assert_eq!(RobloxError::UserNotFound.message(""), "User not found");
    assert_eq!(RobloxError::NoAvatar.message(""), "No avatar found");
}

#[test]
fn success_statuses() {
    assert!(is_success(200));
    assert!(is_success(299));
    assert!(!is_success(199));
    assert!(!is_success(300));
    assert!(!is_success(404));
}

#[test]
fn cached_lookup_hit_returns_the_cached_value() {
    let mut l = Lookup::new(true);
    assert!(matches!(l.step::<i32>(Event::Begin), Action::QueryCache));
    assert!(matches!(l.step(Event::CacheAnswer(Some(7))), Action::Finish(Ok(7))));
    assert!(l.is_finished());
}

#[test]
fn cached_lookup_miss_fetches_and_stores() {
    let mut l = Lookup::new(true);
    assert!(matches!(l.step::<i32>(Event::Begin), Action::QueryCache));
    assert!(matches!(l.step::<i32>(Event::CacheAnswer(None)), Action::SendRequest));
    assert!(matches!(l.step::<i32>(Event::Status(200)), Action::ReadBody));
    assert!(matches!(l.step(Event::Body(5)), Action::StoreInCache(5)));
    assert_eq!(l.stage, Stage::AwaitStore);
    assert!(matches!(l.step(Event::Stored(5)), Action::Finish(Ok(5))));
    assert!(l.is_finished());
}

#[test]
fn uncached_lookup_failure() {
    let mut l = Lookup::new(false);
    assert!(matches!(l.step::<i32>(Event::Begin), Action::SendRequest));
    assert!(matches!(l.step::<i32>(Event::Status(404)), Action::Finish(Err(LookupError::Status(404)))));
    let mut l = Lookup::new(false);
    l.step::<i32>(Event::Begin);
    l.step::<i32>(Event::Status(204));
    assert!(matches!(l.step(Event::Body(9)), Action::Finish(Ok(9))));
}

#[test]
fn ipinfo_addresses() {
    assert_eq!(ipinfo_url("8.8.8.8", None), "https://ipinfo.io/8.8.8.8/json");
    assert_eq!(ipinfo_url("8.8.8.8", Some("tok")), "https://ipinfo.io/8.8.8.8?token=tok");
}

#[test]
fn abuse_queries_need_a_token() {
    assert_eq!(abuseipdb_query("1.1.1.1", None).unwrap_err(), IpIntelError::MissingAbuseToken);
    assert!(abuseipdb_query("", Some("")).is_ok());
    let q = abuseipdb_query("1.1.1.1", Some("k")).unwrap();
    assert_eq!(q.url, "https://api.abuseipdb.com/api/v2/check");
    assert_eq!(q.query, vec![("ipAddress".to_string(), "1.1.1.1".to_string()), ("maxAgeInDays".to_string(), "90".to_string())]);
    assert_eq!(q.headers[0], ("Key".to_string(), "k".to_string()));
    assert_eq!(q.headers[1], ("Accept".to_string(), "application/json".to_string()));
    assert_eq!(IpIntelError::MissingAbuseToken.message(""), "ABUSEIPDB_TOKEN not configured");
    assert_eq!(IpIntelError::IpInfoStatus(429).message("429 Too Many Requests"), "IP info lookup failed: 429 Too Many Requests");
    assert_eq!(IpIntelError::AbuseStatus(401).message("401 Unauthorized"), "AbuseIPDB lookup failed: 401 Unauthorized");
}

#[test]
fn settings_from_values() {
    let c = Config::from_values(Some("t".to_string()), None, None, Some("i".to_string()), None).unwrap();
    assert_eq!(c.discord_token, "t");
    assert_eq!(c.database_url, "sqlite:data.db?mode=rwc");
    assert_eq!(c.ipinfo_token, Some("i".to_string()));
    let c = Config::from_values(Some("t".to_string()), Some("sqlite::memory:".to_string()), None, None, None).unwrap();
    assert_eq!(c.database_url, "sqlite::memory:");
    let e = Config::from_values(None, None, None, None, None).unwrap_err();
    assert_eq!(e, ConfigError::MissingDiscordToken);
    assert_eq!(e.message(), "DISCORD_TOKEN must be set");
}
