use std::collections::HashMap;

use nets_assist::commands::embed::{field, EmbedField};
use nets_assist::commands::identity::{discord_user_embed, parse_user_ref, roblox_embed, UserRef};
use nets_assist::commands::moderation::{
    chat_summary_replies, memberinfo_embed, mute_reason, mute_reply, role_names, summary_count, summary_line,
    unmute_reply, ChatMessage,
};
use nets_assist::commands::network::{
    add_abuse_fields, dns_failure_reply, invalid_ip_reply, ip_intel_embed, ipintel_reply, ping_embed,
};
use nets_assist::commands::player_stats::{
    infraction_replies, infractions_not_found_reply, playtime_embed, playtime_not_found_reply,
};
use nets_assist::commands::time_date::{time_command, time_reply, timezones_command, timezones_reply};
use nets_assist::ip_intel::{AbuseIPDBReport, IpInfo};
use nets_assist::models::{Infraction, Player};
use nets_assist::roblox::RobloxUser;
use nets_assist::commands::system::{sysinfo_embed, SysInfoTexts};
use nets_assist::time::{list_timezones, TimeError};

fn f(name: &str, value: &str, inline: bool) -> (String, String, bool) {
    (name.to_string(), value.to_string(), inline)
}

fn fields(fs: &[EmbedField]) -> Vec<(String, String, bool)> {
    fs.iter().map(|x| (x.name.clone(), x.value.clone(), x.inline)).collect()
}

#[test]
fn user_refs() {
    assert!(matches!(parse_user_ref("156"), UserRef::Id(156)));
    assert!(matches!(parse_user_ref("-2"), UserRef::Id(-2)));
    match parse_user_ref("builderman") {
        UserRef::Name(n) => assert_eq!(n, "builderman"),
        _ => panic!("expected a name"),
    }
    assert!(matches!(parse_user_ref("99999999999999999999"), UserRef::Name(_)));
}

#[test]
fn roblox_reply() {
    let user = RobloxUser {
        id: 156,
        name: "builderman".to_string(),
        display_name: "Builder".to_string(),
        description: "x".repeat(250),
        created: "2006-02-27".to_string(),
    };
    let e = roblox_embed(&user, "https://img/1.png".to_string());
    assert_eq!(e.title, "Builder (@builderman)");
    assert_eq!(e.url.as_deref(), Some("https://www.roblox.com/users/156/profile"));
    assert_eq!(e.color, 0xED4245);
    assert_eq!(e.thumbnail.as_deref(), Some("https://img/1.png"));
    let desc = format!("{}...", "x".repeat(200));
    assert_eq!(
        fields(&e.fields),
        vec![
            f("User ID", "156", true),
            f("Display Name", "Builder", true),
            f("Description", &desc, false),
            f("Created", "2006-02-27", true)
        ]
    );
}

#[test]
fn discord_reply() {
    let e = discord_user_embed("alice", 80351110224678912, "Alice", "2015-05-13", true, "face".to_string());
    assert_eq!(e.title, "Discord User \u{2014} alice");
    assert_eq!(e.color, 0x5865F2);
    assert_eq!(
        fields(&e.fields),
        vec![
            f("ID", "80351110224678912", true),
            f("Display Name", "Alice", true),
            f("Account Created", "2015-05-13", true),
            f("Bot", "Yes", true)
        ]
    );
    let e = discord_user_embed("bob", 1, "Bob", "", false, String::new());
    assert_eq!(e.fields[3].value, "No");
}

#[test]
fn mute_replies() {
    assert_eq!(mute_reason(None), "No reason provided");
    assert_eq!(mute_reason(Some("spam".to_string())), "spam");
    assert_eq!(mute_reply("eve", 10, "spam"), "\u{1f507} Muted **eve** for 10 minute(s). Reason: spam");
    assert_eq!(unmute_reply("eve"), "\u{1f50a} Unmuted **eve**");
}

#[test]
fn member_roles() {
    let mut guild = HashMap::new();
    guild.insert(1u64, "Admin".to_string());
    guild.insert(2u64, "Mod".to_string());
    assert_eq!(role_names(&vec![2, 3, 1], &guild), vec!["Mod".to_string(), "Admin".to_string()]);
    assert!(role_names(&vec![9], &guild).is_empty());
}

#[test]
fn memberinfo_reply() {
    let roles = vec!["Mod".to_string(), "Admin".to_string()];
    let e = memberinfo_embed("eve", 7, "Eve", None, "2020-01-01", &roles, "face".to_string());
    assert_eq!(e.title, "Member Info \u{2014} eve");
    assert_eq!(
        fields(&e.fields),
        vec![
            f("ID", "7", true),
            f("Display Name", "Eve", true),
            f("Joined Server", "Unknown", true),
            f("Account Created", "2020-01-01", true),
            f("Roles", "Mod, Admin", false)
        ]
    );
    let e = memberinfo_embed("eve", 7, "Eve", Some("2021".to_string()), "x", &vec![], "face".to_string());
    assert_eq!(e.fields[2].value, "2021");
    assert_eq!(e.fields[4].value, "None");
}

#[test]
fn summary_counts() {
    assert_eq!(summary_count(None), 20);
    assert_eq!(summary_count(Some(5)), 5);
    assert_eq!(summary_count(Some(50)), 50);
    assert_eq!(summary_count(Some(200)), 50);
}

fn msg(author: &str, content: &str) -> ChatMessage {
    ChatMessage { author: author.to_string(), content: content.to_string() }
}

#[test]
fn summary_lines() {
    assert_eq!(summary_line(&msg("a", "hi\nthere")), "**a**: hi there");
    assert_eq!(summary_line(&msg("a", "")), "**a**: [attachment or embed]");
    let long = "y".repeat(81);
    assert_eq!(summary_line(&msg("b", &long)), format!("**b**: {}...", "y".repeat(80)));
    assert_eq!(summary_line(&msg("b", &"z".repeat(80))), format!("**b**: {}", "z".repeat(80)));
}

#[test]
fn summary_replies() {
    assert_eq!(chat_summary_replies(20, &vec![]), vec!["No messages found.".to_string()]);
    let newest_first = vec![msg("b", "second"), msg("a", "first")];
    assert_eq!(
        chat_summary_replies(20, &newest_first),
        vec!["\u{1f4cb} **Chat Summary** \u{2014} last 20 messages\n\n**a**: first\n**b**: second".to_string()]
    );
    let many: Vec<ChatMessage> = (0..30).map(|i| msg("u", &i.to_string())).collect();
    let replies = chat_summary_replies(30, &many);
    assert_eq!(replies.len(), 3);
    assert!(replies[0].ends_with("**u**: 16"));
    assert!(replies[2].ends_with("**u**: 0"));
    let replies = chat_summary_replies(2, &many);
    assert_eq!(replies.len(), 1);
    assert!(replies[0].ends_with("**u**: 29\n**u**: 28"));
}

#[test]
fn ping_replies() {
    let e = ping_embed("example.com", "93.184.216.34", 12, true, 40);
    assert_eq!(e.title, "\u{1f310} Ping \u{2014} example.com");
    assert_eq!(e.color, 0x00FF00);
    assert_eq!(
        fields(&e.fields),
        vec![
            f("IP Address", "93.184.216.34", true),
            f("DNS Resolution", "12 ms", true),
            f("TCP Port 80", "\u{2705} **Reachable** \u{2014} 40 ms", false)
        ]
    );
    let e = ping_embed("h", "1.1.1.1", 0, false, 5000);
    assert_eq!(e.color, 0xFF0000);
    assert_eq!(e.fields[2].value, "\u{274c} **Unreachable** (connection timed out)");
    assert_eq!(dns_failure_reply("no host"), "\u{274c} DNS resolution failed: no host");
    assert_eq!(invalid_ip_reply(), "\u{274c} Invalid IP address.");
}

#[test]
fn ip_intel_replies() {
    let info = IpInfo {
        ip: "8.8.8.8".to_string(),
        city: Some("Mountain View".to_string()),
        region: None,
        country: Some("US".to_string()),
        loc: None,
        org: Some("Google".to_string()),
        postal: None,
        timezone: None,
    };
    let mut e = ip_intel_embed(&info);
    assert_eq!(e.title, "\u{1f30d} IP Intel \u{2014} 8.8.8.8");
    assert_eq!(e.color, 0x9B59B6);
    assert_eq!(
        fields(&e.fields),
        vec![
            f("City", "Mountain View", true),
            f("Region", "N/A", true),
            f("Country", "US", true),
            f("Location", "N/A", true),
            f("ISP", "Google", true),
            f("Timezone", "N/A", true)
        ]
    );
    let report = AbuseIPDBReport {
        ip_address: "8.8.8.8".to_string(),
        abuse_confidence_score: 3,
        country_code: "US".to_string(),
        usage_type: "DC".to_string(),
        isp: "Google LLC".to_string(),
        domain: "google.com".to_string(),
        total_reports: 12,
        last_reported_at: String::new(),
    };
    add_abuse_fields(&mut e, &report);
    assert_eq!(e.fields.len(), 9);
    assert_eq!(
        fields(&e.fields[6..]),
        vec![f("Abuse Confidence", "3%", true), f("Total Reports", "12", true), f("ISP (AbuseIPDB)", "Google LLC", true)]
    );

    let without = ipintel_reply(&info, None);
    assert_eq!(without.title, "\u{1f30d} IP Intel \u{2014} 8.8.8.8");
    assert_eq!(fields(&without.fields), fields(&ip_intel_embed(&info).fields));
    let with = ipintel_reply(&info, Some(report));
    assert_eq!(fields(&with.fields), fields(&e.fields));
}

fn player() -> Player {
    Player {
        id: 1,
        roblox_id: 156,
        discord_id: None,
        username: "builderman".to_string(),
        playtime_seconds: 7322,
        created_at: "2024-01-01".to_string(),
        updated_at: "2024-02-01".to_string(),
    }
}

#[test]
fn playtime_replies() {
    assert_eq!(playtime_not_found_reply(5), "Player with Roblox ID `5` not found in database.");
    let e = playtime_embed(&player());
    assert_eq!(e.title, "Playtime \u{2014} builderman");
    assert_eq!(e.color, 0x00FF00);
    assert_eq!(
        fields(&e.fields),
        vec![
            f("Roblox ID", "156", true),
            f("Playtime", "02h 02m 02s", true),
            f("First Seen", "2024-01-01", true),
            f("Last Updated", "2024-02-01", true)
        ]
    );
}

fn infraction(i: i64) -> Infraction {
    Infraction {
        id: i,
        player_id: 1,
        infraction_type: "warn".to_string(),
        reason: format!("r{}", i),
        moderator_id: 99,
        created_at: "d".to_string(),
    }
}

#[test]
fn infraction_listing() {
    assert_eq!(infractions_not_found_reply(-1), "Player with Roblox ID `-1` not found.");
    assert_eq!(infraction_replies("bob", &vec![]), vec!["**bob** has no infractions. \u{2705}".to_string()]);
    assert_eq!(
        infraction_replies("bob", &vec![infraction(1)]),
        vec!["\u{1f4cb} **Infractions for bob** (1 total)\n\n1. **warn** \u{2014} r1 (by <@99>) \u{2014} d".to_string()]
    );
    let infs: Vec<Infraction> = (1..=20).map(infraction).collect();
    let replies = infraction_replies("bob", &infs);
    assert_eq!(replies.len(), 2);
    assert!(replies[1].starts_with("15. **warn**"));
    assert!(replies[1].ends_with("20. **warn** \u{2014} r20 (by <@99>) \u{2014} d"));
}

#[test]
fn time_replies() {
    assert_eq!(
        time_reply("UTC", Ok("2024-01-01 00:00:00 UTC".to_string()), &vec![]),
        "\u{1f550} **Current time (UTC)**: 2024-01-01 00:00:00 UTC"
    );
    assert_eq!(
        time_reply("Nowhere", Err(TimeError::InvalidTimezone("Nowhere".to_string())), &vec![]),
        "Invalid timezone `Nowhere`. Use `/timezones` to search."
    );
    assert_eq!(
        time_reply("tokyo", Err(TimeError::InvalidTimezone("tokyo".to_string())), &vec!["Asia/Tokyo".to_string()]),
        "Invalid timezone `tokyo`. Did you mean: Asia/Tokyo?"
    );
    assert!(time_command(None).starts_with("\u{1f550} **Current time (UTC)**: "));
    assert_eq!(time_command(Some("tokyo".to_string())), "Invalid timezone `tokyo`. Did you mean: Asia/Tokyo?");
}

#[test]
fn timezone_listing() {
    assert_eq!(timezones_reply(&vec![]), "No timezones found matching that query.");
    assert_eq!(timezones_reply(&vec!["A".to_string(), "B".to_string()]), "**Matching timezones:**\nA\nB");
    assert_eq!(timezones_command(Some("qqqq".to_string())), "No timezones found matching that query.");
    assert_eq!(timezones_command(Some("Tokyo".to_string())), "**Matching timezones:**\nAsia/Tokyo");
    assert_eq!(timezones_command(None).lines().count(), 11);
}

#[test]
fn embed_fields() {
    let x = field("a", "b", true);
    assert_eq!((x.name.as_str(), x.value.as_str(), x.inline), ("a", "b", true));
}

#[test]
fn sysinfo_reply() {
    let t = SysInfoTexts {
        hostname: "box".to_string(),
        os: "Linux".to_string(),
        kernel: "6.1".to_string(),
        uptime_secs: 90061,
        cpu: "cpu".to_string(),
        memory: "mem".to_string(),
        swap: "swap".to_string(),
        disk_lines: vec!["a".to_string(), "b".to_string()],
        network_lines: vec![],
    };
    let e = sysinfo_embed(&t);
    assert_eq!(e.title, "\u{1f5a5}\u{fe0f} System Information");
    assert_eq!(e.color, 0x00FF00);
    assert_eq!(
        fields(&e.fields),
        vec![
            f("Hostname", "box", true),
            f("OS", "Linux", true),
            f("Kernel", "6.1", true),
            f("Uptime", "1d 1h 1m", true),
            f("CPU", "cpu", false),
            f("Memory", "mem", true),
            f("Swap", "swap", true),
            f("Disks", "a\nb", false),
            f("Network", "", false)
        ]
    );
}

#[test]
fn suggestions_are_the_first_matches_in_order() {
    let found = list_timezones("america/");
    assert_eq!(found.len(), 10);
    let mut sorted = found.clone();
    sorted.sort();
    assert_eq!(found, sorted);
    assert_eq!(found[0], "America/Adak");
    assert_eq!(time_command(Some("kolkat".to_string())), "Invalid timezone `kolkat`. Did you mean: Asia/Kolkata?");
}
