//! `/time` and `/timezones`.

use vstd::prelude::*;
use crate::text::{join, join_all, laid_out, lemma_join_laid_out, views};
use crate::time::{
    list_timezones, now_in_timezone, EARLIEST_TIMESTAMP, LATEST_TIMESTAMP, suggestions_for, time_layout, time_text_shape, zone_known, zone_time_text, TimeError,
};

verus! {

/// The zone `/time` tells the time in when none is named.
pub open spec fn zone_arg_of(timezone: Option<String>) -> Seq<char> {
    match timezone {
        Some(z) => z@,
        None => "UTC"@,
    }
}

/// The reply to `/time`, from the zone name, the time told (or why it
/// could not be told) and the suggested zone names.
pub open spec fn time_reply_of(zone: Seq<char>, told: Result<String, TimeError>, suggestions: Seq<Seq<char>>) -> Seq<char> {
    match told {
        Ok(now) => "🕐 **Current time ("@ + zone + ")**: "@ + now@,
        Err(_) => invalid_zone_text(zone, suggestions),
    }
}

/// The reply to `/time` for a zone name chrono-tz does not know.
pub open spec fn invalid_zone_text(zone: Seq<char>, suggestions: Seq<Seq<char>>) -> Seq<char> {
    if suggestions.len() == 0 {
        "Invalid timezone `"@ + zone + "`. Use `/timezones` to search."@
    } else {
        "Invalid timezone `"@ + zone + "`. Did you mean: "@ + join(suggestions, ", "@) + "?"@
    }
}

/// For a zone name that could not be told, the reply suggests every
/// suggested zone name: with no suggestion it points to `/timezones`;
/// otherwise it asks whether one of the names was meant, listing all of
/// them in order with `, ` between consecutive names and nothing else.
pub proof fn lemma_invalid_zone_reply_lists_suggestions(
    zone: Seq<char>,
    told: Result<String, TimeError>,
    suggestions: Seq<Seq<char>>,
)
    ensures
        told is Err && suggestions.len() == 0 ==> time_reply_of(zone, told, suggestions) == "Invalid timezone `"@
            + zone + "`. Use `/timezones` to search."@,
        told is Err && suggestions.len() > 0 ==> exists|listed: Seq<char>|
            #[trigger] laid_out(listed, suggestions, ", "@) && time_reply_of(zone, told, suggestions)
                == "Invalid timezone `"@ + zone + "`. Did you mean: "@ + listed + "?"@,
{
    lemma_join_laid_out(suggestions, ", "@);
}

/// Builds the reply to `/time` from what was told and suggested.
pub fn time_reply(zone: &str, told: Result<String, TimeError>, suggestions: &Vec<String>) -> (m: String)
    ensures
        m@ == time_reply_of(zone@, told, views(suggestions@)),
{
    let mut m = String::new();
    match told {
        Ok(now) => {
            m.append("🕐 **Current time (");
            m.append(zone);
            m.append(")**: ");
            m.append(now.as_str());
        },
        Err(_) => {
            m.append("Invalid timezone `");
            m.append(zone);
            if suggestions.len() == 0 {
                m.append("`. Use `/timezones` to search.");
            } else {
                let joined = join_all(suggestions, ", ");
                m.append("`. Did you mean: ");
                m.append(joined.as_str());
                m.append("?");
            }
        },
    }
    m
}

/// The reply to `/time`: the current time in the named zone (UTC by
/// default), as chrono writes some instant the clock gave in that zone, or,
/// for a name chrono-tz does not know, the zone suggestions for the name (the
/// first ten zones, in ascending order, that hold it, ignoring case).
pub fn time_command(timezone: Option<String>) -> (m: String)
    ensures
        zone_known(zone_arg_of(timezone)) ==> exists|secs: i64, nanos: u32|
            EARLIEST_TIMESTAMP <= secs <= LATEST_TIMESTAMP && nanos < 1_000_000_000 && time_text_shape(
                #[trigger] zone_time_text(secs, nanos, zone_arg_of(timezone), time_layout()),
            ) && m@ == "🕐 **Current time ("@ + zone_arg_of(timezone) + ")**: "@ + zone_time_text(
                secs,
                nanos,
                zone_arg_of(timezone),
                time_layout(),
            ),
        !zone_known(zone_arg_of(timezone)) ==> exists|s: Seq<Seq<char>>|
            suggestions_for(zone_arg_of(timezone), s) && m@ == invalid_zone_text(zone_arg_of(timezone), s),
{
    let zone = match timezone {
        Some(z) => z,
        None => "UTC".to_owned(),
    };
    let told = now_in_timezone(zone.as_str());
    let none: Vec<String> = Vec::new();
    if told.is_ok() {
        let ghost now = match told { Ok(ref t) => t@, Err(_) => Seq::empty() };
        let m = time_reply(zone.as_str(), told, &none);
        assert(m@ == "🕐 **Current time ("@ + zone@ + ")**: "@ + now);
        m
    } else {
        let suggestions = list_timezones(zone.as_str());
        let m = time_reply(zone.as_str(), told, &suggestions);
        assert(m@ == invalid_zone_text(zone@, views(suggestions@)));
        assert(suggestions_for(zone@, views(suggestions@)));
        m
    }
}

} // verus!

verus! {

/// The reply to `/timezones` for the names found.
pub open spec fn timezones_reply_of(found: Seq<Seq<char>>) -> Seq<char> {
    if found.len() == 0 {
        "No timezones found matching that query."@
    } else {
        "**Matching timezones:**\n"@ + join(found, seq!['\n'])
    }
}

/// `/timezones` lists every zone name found: the note that none was found
/// exactly when the list is empty; otherwise the heading line followed by
/// the names in order, one per line, and nothing else.
pub proof fn lemma_timezones_reply_lists_every_name(found: Seq<Seq<char>>)
    ensures
        found.len() == 0 ==> timezones_reply_of(found) == "No timezones found matching that query."@,
        found.len() > 0 ==> exists|listed: Seq<char>|
            #[trigger] laid_out(listed, found, seq!['\n']) && timezones_reply_of(found) == "**Matching timezones:**\n"@
                + listed,
{
    lemma_join_laid_out(found, seq!['\n']);
}

/// Builds the reply to `/timezones` from the names found.
pub fn timezones_reply(found: &Vec<String>) -> (m: String)
    ensures
        m@ == timezones_reply_of(views(found@)),
{
    if found.len() == 0 {
        "No timezones found matching that query.".to_owned()
    } else {
        let joined = join_all(found, "\n");
        proof {
            reveal_strlit("\n");
            assert("\n"@ =~= seq!['\n']);
        }
        let mut m = String::new();
        m.append("**Matching timezones:**\n");
        m.append(joined.as_str());
        m
    }
}

/// The reply to `/timezones`: the first ten zone names, in ascending order,
/// that hold the query (any name when there is none), ignoring case.
pub fn timezones_command(query: Option<String>) -> (m: String)
    ensures
        exists|s: Seq<Seq<char>>|
            suggestions_for(match query { Some(q) => q@, None => ""@ }, s) && m@ == timezones_reply_of(s),
{
    let found = match &query {
        Some(q) => list_timezones(q.as_str()),
        None => list_timezones(""),
    };
    let m = timezones_reply(&found);
    assert(suggestions_for(match query { Some(q) => q@, None => ""@ }, views(found@)));
    m
}

} // verus!
