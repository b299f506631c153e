//! `/mute`, `/unmute`, `/memberinfo` and `/chatsummary`.

use vstd::prelude::*;
use std::collections::HashMap;
use crate::commands::embed::{Embed, field, field_is};
use crate::commands::identity::DISCORD_COLOR;
use crate::text::{
    append_nat, byte_len, chunk_replies, cuts_inside_char, dec_nat, join, joined_chunks, join_all, laid_out,
    lemma_chunk_replies_send_all, lemma_join_laid_out, one_line, replace_newlines, sent_in_pieces, truncate, truncated,
    views,
};

verus! {

broadcast use vstd::std_specs::hash::group_hash_axioms;

/// The reason a mute records when none is given.
pub open spec fn mute_reason_of(reason: Option<String>) -> Seq<char> {
    match reason {
        Some(r) => r@,
        None => "No reason provided"@,
    }
}

/// The reason a mute records.
pub fn mute_reason(reason: Option<String>) -> (r: String)
    ensures
        r@ == mute_reason_of(reason),
{
    match reason {
        Some(r) => r,
        None => "No reason provided".to_owned(),
    }
}

/// The reply to `/mute`.
pub fn mute_reply(member_name: &str, minutes: u64, reason: &str) -> (m: String)
    ensures
        m@ == "🔇 Muted **"@ + member_name@ + "** for "@ + dec_nat(minutes as nat) + " minute(s). Reason: "@
            + reason@,
{
    let mut m = String::new();
    m.append("🔇 Muted **");
    m.append(member_name);
    m.append("** for ");
    append_nat(&mut m, minutes as u128);
    m.append(" minute(s). Reason: ");
    m.append(reason);
    m
}

/// The reply to `/unmute`.
pub fn unmute_reply(member_name: &str) -> (m: String)
    ensures
        m@ == "🔊 Unmuted **"@ + member_name@ + "**"@,
{
    let mut m = String::new();
    m.append("🔊 Unmuted **");
    m.append(member_name);
    m.append("**");
    m
}

/// The names of a member's roles that the server still has, in the order of
/// the member's role list.
pub open spec fn role_names_of(role_ids: Seq<u64>, roles: Map<u64, String>) -> Seq<Seq<char>>
    decreases role_ids.len(),
{
    if role_ids.len() == 0 {
        seq![]
    } else {
        let before = role_names_of(role_ids.drop_last(), roles);
        if roles.contains_key(role_ids.last()) {
            before.push(roles[role_ids.last()]@)
        } else {
            before
        }
    }
}

/// The names of a member's roles, looked up among the server's roles.
pub fn role_names(role_ids: &Vec<u64>, guild_roles: &HashMap<u64, String>) -> (r: Vec<String>)
    ensures
        views(r@) == role_names_of(role_ids@, guild_roles@),
{
    let mut r: Vec<String> = Vec::new();
    let mut k: usize = 0;
    while k < role_ids.len()
        invariant
            k <= role_ids.len(),
            views(r@) == role_names_of(role_ids@.take(k as int), guild_roles@),
        decreases role_ids.len() - k,
    {
        let ghost ids = role_ids@.take(k + 1);
        assert(ids.drop_last() =~= role_ids@.take(k as int));
        let id = role_ids[k];
        match guild_roles.get(&id) {
            Some(name) => {
                let ghost old_r = r@;
                r.push(name.clone());
                assert(views(r@) =~= views(old_r).push(guild_roles@[id]@));
            },
            None => {},
        }
        k = k + 1;
    }
    assert(role_ids@.take(role_ids.len() as int) =~= role_ids@);
    r
}

/// The Roles field: the names joined with commas, or `None`.
pub open spec fn roles_text_of(names: Seq<Seq<char>>) -> Seq<char> {
    if names.len() == 0 {
        "None"@
    } else {
        join(names, ", "@)
    }
}

/// The Roles field names every role: it is `None` when the member has no
/// role, and otherwise the role names in order, each once, with `, `
/// between consecutive names and nothing else.
pub proof fn lemma_roles_text_names_every_role(names: Seq<Seq<char>>)
    ensures
        names.len() == 0 ==> roles_text_of(names) == "None"@,
        names.len() > 0 ==> laid_out(roles_text_of(names), names, ", "@),
{
    lemma_join_laid_out(names, ", "@);
}

/// The reply to `/memberinfo`: the member's name, id, display name, join
/// date (`Unknown` when missing), account creation date and roles.
pub fn memberinfo_embed(
    name: &str,
    id: u64,
    display_name: &str,
    joined: Option<String>,
    created: &str,
    role_names: &Vec<String>,
    face_url: String,
) -> (e: Embed)
    ensures
        e.title@ == "Member Info — "@ + name@,
        e.url is None,
        e.color == DISCORD_COLOR,
        e.thumbnail == Some(face_url),
        e.fields.len() == 5,
        field_is(e.fields@[0], "ID"@, dec_nat(id as nat), true),
        field_is(e.fields@[1], "Display Name"@, display_name@, true),
        field_is(e.fields@[2], "Joined Server"@, match joined { Some(j) => j@, None => "Unknown"@ }, true),
        field_is(e.fields@[3], "Account Created"@, created@, true),
        field_is(e.fields@[4], "Roles"@, roles_text_of(views(role_names@)), false),
{
    let mut title = String::new();
    title.append("Member Info — ");
    title.append(name);
    let mut id_text = String::new();
    append_nat(&mut id_text, id as u128);
    let joined_text = match joined {
        Some(j) => j,
        None => "Unknown".to_owned(),
    };
    let roles = if role_names.len() == 0 {
        "None".to_owned()
    } else {
        join_all(role_names, ", ")
    };
    let fields = vec![
        field("ID", id_text.as_str(), true),
        field("Display Name", display_name, true),
        field("Joined Server", joined_text.as_str(), true),
        field("Account Created", created, true),
        field("Roles", roles.as_str(), false),
    ];
    Embed { title, url: None, color: DISCORD_COLOR, fields, thumbnail: Some(face_url) }
}

} // verus!

verus! {

/// How many messages `/chatsummary` summarizes when no count is given.
pub const DEFAULT_SUMMARY_COUNT: u8 = 20;

/// The most messages `/chatsummary` summarizes.
pub const MAX_SUMMARY_COUNT: u8 = 50;

/// The most bytes of a message that a summary line shows.
pub const SUMMARY_LINE_LIMIT: usize = 80;

/// How many lines go into one summary reply.
pub const SUMMARY_LINES_PER_REPLY: usize = 15;

/// The number of messages summarized is the count asked for when it is at
/// most fifty, fifty when more is asked for, and twenty when none is given;
/// it never exceeds fifty.
pub proof fn lemma_summary_count_caps(count: Option<u8>)
    ensures
        summary_count_of(count) <= 50,
        count is None ==> summary_count_of(count) == 20,
        count is Some && count.unwrap() <= 50 ==> summary_count_of(count) == count.unwrap(),
        count is Some && count.unwrap() > 50 ==> summary_count_of(count) == 50,
{
}

/// How many messages to summarize: the count asked for (20 by default),
/// at most 50.
pub open spec fn summary_count_of(count: Option<u8>) -> u8 {
    let asked = match count { Some(c) => c, None => DEFAULT_SUMMARY_COUNT };
    if asked < MAX_SUMMARY_COUNT { asked } else { MAX_SUMMARY_COUNT }
}

/// How many messages to summarize.
pub fn summary_count(count: Option<u8>) -> (n: u8)
    ensures
        n == summary_count_of(count),
        n <= MAX_SUMMARY_COUNT,
{
    let asked = match count { Some(c) => c, None => DEFAULT_SUMMARY_COUNT };
    if asked < MAX_SUMMARY_COUNT { asked } else { MAX_SUMMARY_COUNT }
}

/// A message of the channel, as the summary sees it.
#[derive(Debug, Clone)]
pub struct ChatMessage {
    pub author: String,
    pub content: String,
}

/// What a summary line shows of a message's text: a placeholder for an
/// empty one, line breaks turned into spaces.
pub open spec fn shown_text(content: Seq<char>) -> Seq<char> {
    if content.len() == 0 {
        "[attachment or embed]"@
    } else {
        one_line(content)
    }
}

/// Whether a message can be summarized: cutting its shown text after 80
/// bytes must not split a character (slicing there panics).
pub open spec fn summarizable(m: ChatMessage) -> bool {
    &&& byte_len(shown_text(m.content@)) <= usize::MAX
    &&& !cuts_inside_char(shown_text(m.content@), SUMMARY_LINE_LIMIT as nat)
}

/// The summary line of a message: its author in bold, then its shown text
/// cut to 80 bytes.
pub open spec fn summary_line_of(m: ChatMessage) -> Seq<char> {
    "**"@ + m.author@ + "**: "@ + truncated(shown_text(m.content@), SUMMARY_LINE_LIMIT as nat)
}

/// The summary line of a message.
pub fn summary_line(m: &ChatMessage) -> (line: String)
    requires
        summarizable(*m),
    ensures
        line@ == summary_line_of(*m),
{
    let shown = if m.content.as_str().is_empty() {
        "[attachment or embed]".to_owned()
    } else {
        replace_newlines(m.content.as_str())
    };
    let cut = truncate(shown.as_str(), SUMMARY_LINE_LIMIT);
    let mut line = String::new();
    line.append("**");
    line.append(m.author.as_str());
    line.append("**: ");
    line.append(cut.as_str());
    line
}

/// The summary lines of some messages, in order.
pub open spec fn summary_lines(msgs: Seq<ChatMessage>) -> Seq<Seq<char>> {
    msgs.map_values(|m: ChatMessage| summary_line_of(m))
}

/// The summary lines of the messages to summarize: the fetched messages
/// (newest first) in chronological order, at most `count` of them.
pub open spec fn summary_lines_of(msgs: Seq<ChatMessage>, count: nat) -> Seq<Seq<char>> {
    let ordered = msgs.reverse();
    let n = if ordered.len() < count { ordered.len() } else { count };
    summary_lines(ordered.take(n as int))
}

/// The first line of a summary.
pub open spec fn summary_header(count: u8) -> Seq<char> {
    "📋 **Chat Summary** — last "@ + dec_nat(count as nat) + " messages\n"@
}

/// The replies to `/chatsummary`: a note when the channel has no messages,
/// else the header and the summary lines, fifteen lines to a reply.
pub open spec fn chat_summary_of(count: u8, msgs: Seq<ChatMessage>) -> Seq<Seq<char>> {
    if msgs.len() == 0 {
        seq!["No messages found."@]
    } else {
        chunk_replies(
            Seq::<char>::empty(),
            seq![summary_header(count)] + summary_lines_of(msgs, count as nat),
            SUMMARY_LINES_PER_REPLY as nat,
        )
    }
}

/// What `/chatsummary` replies: the note that nothing was found exactly
/// when no message was fetched; otherwise at least one reply, and the
/// replies' lines, in order, are the header naming the count asked for,
/// then one line per summarized message (the oldest `count` of the fetched
/// ones, or all of them when fewer were fetched), oldest first: its author
/// in bold and its shown text cut to 80 bytes; fifteen lines at most to a reply.
pub proof fn lemma_chat_summary_covers_messages(count: u8, msgs: Seq<ChatMessage>)
    ensures
        msgs.len() == 0 ==> chat_summary_of(count, msgs) == seq!["No messages found."@],
        msgs.len() > 0 ==> chat_summary_of(count, msgs).len() > 0 && sent_in_pieces(
            chat_summary_of(count, msgs),
            Seq::<char>::empty(),
            seq!["📋 **Chat Summary** — last "@ + dec_nat(count as nat) + " messages\n"@] + Seq::new(
                if msgs.len() < count { msgs.len() } else { count as nat },
                |i: int|
                    "**"@ + msgs[msgs.len() - 1 - i].author@ + "**: "@ + truncated(
                        shown_text(msgs[msgs.len() - 1 - i].content@),
                        80,
                    ),
            ),
            15,
        ),
{
    if msgs.len() > 0 {
        let lines = seq![summary_header(count)] + summary_lines_of(msgs, count as nat);
        lemma_chunk_replies_send_all(Seq::<char>::empty(), lines, 15);
        let n: nat = if msgs.len() < count { msgs.len() } else { count as nat };
        let expected = seq!["📋 **Chat Summary** — last "@ + dec_nat(count as nat) + " messages\n"@] + Seq::new(
            n,
            |i: int|
                "**"@ + msgs[msgs.len() - 1 - i].author@ + "**: "@ + truncated(
                    shown_text(msgs[msgs.len() - 1 - i].content@),
                    80,
                ),
        );
        assert forall|i: int| 0 <= i < lines.len() implies #[trigger] lines[i] == expected[i] by {
            if i > 0 {
                assert(msgs.reverse()[i - 1] == msgs[msgs.len() - 1 - (i - 1)]);
            }
        }
        assert(lines =~= expected);
    }
}

/// The replies to `/chatsummary` for the fetched messages, newest first.
/// Each of the oldest `count` messages, which are the ones summarized, must
/// be summarizable.
pub fn chat_summary_replies(count: u8, msgs: &Vec<ChatMessage>) -> (r: Vec<String>)
    requires
        forall|i: int| 0 <= i < msgs.len() && msgs.len() - count <= i ==> summarizable(#[trigger] msgs@[i]),
    ensures
        views(r@) == chat_summary_of(count, msgs@),
{
    if msgs.len() == 0 {
        let r = vec!["No messages found.".to_owned()];
        assert(views(r@) =~= chat_summary_of(count, msgs@));
        return r;
    }
    let ghost ordered = msgs@.reverse();
    let n: usize = if msgs.len() < count as usize { msgs.len() } else { count as usize };
    let mut header = String::new();
    header.append("📋 **Chat Summary** — last ");
    append_nat(&mut header, count as u128);
    header.append(" messages\n");
    let mut lines: Vec<String> = vec![header];
    let mut k: usize = 0;
    while k < n
        invariant
            k <= n <= msgs.len(),
            n == (if msgs.len() < count as usize { msgs.len() } else { count as usize }),
            ordered == msgs@.reverse(),
            forall|i: int| 0 <= i < msgs.len() && msgs.len() - count <= i ==> summarizable(#[trigger] msgs@[i]),
            lines.len() == k + 1,
            views(lines@) == seq![summary_header(count)] + summary_lines(ordered.take(k as int)),
        decreases n - k,
    {
        let idx: usize = msgs.len() - 1 - k;
        assert(ordered[k as int] == msgs@[idx as int]);
        let line = summary_line(&msgs[idx]);
        let ghost old_lines = lines@;
        lines.push(line);
        k = k + 1;
        assert forall|i: int| 0 <= i < k + 1 implies #[trigger] views(lines@)[i] == (seq![summary_header(count)]
            + summary_lines(ordered.take(k as int)))[i] by {
            if i < k {
                assert(lines@[i] == old_lines[i]);
                assert(views(old_lines)[i] == old_lines[i]@);
            }
        }
        assert(views(lines@) =~= seq![summary_header(count)] + summary_lines(ordered.take(k as int)));
    }
    proof {
        reveal_strlit("");
        assert(""@ =~= Seq::<char>::empty());
        assert(summary_lines(ordered.take(n as int)) == summary_lines_of(msgs@, count as nat));
    }
    joined_chunks("", &lines, SUMMARY_LINES_PER_REPLY)
}

} // verus!
