//! `/playtime` and `/infractions`.

use vstd::prelude::*;
use crate::commands::embed::{Embed, field, field_is};
use crate::models::{Infraction, Player};
use crate::text::{
    append_int, append_nat, chunk_replies, dec_int, dec_nat, joined_chunks, lemma_chunk_replies_send_all, sent_in_pieces, views,
};
use crate::time::{duration_text, format_duration_seconds};

verus! {

/// The colour of `/playtime` replies.
pub const PLAYTIME_COLOR: u32 = 0x00FF00;

/// How many lines go into one `/infractions` reply.
pub const INFRACTION_LINES_PER_REPLY: usize = 15;

/// The reply to `/playtime` for an id the database does not know.
pub fn playtime_not_found_reply(roblox_id: i64) -> (m: String)
    ensures
        m@ == "Player with Roblox ID `"@ + dec_int(roblox_id as int) + "` not found in database."@,
{
    let mut m = String::new();
    m.append("Player with Roblox ID `");
    append_int(&mut m, roblox_id);
    m.append("` not found in database.");
    m
}

/// The reply to `/playtime`: the player's id, total playtime and when the
/// player was first and last seen.
pub fn playtime_embed(player: &Player) -> (e: Embed)
    ensures
        e.title@ == "Playtime — "@ + player.username@,
        e.url is None,
        e.thumbnail is None,
        e.color == PLAYTIME_COLOR,
        e.fields.len() == 4,
        field_is(e.fields@[0], "Roblox ID"@, dec_int(player.roblox_id as int), true),
        field_is(e.fields@[1], "Playtime"@, duration_text(player.playtime_seconds as int), true),
        field_is(e.fields@[2], "First Seen"@, player.created_at@, true),
        field_is(e.fields@[3], "Last Updated"@, player.updated_at@, true),
{
    let mut title = String::new();
    title.append("Playtime — ");
    title.append(player.username.as_str());
    let mut id_text = String::new();
    append_int(&mut id_text, player.roblox_id);
    let played = format_duration_seconds(player.playtime_seconds);
    let fields = vec![
        field("Roblox ID", id_text.as_str(), true),
        field("Playtime", played.as_str(), true),
        field("First Seen", player.created_at.as_str(), true),
        field("Last Updated", player.updated_at.as_str(), true),
    ];
    Embed { title, url: None, color: PLAYTIME_COLOR, fields, thumbnail: None }
}

/// The reply to `/infractions` for an id the database does not know.
pub fn infractions_not_found_reply(roblox_id: i64) -> (m: String)
    ensures
        m@ == "Player with Roblox ID `"@ + dec_int(roblox_id as int) + "` not found."@,
{
    let mut m = String::new();
    m.append("Player with Roblox ID `");
    append_int(&mut m, roblox_id);
    m.append("` not found.");
    m
}

/// The line of the infraction at (zero-based) position `i`.
pub open spec fn infraction_line(i: nat, inf: Infraction) -> Seq<char> {
    dec_nat(i + 1) + ". **"@ + inf.infraction_type@ + "** — "@ + inf.reason@ + " (by <@"@
        + dec_int(inf.moderator_id as int) + ">) — "@ + inf.created_at@
}

/// The numbered lines of a list of infractions.
pub open spec fn infraction_lines(infs: Seq<Infraction>) -> Seq<Seq<char>> {
    Seq::new(infs.len(), |i: int| infraction_line(i as nat, infs[i]))
}

/// The replies to `/infractions`: a note when the player has none, else a
/// header and one numbered line per infraction, fifteen lines to a reply.
pub open spec fn infraction_replies_of(username: Seq<char>, infs: Seq<Infraction>) -> Seq<Seq<char>> {
    if infs.len() == 0 {
        seq!["**"@ + username + "** has no infractions. ✅"@]
    } else {
        chunk_replies(
            Seq::<char>::empty(),
            seq!["📋 **Infractions for "@ + username + "** ("@ + dec_nat(infs.len()) + " total)\n"@]
                + infraction_lines(infs),
            INFRACTION_LINES_PER_REPLY as nat,
        )
    }
}

/// What `/infractions` replies: the note that the player has none exactly
/// when there is no infraction; otherwise at least one reply, and the
/// replies' lines, in order, are the header naming the player and the
/// number of infractions, then one line per infraction in the order given,
/// numbered from one; fifteen lines at most to a reply.
pub proof fn lemma_infraction_replies_list_every_infraction(username: Seq<char>, infs: Seq<Infraction>)
    ensures
        infs.len() == 0 ==> infraction_replies_of(username, infs) == seq!["**"@ + username + "** has no infractions. ✅"@],
        infs.len() > 0 ==> infraction_replies_of(username, infs).len() > 0 && sent_in_pieces(
            infraction_replies_of(username, infs),
            Seq::<char>::empty(),
            seq!["📋 **Infractions for "@ + username + "** ("@ + dec_nat(infs.len()) + " total)\n"@] + Seq::new(
                infs.len(),
                |i: int|
                    dec_nat((i + 1) as nat) + ". **"@ + infs[i].infraction_type@ + "** — "@ + infs[i].reason@
                        + " (by <@"@ + dec_int(infs[i].moderator_id as int) + ">) — "@ + infs[i].created_at@,
            ),
            15,
        ),
{
    if infs.len() > 0 {
        let lines = seq!["📋 **Infractions for "@ + username + "** ("@ + dec_nat(infs.len()) + " total)\n"@]
            + infraction_lines(infs);
        lemma_chunk_replies_send_all(Seq::<char>::empty(), lines, 15);
        let expected = seq!["📋 **Infractions for "@ + username + "** ("@ + dec_nat(infs.len()) + " total)\n"@] + Seq::new(
            infs.len(),
            |i: int|
                dec_nat((i + 1) as nat) + ". **"@ + infs[i].infraction_type@ + "** — "@ + infs[i].reason@
                    + " (by <@"@ + dec_int(infs[i].moderator_id as int) + ">) — "@ + infs[i].created_at@,
        );
        assert(lines =~= expected);
    }
}

/// The replies to `/infractions` for a player and their infractions, in
/// the order the database lists them (newest first).
pub fn infraction_replies(username: &str, infs: &Vec<Infraction>) -> (r: Vec<String>)
    ensures
        views(r@) == infraction_replies_of(username@, infs@),
{
    if infs.len() == 0 {
        let mut m = String::new();
        m.append("**");
        m.append(username);
        m.append("** has no infractions. ✅");
        let r = vec![m];
        assert(views(r@) =~= infraction_replies_of(username@, infs@));
        return r;
    }
    let mut header = String::new();
    header.append("📋 **Infractions for ");
    header.append(username);
    header.append("** (");
    append_nat(&mut header, infs.len() as u128);
    header.append(" total)\n");
    let ghost head = header@;
    let mut lines: Vec<String> = vec![header];
    let mut k: usize = 0;
    while k < infs.len()
        invariant
            k <= infs.len(),
            lines.len() == k + 1,
            views(lines@) == seq![head] + infraction_lines(infs@.take(k as int)),
        decreases infs.len() - k,
    {
        let inf = &infs[k];
        let mut line = String::new();
        append_nat(&mut line, (k + 1) as u128);
        line.append(". **");
        line.append(inf.infraction_type.as_str());
        line.append("** — ");
        line.append(inf.reason.as_str());
        line.append(" (by <@");
        append_int(&mut line, inf.moderator_id);
        line.append(">) — ");
        line.append(inf.created_at.as_str());
        assert(line@ =~= infraction_line(k as nat, infs@[k as int]));
        let ghost old_lines = lines@;
        lines.push(line);
        k = k + 1;
        assert forall|i: int| 0 <= i < k + 1 implies #[trigger] views(lines@)[i] == (seq![head]
            + infraction_lines(infs@.take(k as int)))[i] by {
            if i < k {
                assert(lines@[i] == old_lines[i]);
                assert(views(old_lines)[i] == old_lines[i]@);
            }
        }
        assert(views(lines@) =~= seq![head] + infraction_lines(infs@.take(k as int)));
    }
    proof {
        reveal_strlit("");
        assert(""@ =~= Seq::<char>::empty());
        assert(infs@.take(infs.len() as int) =~= infs@);
    }
    joined_chunks("", &lines, INFRACTION_LINES_PER_REPLY)
}

} // verus!
