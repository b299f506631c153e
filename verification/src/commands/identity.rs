//! `/roblox` and `/discord`: who an account is.

use vstd::prelude::*;
use crate::commands::embed::{Embed, field, field_is};
use crate::roblox::{RobloxUser, profile_url, profile_page_url};
use crate::text::{append_int, append_nat, byte_len, cuts_inside_char, dec_int, dec_nat, parse_i64, parsed_i64, truncate, truncated};

verus! {

/// How `/roblox` names the account to look up.
#[derive(Debug, Clone)]
pub enum UserRef {
    /// By account id.
    Id(i64),
    /// By account name.
    Name(String),
}

/// An argument that reads as an `i64` is an account id; anything else is
/// an account name.
pub fn parse_user_ref(id_or_username: &str) -> (r: UserRef)
    ensures
        match parsed_i64(id_or_username@) {
            Some(id) => r == UserRef::Id(id),
            None => r matches UserRef::Name(name) && name@ == id_or_username@,
        },
{
    match parse_i64(id_or_username) {
        Some(id) => UserRef::Id(id),
        None => UserRef::Name(id_or_username.to_owned()),
    }
}

/// The most bytes of an account description that `/roblox` shows.
pub const DESCRIPTION_LIMIT: usize = 200;

/// The colour of `/roblox` replies.
pub const ROBLOX_COLOR: u32 = 0xED4245;

/// The colour of `/discord` and `/memberinfo` replies.
pub const DISCORD_COLOR: u32 = 0x5865F2;

/// The title of a `/roblox` reply.
pub open spec fn roblox_title(user: RobloxUser) -> Seq<char> {
    user.display_name@ + " (@"@ + user.name@ + ")"@
}

/// The reply to `/roblox`: the account's names, id, description (cut to
/// 200 bytes), creation date and avatar, linked to its profile page.
/// A description that the cut would split inside a character is left out:
/// the cut panics there.
pub fn roblox_embed(user: &RobloxUser, avatar: String) -> (e: Embed)
    requires
        byte_len(user.description@) <= usize::MAX,
        !cuts_inside_char(user.description@, DESCRIPTION_LIMIT as nat),
    ensures
        e.title@ == roblox_title(*user),
        e.url matches Some(u) && u@ == profile_url(user.id),
        e.color == ROBLOX_COLOR,
        e.thumbnail == Some(avatar),
        e.fields.len() == 4,
        field_is(e.fields@[0], "User ID"@, dec_int(user.id as int), true),
        field_is(e.fields@[1], "Display Name"@, user.display_name@, true),
        field_is(e.fields@[2], "Description"@, truncated(user.description@, DESCRIPTION_LIMIT as nat), false),
        field_is(e.fields@[3], "Created"@, user.created@, true),
{
    let mut title = String::new();
    title.append(user.display_name.as_str());
    title.append(" (@");
    title.append(user.name.as_str());
    title.append(")");
    let mut id_text = String::new();
    append_int(&mut id_text, user.id);
    let description = truncate(user.description.as_str(), DESCRIPTION_LIMIT);
    let fields = vec![
        field("User ID", id_text.as_str(), true),
        field("Display Name", user.display_name.as_str(), true),
        field("Description", description.as_str(), false),
        field("Created", user.created.as_str(), true),
    ];
    Embed {
        title,
        url: Some(profile_page_url(user.id)),
        color: ROBLOX_COLOR,
        fields,
        thumbnail: Some(avatar),
    }
}

/// The reply to `/discord`: the account's name, id, display name, creation
/// date and whether it is a bot, beside its avatar.
pub fn discord_user_embed(
    name: &str,
    id: u64,
    display_name: &str,
    created: &str,
    is_bot: bool,
    face_url: String,
) -> (e: Embed)
    ensures
        e.title@ == "Discord User — "@ + name@,
        e.url is None,
        e.color == DISCORD_COLOR,
        e.thumbnail == Some(face_url),
        e.fields.len() == 4,
        field_is(e.fields@[0], "ID"@, dec_nat(id as nat), true),
        field_is(e.fields@[1], "Display Name"@, display_name@, true),
        field_is(e.fields@[2], "Account Created"@, created@, true),
        field_is(e.fields@[3], "Bot"@, if is_bot { "Yes"@ } else { "No"@ }, true),
{
    let mut title = String::new();
    title.append("Discord User — ");
    title.append(name);
    let mut id_text = String::new();
    append_nat(&mut id_text, id as u128);
    let bot = if is_bot { "Yes" } else { "No" };
    let fields = vec![
        field("ID", id_text.as_str(), true),
        field("Display Name", display_name, true),
        field("Account Created", created, true),
        field("Bot", bot, true),
    ];
    Embed { title, url: None, color: DISCORD_COLOR, fields, thumbnail: Some(face_url) }
}

} // verus!
