//! The Roblox web API: its records, its addresses, and what a lookup makes
//! of its answers.

use vstd::prelude::*;
use crate::text::{append_int, dec_int};

verus! {

/// A Roblox user account.
#[derive(Debug, Clone)]
pub struct RobloxUser {
    pub id: i64,
    pub name: String,
    pub display_name: String,
    pub description: String,
    pub created: String,
}

/// A game a Roblox user made.
#[derive(Debug, Clone)]
pub struct RobloxGame {
    pub id: i64,
    pub name: String,
    pub description: String,
    pub playing: i64,
    pub visits: i64,
    pub created: String,
    pub updated: String,
}

/// Why a Roblox lookup failed.
#[derive(Debug, Clone, Copy, PartialEq, Eq)]
pub enum RobloxError {
    /// The users or games API answered with this non-success status.
    Status(u16),
    /// The thumbnails API answered with this non-success status.
    ThumbnailStatus(u16),
    /// No account has the name asked for.
    UserNotFound,
    /// The account has no avatar picture.
    NoAvatar,
}

/// The address of the account with this id.
pub open spec fn user_url(user_id: i64) -> Seq<char> {
    "https://users.roblox.com/v1/users/"@ + dec_int(user_id as int)
}

/// The address of the games an account made.
pub open spec fn user_games_url(user_id: i64) -> Seq<char> {
    "https://games.roblox.com/v2/users/"@ + dec_int(user_id as int) + "/games?limit=10&sortOrder=Asc"@
}

/// The address of an account's avatar picture.
pub open spec fn avatar_url(user_id: i64) -> Seq<char> {
    "https://thumbnails.roblox.com/v1/users/avatar-headshot?userIds="@ + dec_int(user_id as int)
        + "&size=420x420&format=Png"@
}

/// The public profile page of an account.
pub open spec fn profile_url(user_id: i64) -> Seq<char> {
    "https://www.roblox.com/users/"@ + dec_int(user_id as int) + "/profile"@
}

/// The address a lookup by account name posts to.
pub open spec fn username_lookup_url() -> Seq<char> {
    "https://users.roblox.com/v1/usernames/users"@
}

/// The address of the account with this id.
pub fn user_lookup_url(user_id: i64) -> (u: String)
    ensures
        u@ == user_url(user_id),
{
    let mut u = String::new();
    u.append("https://users.roblox.com/v1/users/");
    append_int(&mut u, user_id);
    u
}

/// The address of the games an account made.
pub fn games_lookup_url(user_id: i64) -> (u: String)
    ensures
        u@ == user_games_url(user_id),
{
    let mut u = String::new();
    u.append("https://games.roblox.com/v2/users/");
    append_int(&mut u, user_id);
    u.append("/games?limit=10&sortOrder=Asc");
    u
}

/// The address of an account's avatar picture.
pub fn avatar_lookup_url(user_id: i64) -> (u: String)
    ensures
        u@ == avatar_url(user_id),
{
    let mut u = String::new();
    u.append("https://thumbnails.roblox.com/v1/users/avatar-headshot?userIds=");
    append_int(&mut u, user_id);
    u.append("&size=420x420&format=Png");
    u
}

/// The public profile page of an account.
pub fn profile_page_url(user_id: i64) -> (u: String)
    ensures
        u@ == profile_url(user_id),
{
    let mut u = String::new();
    u.append("https://www.roblox.com/users/");
    append_int(&mut u, user_id);
    u.append("/profile");
    u
}

/// The address a lookup by account name posts to.
pub fn username_lookup_address() -> (u: String)
    ensures
        u@ == username_lookup_url(),
{
    let mut u = String::new();
    u.append("https://users.roblox.com/v1/usernames/users");
    u
}

/// The account a lookup by name found: the first one the API listed.
pub fn first_user(users: Vec<RobloxUser>) -> (r: Result<RobloxUser, RobloxError>)
    ensures
        users.len() == 0 ==> r == Err::<RobloxUser, RobloxError>(RobloxError::UserNotFound),
        users.len() > 0 ==> r == Ok::<RobloxUser, RobloxError>(users@[0]),
{
    let mut users = users;
    if users.len() == 0 {
        Err(RobloxError::UserNotFound)
    } else {
        Ok(users.swap_remove(0))
    }
}

/// The avatar picture a thumbnail lookup found: the first one listed.
pub fn first_avatar(image_urls: Vec<String>) -> (r: Result<String, RobloxError>)
    ensures
        image_urls.len() == 0 ==> r == Err::<String, RobloxError>(RobloxError::NoAvatar),
        image_urls.len() > 0 ==> r == Ok::<String, RobloxError>(image_urls@[0]),
{
    let mut image_urls = image_urls;
    if image_urls.len() == 0 {
        Err(RobloxError::NoAvatar)
    } else {
        Ok(image_urls.swap_remove(0))
    }
}

} // verus!

verus! {

impl RobloxError {
    /// The error's message; `status_text` renders the status of a failed
    /// answer (such as `404 Not Found`).
    pub fn message(&self, status_text: &str) -> (m: String)
        ensures
            m@ == (match self {
                RobloxError::Status(_) => "Roblox API returned "@ + status_text@,
                RobloxError::ThumbnailStatus(_) => "Roblox thumbnails API returned "@ + status_text@,
                RobloxError::UserNotFound => "User not found"@,
                RobloxError::NoAvatar => "No avatar found"@,
            }),
    {
        let mut m = String::new();
        match self {
            RobloxError::Status(_) => {
                m.append("Roblox API returned ");
                m.append(status_text);
            },
            RobloxError::ThumbnailStatus(_) => {
                m.append("Roblox thumbnails API returned ");
                m.append(status_text);
            },
            RobloxError::UserNotFound => m.append("User not found"),
            RobloxError::NoAvatar => m.append("No avatar found"),
        }
        m
    }
}

} // verus!
