//! User records, avatar and banner URLs, and the public profile.
use vstd::prelude::*;
use vstd::string::StringExecFns;
use crate::decimal::{decimal_of, decimal_string, parse_u16, parse_unsigned};

verus! {

/// The number of default avatars that the provider hosts.
pub const DEFAULT_AVATAR_COUNT: u16 = 5;

/// A user's profile as the provider gives it.
#[derive(Clone, Debug)]
pub struct UserRecord {
    /// The numeric id, kept as text.
    pub id: String,
    pub username: String,
    /// Four digits, possibly with leading zeros.
    pub discriminator: String,
    /// The hash of a custom avatar, if the user has one.
    pub avatar: Option<String>,
    /// The hash of a banner, if the user has one.
    pub banner: Option<String>,
    /// Carried along, with no effect on any result.
    pub accent_color: Option<i64>,
    /// Carried along, with no effect on any result.
    pub public_flags: i64,
    /// Carried along, with no effect on any result.
    pub bot: bool,
}

pub struct UserView {
    pub id: Seq<char>,
    pub username: Seq<char>,
    pub discriminator: Seq<char>,
    pub avatar: Option<Seq<char>>,
    pub banner: Option<Seq<char>>,
}

pub open spec fn opt_view(o: Option<String>) -> Option<Seq<char>> {
    match o {
        Some(s) => Some(s@),
        None => None,
    }
}

impl View for UserRecord {
    type V = UserView;

    open spec fn view(&self) -> UserView {
        UserView {
            id: self.id@,
            username: self.username@,
            discriminator: self.discriminator@,
            avatar: opt_view(self.avatar),
            banner: opt_view(self.banner),
        }
    }
}

/// The profile that callers see.
#[derive(Clone, Debug)]
pub struct PublicProfile {
    pub username: String,
    pub discriminator: String,
    /// Always present: users without a custom avatar get a default one.
    pub avatar: String,
    pub banner: Option<String>,
}

pub struct ProfileView {
    pub username: Seq<char>,
    pub discriminator: Seq<char>,
    pub avatar: Seq<char>,
    pub banner: Option<Seq<char>>,
}

impl View for PublicProfile {
    type V = ProfileView;

    open spec fn view(&self) -> ProfileView {
        ProfileView {
            username: self.username@,
            discriminator: self.discriminator@,
            avatar: self.avatar@,
            banner: opt_view(self.banner),
        }
    }
}

/// The provider's record broke its own format: the discriminator is no number.
#[derive(Clone, Copy, Debug, PartialEq, Eq, Structural)]
pub struct FormatError;

pub open spec fn custom_avatar_url_of(id: Seq<char>, hash: Seq<char>) -> Seq<char> {
    "https://cdn.discordapp.com/avatars/"@ + id + "/"@ + hash + ".png"@
}

pub open spec fn default_avatar_url_of(index: nat) -> Seq<char> {
    "https://cdn.discordapp.com/embed/avatars/"@ + decimal_of(index) + ".png"@
}

pub open spec fn banner_url_of(id: Seq<char>, hash: Seq<char>) -> Seq<char> {
    "https://cdn.discordapp.com/banners/"@ + id + "/"@ + hash + ".png"@
}

pub open spec fn is_default_avatar_url(url: Seq<char>) -> bool {
    exists|i: nat| i < DEFAULT_AVATAR_COUNT && url == default_avatar_url_of(i)
}

/// The default avatar for a discriminator, if it reads as a 16-bit number.
pub open spec fn default_avatar_for(discriminator: Seq<char>) -> Option<Seq<char>> {
    match parse_unsigned(discriminator, u16::MAX as nat) {
        Some(d) => Some(default_avatar_url_of(d % (DEFAULT_AVATAR_COUNT as nat))),
        None => None,
    }
}

/// The avatar URL of a user: the custom one if there is a hash, else the default one.
pub open spec fn avatar_url_for(u: UserView) -> Option<Seq<char>> {
    match u.avatar {
        Some(hash) => Some(custom_avatar_url_of(u.id, hash)),
        None => default_avatar_for(u.discriminator),
    }
}

pub open spec fn banner_url_for(u: UserView) -> Option<Seq<char>> {
    match u.banner {
        Some(hash) => Some(banner_url_of(u.id, hash)),
        None => None,
    }
}

/// The public profile of a user, if its avatar URL can be had.
pub open spec fn profile_for(u: UserView) -> Option<ProfileView> {
    match avatar_url_for(u) {
        Some(avatar) => Some(
            ProfileView {
                username: u.username,
                discriminator: u.discriminator,
                avatar,
                banner: banner_url_for(u),
            },
        ),
        None => None,
    }
}

/// Which of the default avatars a discriminator selects.
pub fn default_avatar_index(discriminator: u16) -> (r: u16)
    ensures
        r == discriminator % DEFAULT_AVATAR_COUNT,
        r < DEFAULT_AVATAR_COUNT,
{
    discriminator % DEFAULT_AVATAR_COUNT
}

/// The URL of the default avatar that a discriminator selects.
pub fn default_avatar_url(discriminator: &str) -> (r: Result<String, FormatError>)
    ensures
        match r {
            Ok(url) => default_avatar_for(discriminator@) == Some(url@),
            Err(_) => default_avatar_for(discriminator@) is None,
        },
{
    let d = match parse_u16(discriminator) {
        Some(d) => d,
        None => return Err(FormatError),
    };
    let index = default_avatar_index(d);
    let url = String::from_str("https://cdn.discordapp.com/embed/avatars/");
    let url = url.concat(decimal_string(index as u64).as_str());
    Ok(url.concat(".png"))
}

fn image_url(kind: &str, id: &String, hash: &String) -> (r: String)
    ensures
        r@ == "https://cdn.discordapp.com/"@ + kind@ + "/"@ + id@ + "/"@ + hash@ + ".png"@,
{
    let url = String::from_str("https://cdn.discordapp.com/");
    let url = url.concat(kind).concat("/").concat(id.as_str()).concat("/");
    url.concat(hash.as_str()).concat(".png")
}

proof fn lemma_image_url(kind: Seq<char>, id: Seq<char>, hash: Seq<char>)
    ensures
        kind == "avatars"@ ==> "https://cdn.discordapp.com/"@ + kind + "/"@ + id + "/"@ + hash
            + ".png"@ == custom_avatar_url_of(id, hash),
        kind == "banners"@ ==> "https://cdn.discordapp.com/"@ + kind + "/"@ + id + "/"@ + hash
            + ".png"@ == banner_url_of(id, hash),
{
    reveal_strlit("https://cdn.discordapp.com/");
    reveal_strlit("https://cdn.discordapp.com/avatars/");
    reveal_strlit("https://cdn.discordapp.com/banners/");
    reveal_strlit("avatars");
    reveal_strlit("banners");
    reveal_strlit("/");
    assert("https://cdn.discordapp.com/"@ + "avatars"@ + "/"@ =~= "https://cdn.discordapp.com/avatars/"@);
    assert("https://cdn.discordapp.com/"@ + "banners"@ + "/"@ =~= "https://cdn.discordapp.com/banners/"@);
    assert("https://cdn.discordapp.com/"@ + kind + "/"@ + id + "/"@ + hash + ".png"@
        =~= ("https://cdn.discordapp.com/"@ + kind + "/"@) + id + "/"@ + hash + ".png"@);
}

/// The URL of a custom avatar, from the user id and the avatar hash.
pub fn custom_avatar_url(id: &String, hash: &String) -> (r: String)
    ensures
        r@ == custom_avatar_url_of(id@, hash@),
{
    proof {
        lemma_image_url("avatars"@, id@, hash@);
    }
    image_url("avatars", id, hash)
}

/// The URL of a banner, from the user id and the banner hash.
pub fn banner_url(id: &String, hash: &String) -> (r: String)
    ensures
        r@ == banner_url_of(id@, hash@),
{
    proof {
        lemma_image_url("banners"@, id@, hash@);
    }
    image_url("banners", id, hash)
}

/// The avatar URL of a user.
pub fn get_avatar_url(record: &UserRecord) -> (r: Result<String, FormatError>)
    ensures
        match r {
            Ok(url) => avatar_url_for(record@) == Some(url@),
            Err(_) => avatar_url_for(record@) is None,
        },
{
    match &record.avatar {
        None => default_avatar_url(record.discriminator.as_str()),
        Some(hash) => Ok(custom_avatar_url(&record.id, hash)),
    }
}

/// The public profile of a user.
pub fn build_profile(record: &UserRecord) -> (r: Result<PublicProfile, FormatError>)
    ensures
        match r {
            Ok(p) => profile_for(record@) == Some(p@),
            Err(_) => profile_for(record@) is None,
        },
{
    let avatar = match get_avatar_url(record) {
        Ok(url) => url,
        Err(e) => return Err(e),
    };
    let banner = match &record.banner {
        Some(hash) => Some(banner_url(&record.id, hash)),
        None => None,
    };
    Ok(PublicProfile {
        username: record.username.clone(),
        discriminator: record.discriminator.clone(),
        avatar,
        banner,
    })
}

/// A user with an avatar hash gets the URL built from the id and that hash,
/// which is none of the default avatars; a user without one gets a default avatar.
pub proof fn lemma_avatar_choice(u: UserView)
    ensures
        u.avatar matches Some(hash) ==> avatar_url_for(u) == Some(custom_avatar_url_of(u.id, hash))
            && !is_default_avatar_url(custom_avatar_url_of(u.id, hash)),
        u.avatar is None ==> match avatar_url_for(u) {
            Some(url) => is_default_avatar_url(url),
            None => true,
        },
{
    reveal_strlit("https://cdn.discordapp.com/avatars/");
    reveal_strlit("https://cdn.discordapp.com/embed/avatars/");
    if let Some(hash) = u.avatar {
        let c = custom_avatar_url_of(u.id, hash);
        assert(c[27] == 'a');
        assert forall|i: nat| i < DEFAULT_AVATAR_COUNT implies c != default_avatar_url_of(i) by {
            assert(default_avatar_url_of(i)[27] == 'e');
        }
    } else {
        if let Some(d) = parse_unsigned(u.discriminator, u16::MAX as nat) {
            let i = d % (DEFAULT_AVATAR_COUNT as nat);
            assert(i < DEFAULT_AVATAR_COUNT);
        }
    }
}

} // verus!
