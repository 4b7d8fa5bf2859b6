use discordavatarproxy::avatar::UserRecord;
use discordavatarproxy::respond::{
    authorization, internal_error, make_err, respond_to_path, respond_with_image,
    respond_with_user, user_endpoint, Reply, Step, UpstreamError, UserStep, PROJECT_URL,
};
use discordavatarproxy::route::Format;

fn record(avatar: Option<&str>, discriminator: &str) -> UserRecord {
    UserRecord {
        id: "123".to_string(),
        username: "nea".to_string(),
        discriminator: discriminator.to_string(),
        avatar: avatar.map(|s| s.to_string()),
        banner: None,
        accent_color: Some(5),
        public_flags: 64,
        bot: true,
    }
}

fn error_of(reply: &Reply) -> (u16, String) {
    match reply {
        Reply::Error(e) => (e.status, e.message.clone()),
        other => panic!("not an error: {:?}", other),
    }
}

fn responded(step: Step) -> Reply {
    match step {
        Step::Respond(r) => r,
        other => panic!("no response: {:?}", other),
    }
}

#[test]
fn root_redirects() {
    let r = responded(respond_to_path("/"));
    assert_eq!(r.status(), 302);
    match r {
        Reply::Redirect(location) => assert_eq!(location, PROJECT_URL),
        other => panic!("unexpected {:?}", other),
    }
    assert_eq!(PROJECT_URL, "https://git.nea.moe/nea/discordavatarproxy");
}

#[test]
fn avatar_paths_ask_for_the_user() {
    assert!(matches!(respond_to_path("/avatar/123.png"), Step::FetchUser(123, Format::Image)));
    assert!(matches!(respond_to_path("/avatar/123.json"), Step::FetchUser(123, Format::Json)));
}

#[test]
fn same_user_for_both_formats() {
    for id in ["1", "123", "0042", "18446744073709551615"] {
        let png = respond_to_path(&format!("/avatar/{}.png", id));
        let json = respond_to_path(&format!("/avatar/{}.json", id));
        match (png, json) {
            (Step::FetchUser(a, Format::Image), Step::FetchUser(b, Format::Json)) => assert_eq!(a, b),
            other => panic!("unexpected {:?}", other),
        }
    }
}

#[test]
fn non_numeric_id_is_not_found() {
    let r = responded(respond_to_path("/avatar/notanumber.json"));
    assert_eq!(error_of(&r), (404, "Not found".to_string()));
    let r = responded(respond_to_path("/avatar/notanumber.png"));
    assert_eq!(error_of(&r), (404, "Not found".to_string()));
}

#[test]
fn unknown_suffix_is_invalid_format() {
    let r = responded(respond_to_path("/avatar/123.gif"));
    assert_eq!(error_of(&r), (404, "Invalid format".to_string()));
}

#[test]
fn bad_paths_are_404() {
    for p in ["/foo", "", "/avatar", "/avatar/", "/avatar/x.gif", "/avatar/.png", "/avatar/-1.json", "/avatar/0.json", "/avatar/000.png"] {
        let r = responded(respond_to_path(p));
        assert_eq!(r.status(), 404);
    }
}

#[test]
fn upstream_failures_are_502() {
    for e in [UpstreamError::NetworkFailure, UpstreamError::NonSuccessStatus, UpstreamError::MalformedBody] {
        for f in [Format::Image, Format::Json] {
            match respond_with_user(f, &Err(e)) {
                UserStep::Respond(r) => {
                    assert_eq!(error_of(&r), (502, "Discord failed to respond".to_string()))
                }
                other => panic!("unexpected {:?}", other),
            }
        }
    }
}

#[test]
fn upstream_status_500_is_502() {
    let r = match respond_with_user(Format::Json, &Err(UpstreamError::NonSuccessStatus)) {
        UserStep::Respond(r) => r,
        other => panic!("unexpected {:?}", other),
    };
    assert_eq!(r.status(), 502);
    match r {
        Reply::Error(e) => assert_eq!(e.body_text(), "502 Discord failed to respond"),
        other => panic!("unexpected {:?}", other),
    }
}

#[test]
fn json_profile_with_default_avatar() {
    match respond_with_user(Format::Json, &Ok(record(None, "0007"))) {
        UserStep::Respond(r) => {
            assert_eq!(r.status(), 200);
            assert_eq!(r.content_type(), Some("application/json"));
            match r {
                Reply::Profile(p) => {
                    assert_eq!(p.avatar, "https://cdn.discordapp.com/embed/avatars/2.png");
                    assert_eq!(p.username, "nea");
                }
                other => panic!("unexpected {:?}", other),
            }
        }
        other => panic!("unexpected {:?}", other),
    }
}

#[test]
fn image_asks_for_custom_avatar() {
    match respond_with_user(Format::Image, &Ok(record(Some("abcd"), "0007"))) {
        UserStep::FetchImage(url) => assert_eq!(url, "https://cdn.discordapp.com/avatars/123/abcd.png"),
        other => panic!("unexpected {:?}", other),
    }
}

#[test]
fn malformed_discriminator_is_502_on_both_paths() {
    for f in [Format::Image, Format::Json] {
        match respond_with_user(f, &Ok(record(None, "zz"))) {
            UserStep::Respond(r) => {
                assert_eq!(error_of(&r), (502, "Discord failed to respond".to_string()))
            }
            other => panic!("unexpected {:?}", other),
        }
    }
}

#[test]
fn image_fetch_outcomes() {
    let url = "https://cdn.discordapp.com/avatars/123/abcd.png".to_string();
    let ok = respond_with_image(&url, true);
    assert!(matches!(ok, Reply::Image));
    assert_eq!(ok.status(), 200);
    assert_eq!(ok.content_type(), Some("image/png"));
    let failed = respond_with_image(&url, false);
    assert_eq!(
        error_of(&failed),
        (502, "Discord failed to supply avatar for url: https://cdn.discordapp.com/avatars/123/abcd.png".to_string())
    );
}

#[test]
fn error_bodies() {
    assert_eq!(make_err(404, "Not found").body_text(), "404 Not found");
    let e = internal_error();
    assert_eq!(e.status, 500);
    assert_eq!(e.body_text(), "500 Internal Error");
    assert_eq!(Reply::Error(e).content_type(), None);
}

#[test]
fn request_to_provider() {
    assert_eq!(user_endpoint(123), "https://discord.com/api/v10/users/123");
    assert_eq!(authorization("abc"), "Bot abc");
}
