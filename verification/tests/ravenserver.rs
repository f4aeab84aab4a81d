use ravenlib::config::Config;
use ravenlib::error::{Error, RavenServerError};
use ravenlib::ravenserver::{
    archive_path, confirm_download, create_user, create_user_url, delete_user, delete_user_url,
    download_theme, download_theme_url, export, get_host, get_metadata, get_metadata_url, import,
    install_warning, load_info, login_user, login_user_url, logout, merge_metadata, pub_metadata,
    pub_metadata_url, succeeded, unpublish_theme, unpublish_theme_url, up_info, upload_cleanup,
    upload_metadata, upload_theme, upload_theme_url, warning_due, Download, MetaRes, UserInfo,
};
use ravenlib::steps::Step;
use ravenlib::themes::new_theme;

fn info() -> UserInfo {
    UserInfo { name: "ann".to_string(), token: "t0k".to_string() }
}

fn server(e: RavenServerError) -> Error {
    Error::Server(e)
}

fn other_codes() -> Vec<u16> {
    vec![0, 100, 199, 300, 301, 400, 402, 405, 409, 418, 500, 503, 999, 65535]
}

#[test]
fn success_is_two_hundred_to_two_ninety_nine() {
    let mut code: u16 = 0;
    loop {
        assert_eq!(succeeded(code), (200..300).contains(&code));
        if code == u16::MAX {
            break;
        }
        code += 1;
    }
}

#[test]
fn host_comes_from_the_settings() {
    let mut conf = Config::default();
    assert_eq!(get_host(&conf), "https://demenses.net");
    conf.host = "http://localhost:8000".to_string();
    assert_eq!(get_host(&conf), "http://localhost:8000");
}

#[test]
fn no_stored_login_means_not_logged_in() {
    assert_eq!(load_info(None).err(), Some(server(RavenServerError::NotLoggedIn)));
    let got = load_info(Some(info())).unwrap();
    assert_eq!(got.name, "ann");
    assert_eq!(got.token, "t0k");
}

#[test]
fn archive_names() {
    assert_eq!(archive_path("nord", true), "/tmp/nord.tar");
    assert_eq!(archive_path("nord", false), "nord.tar");
}

#[test]
fn export_needs_the_theme() {
    let pack = |archive: &str| Step::Pack {
        dir: "/h/.config/raven/themes/nord".to_string(),
        archive: archive.to_string(),
        root: "nord".to_string(),
    };
    assert_eq!(
        export("/h", "nord", true, true),
        Ok(("/tmp/nord.tar".to_string(), vec![pack("/tmp/nord.tar")]))
    );
    assert_eq!(
        export("/h", "nord", false, true),
        Ok(("nord.tar".to_string(), vec![pack("nord.tar")]))
    );
    assert_eq!(export("/h", "nord", true, false), Err(Error::InvalidTheme("nord".to_string())));
}

#[test]
fn addresses() {
    let host = "https://hub";
    assert_eq!(delete_user_url(host, &info(), "pw"), "https://hub/themes/users/delete/ann?token=t0k&pass=pw");
    assert_eq!(create_user_url(host, "bob", "pw", "pw"), Some("https://hub/themes/user/create?name=bob&pass=pw".to_string()));
    assert_eq!(login_user_url(host, "bob", "pw"), "https://hub/themes/user/login?name=bob&pass=pw");
    assert_eq!(get_metadata_url(host, "nord"), "https://hub/themes/meta/nord");
    assert_eq!(
        pub_metadata_url(host, "nord", "screen", "http://s", &info()),
        "https://hub/themes/meta/nord?typem=screen&value=http://s&token=t0k"
    );
    assert_eq!(unpublish_theme_url(host, "nord", &info()), "https://hub/themes/delete/nord?token=t0k");
    assert_eq!(download_theme_url(host, "nord"), "https://hub/themes/repo/nord");
    assert_eq!(
        upload_theme_url(host, "nord", Some(&info()), true),
        Ok("https://hub/themes/upload?name=nord&token=t0k".to_string())
    );
}

#[test]
fn create_user_with_passwords_that_differ_asks_nothing() {
    assert_eq!(create_user_url("https://hub", "bob", "pw", "pW"), None);
    assert_eq!(create_user_url("https://hub", "bob", "pw", ""), None);
}

#[test]
fn create_user_statuses() {
    assert_eq!(create_user(200), Ok(true));
    assert_eq!(create_user(201), Ok(true));
    assert_eq!(create_user(403), Err(server(RavenServerError::PermissionDenied)));
    assert_eq!(create_user(413), Err(server(RavenServerError::TooLarge)));
    assert_eq!(create_user(401), Err(server(RavenServerError::ServerError(401))));
    assert_eq!(create_user(404), Err(server(RavenServerError::ServerError(404))));
    for code in other_codes() {
        assert_eq!(create_user(code), Err(server(RavenServerError::ServerError(code))));
    }
}

#[test]
fn login_statuses() {
    assert_eq!(login_user(200, "/h"), Ok(up_info("/h")));
    assert_eq!(login_user(403, "/h"), Err(server(RavenServerError::PermissionDenied)));
    assert_eq!(login_user(401, "/h"), Err(server(RavenServerError::ServerError(401))));
    assert_eq!(login_user(404, "/h"), Err(server(RavenServerError::ServerError(404))));
    for code in other_codes() {
        assert_eq!(login_user(code, "/h"), Err(server(RavenServerError::ServerError(code))));
    }
}

#[test]
fn delete_user_statuses() {
    let out = vec![Step::Remove { path: "/h/.config/raven/ravenserver.json".to_string() }];
    assert_eq!(logout("/h"), out);
    assert_eq!(delete_user(200, &info(), "/h"), Ok(out.clone()));
    assert_eq!(delete_user(204, &info(), "/h"), Ok(out));
    assert_eq!(delete_user(403, &info(), "/h"), Err(server(RavenServerError::PermissionDenied)));
    assert_eq!(delete_user(401, &info(), "/h"), Err(server(RavenServerError::NotLoggedIn)));
    assert_eq!(
        delete_user(404, &info(), "/h"),
        Err(server(RavenServerError::DoesNotExist("ann".to_string())))
    );
    assert_eq!(delete_user(413, &info(), "/h"), Err(server(RavenServerError::ServerError(413))));
    for code in other_codes() {
        assert_eq!(
            delete_user(code, &info(), "/h"),
            Err(server(RavenServerError::ServerError(code)))
        );
    }
}

#[test]
fn upload_needs_login_then_theme() {
    assert_eq!(
        upload_theme_url("https://hub", "nord", None, true),
        Err(server(RavenServerError::NotLoggedIn))
    );
    assert_eq!(
        upload_theme_url("https://hub", "nord", None, false),
        Err(server(RavenServerError::NotLoggedIn))
    );
    assert_eq!(
        upload_theme_url("https://hub", "nord", Some(&info()), false),
        Err(Error::InvalidTheme("nord".to_string()))
    );
}

#[test]
fn upload_statuses() {
    let up = |status: u16| upload_theme(status, "/tmp/nord.tar").0;
    assert_eq!(up(201), Ok(true));
    assert_eq!(up(200), Ok(false));
    assert_eq!(up(204), Ok(false));
    assert_eq!(up(403), Err(server(RavenServerError::PermissionDenied)));
    assert_eq!(up(404), Err(server(RavenServerError::ServerError(404))));
    for code in other_codes() {
        assert_eq!(up(code), Err(server(RavenServerError::ServerError(code))));
    }
}

#[test]
fn upload_removes_the_archive_whatever_the_status() {
    let remove = vec![Step::Remove { path: "/tmp/nord.tar".to_string() }];
    assert_eq!(upload_cleanup("/tmp/nord.tar"), remove);
    let mut status: u16 = 0;
    loop {
        assert_eq!(upload_theme(status, "/tmp/nord.tar").1, remove);
        if status == u16::MAX {
            break;
        }
        status += 1;
    }
}

#[test]
fn upload_publishes_description_and_a_screenshot_that_is_set() {
    let mut store = new_theme("/h", "nord").0;
    assert_eq!(
        upload_metadata(&store),
        vec![("description".to_string(), "A raven theme.".to_string())]
    );
    store.screenshot = "http://shot".to_string();
    store.description = "cold".to_string();
    assert_eq!(
        upload_metadata(&store),
        vec![
            ("screen".to_string(), "http://shot".to_string()),
            ("description".to_string(), "cold".to_string())
        ]
    );
}

#[test]
fn get_metadata_statuses() {
    assert_eq!(get_metadata(200, "nord"), Ok(()));
    assert_eq!(
        get_metadata(404, "nord"),
        Err(server(RavenServerError::DoesNotExist("nord".to_string())))
    );
    assert_eq!(get_metadata(403, "nord"), Err(server(RavenServerError::ServerError(403))));
    for code in other_codes() {
        assert_eq!(get_metadata(code, "nord"), Err(server(RavenServerError::ServerError(code))));
    }
}

#[test]
fn pub_metadata_statuses() {
    assert_eq!(pub_metadata(200, "nord"), Ok(()));
    assert_eq!(
        pub_metadata(404, "nord"),
        Err(server(RavenServerError::DoesNotExist("nord".to_string())))
    );
    assert_eq!(pub_metadata(403, "nord"), Err(server(RavenServerError::PermissionDenied)));
    assert_eq!(
        pub_metadata(412, "nord"),
        Err(server(RavenServerError::PreConditionFailed("metadata type".to_string())))
    );
    assert_eq!(pub_metadata(413, "nord"), Err(server(RavenServerError::TooLarge)));
    assert_eq!(pub_metadata(401, "nord"), Err(server(RavenServerError::ServerError(401))));
    for code in other_codes() {
        assert_eq!(pub_metadata(code, "nord"), Err(server(RavenServerError::ServerError(code))));
    }
}

#[test]
fn unpublish_statuses() {
    assert_eq!(unpublish_theme(200, "nord"), Ok(()));
    assert_eq!(
        unpublish_theme(404, "nord"),
        Err(server(RavenServerError::DoesNotExist("nord".to_string())))
    );
    assert_eq!(unpublish_theme(403, "nord"), Err(server(RavenServerError::PermissionDenied)));
    assert_eq!(unpublish_theme(401, "nord"), Err(server(RavenServerError::PermissionDenied)));
    assert_eq!(unpublish_theme(413, "nord"), Err(server(RavenServerError::ServerError(413))));
    for code in other_codes() {
        assert_eq!(unpublish_theme(code, "nord"), Err(server(RavenServerError::ServerError(code))));
    }
}

#[test]
fn download_statuses() {
    assert_eq!(download_theme("nord", false, 200), Ok(Download::Install { flagged: false }));
    assert_eq!(download_theme("nord", true, 200), Ok(Download::Install { flagged: false }));
    assert_eq!(download_theme("nord", false, 207), Ok(Download::Ask));
    assert_eq!(download_theme("nord", true, 207), Ok(Download::Install { flagged: true }));
    assert_eq!(download_theme("nord", false, 208), Ok(Download::Install { flagged: false }));
    assert_eq!(download_theme("nord", false, 201), Ok(Download::Install { flagged: false }));
    assert_eq!(
        download_theme("nord", false, 404),
        Err(server(RavenServerError::DoesNotExist("nord".to_string())))
    );
    assert_eq!(download_theme("nord", true, 403), Err(server(RavenServerError::ServerError(403))));
    for code in other_codes() {
        assert_eq!(
            download_theme("nord", false, code),
            Err(server(RavenServerError::ServerError(code)))
        );
    }
}

#[test]
fn reported_theme_declined_is_discarded() {
    assert_eq!(download_theme("nord", false, 207), Ok(Download::Ask));
    assert!(Download::Ask.steps("/h", "/tmp/nord.tar").is_empty());
    assert_eq!(confirm_download("n\n"), Download::Discard);
    assert_eq!(
        Download::Discard.steps("/h", "/tmp/nord.tar"),
        vec![Step::Remove { path: "/tmp/nord.tar".to_string() }]
    );
    assert_eq!(confirm_download(""), Download::Discard);
    assert_eq!(confirm_download("yes"), Download::Discard);
    assert_eq!(confirm_download("Y"), Download::Discard);
}

#[test]
fn reported_theme_accepted_is_installed() {
    assert_eq!(download_theme("nord", false, 207), Ok(Download::Ask));
    assert_eq!(confirm_download("y\n"), Download::Install { flagged: false });
    assert_eq!(confirm_download("  y  "), Download::Install { flagged: false });
    let unpack = Step::Unpack {
        archive: "/tmp/nord.tar".to_string(),
        into: "/h/.config/raven/themes/".to_string(),
    };
    assert_eq!(import("/h", "/tmp/nord.tar"), vec![unpack.clone()]);
    assert_eq!(
        Download::Install { flagged: false }.steps("/h", "/tmp/nord.tar"),
        vec![unpack, Step::Remove { path: "/tmp/nord.tar".to_string() }]
    );
    let merged = merge_metadata(
        new_theme("/h", "nord").0,
        MetaRes { screen: "http://s".to_string(), description: "cold".to_string() },
    );
    assert_eq!(merged.name, "nord");
    assert_eq!(merged.screenshot, "http://s");
    assert_eq!(merged.description, "cold");
    assert!(merged.options.is_empty());
    assert_eq!(warning_due(false, false, false), Some(false));
}

#[test]
fn warning_is_stronger_for_themes_that_run_something() {
    assert_eq!(warning_due(false, true, false), Some(true));
    assert_eq!(warning_due(false, false, true), Some(true));
    assert_eq!(warning_due(false, true, true), Some(true));
    assert_eq!(warning_due(true, true, true), Some(true));
    assert_eq!(warning_due(true, true, false), Some(true));
    assert_eq!(warning_due(true, false, false), Some(false));
}

#[test]
fn warning_text() {
    let plain = install_warning("https://hub", false);
    assert_eq!(plain.len(), 2);
    assert_eq!(
        plain[0],
        "Warning: When you install themes from the online repo, there is some danger. Please evaluate the theme files before loading the theme, and if you find any malicious theme, please report it on the theme's page at https://hub and it will be removed."
    );
    assert_eq!(plain[1], "Thank you for helping keep the repo clean!");
    let strong = install_warning("https://hub", true);
    assert_eq!(strong.len(), 3);
    assert_eq!(strong[0], plain[0]);
    assert_eq!(
        strong[1],
        "This theme should be scrutinized more carefully as it includes a bash script which will be run automatically."
    );
    assert_eq!(strong[2], plain[1]);
}

#[test]
fn login_is_replaced_through_a_sibling() {
    assert_eq!(
        up_info("/h"),
        vec![
            Step::Write { path: "/h/.config/raven/~ravenserver.json".to_string(), mode: None },
            Step::Copy {
                from: "/h/.config/raven/~ravenserver.json".to_string(),
                to: "/h/.config/raven/ravenserver.json".to_string()
            },
            Step::Remove { path: "/h/.config/raven/~ravenserver.json".to_string() },
        ]
    );
}

#[test]
fn error_messages() {
    assert_eq!(Error::InvalidTheme("nord".to_string()).to_string(), "invalid theme name: 'nord'");
    assert_eq!(
        server(RavenServerError::PermissionDenied).to_string(),
        "not allowed to perform this operation"
    );
    assert_eq!(server(RavenServerError::NotLoggedIn).to_string(), "no login info stored");
    assert_eq!(
        server(RavenServerError::DoesNotExist("nord".to_string())).to_string(),
        "nord does not exist"
    );
    assert_eq!(
        server(RavenServerError::ServerError(500)).to_string(),
        "the server encountered an error. code: 500"
    );
    assert_eq!(
        server(RavenServerError::TooLarge).to_string(),
        "a payload was sent that was too large"
    );
    assert_eq!(
        server(RavenServerError::PreConditionFailed("metadata type".to_string())).to_string(),
        "metadata type was failed"
    );
    assert_eq!(RavenServerError::ServerError(7).to_string(), "the server encountered an error. code: 7");
}
