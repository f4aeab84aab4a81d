//! The client of the theme repository: the address of each request, and what
//! the status of each answer means.
//!
//! Nothing here sends a request. For each operation one function builds the
//! address to call, and one reads the status that came back and says how the
//! operation goes on or ends.
use crate::config::Config;
use crate::error::{Error, ErrorView, RavenServerError, RavenServerErrorView};
use crate::paths::{
    cat, raven_dir, raven_dir_path, raven_file, raven_file_path, theme_dir, theme_dir_path,
};
use crate::steps::{no_steps, save, save_steps, steps_view, append_step, append_steps, Step, StepView};
use crate::text::{same_text, trim, trimmed};
use crate::themes::{ThemeStore, ThemeStoreView};
use vstd::prelude::*;
use vstd::string::*;

verus! {

/// The login that is stored on this machine.
#[derive(Debug)]
pub struct UserInfo {
    /// The user's name.
    pub name: String,
    /// The token that goes with each request.
    pub token: String,
}

/// What the repository tells of a theme.
#[derive(Debug)]
pub struct MetaRes {
    /// Address of a screenshot, or the empty string.
    pub screen: String,
    /// A free text.
    pub description: String,
}

/// The status that says a resource was created.
pub const CREATED: u16 = 201;

/// The status that says a theme was reported and not yet looked at.
pub const ALREADY_REPORTED: u16 = 207;

/// The status that asks for a login.
pub const UNAUTHORIZED: u16 = 401;

/// The status that says the user may not do this.
pub const FORBIDDEN: u16 = 403;

/// The status that says there is no such thing.
pub const NOT_FOUND: u16 = 404;

/// The status that says a condition of the request did not hold.
pub const PRECONDITION_FAILED: u16 = 412;

/// The status that says the request was too long.
pub const PAYLOAD_TOO_LARGE: u16 = 413;

/// Whether `status` says that the request succeeded: it is one of 200 to
/// 299.
pub open spec fn is_success(status: u16) -> bool {
    200 <= status < 300
}

/// Whether `status` says that the request succeeded.
pub fn succeeded(status: u16) -> (b: bool)
    ensures
        b == is_success(status),
{
    200 <= status && status < 300
}

/// The login that is stored, where there is one. Without one nobody is
/// logged in.
pub fn load_info(stored: Option<UserInfo>) -> (info: Result<UserInfo, Error>)
    ensures
        match info {
            Ok(info) => stored == Some(info),
            Err(e) => stored is None && e@ == ErrorView::Server(RavenServerErrorView::NotLoggedIn),
        },
{
    match stored {
        Some(info) => Ok(info),
        None => Err(Error::Server(RavenServerError::NotLoggedIn)),
    }
}

/// The steps that store the login below the home directory `home`: the
/// buffer holds the login as text, and replaces the login file.
pub fn up_info(home: &str) -> (plan: Vec<Step>)
    ensures
        steps_view(plan@) == save_steps(raven_dir(home@), "ravenserver.json"@),
{
    save(raven_dir_path(home).as_str(), "ravenserver.json")
}

/// The name of the archive of the theme `name`: the theme's name with the
/// ending of an archive, in the directory for temporary files if `tmp` is
/// set and in the working directory if not.
pub open spec fn archive_name(name: Seq<char>, tmp: bool) -> Seq<char> {
    if tmp {
        "/tmp/"@ + name + ".tar"@
    } else {
        name + ".tar"@
    }
}

/// The name of the archive of the theme `name`.
pub fn archive_path(name: &str, tmp: bool) -> (path: String)
    ensures
        path@ == archive_name(name@, tmp),
{
    if tmp {
        cat("/tmp/", name).concat(".tar")
    } else {
        cat(name, ".tar")
    }
}

/// The step that packs the theme `name` into the archive `archive`, under
/// the theme's name.
pub open spec fn export_steps(home: Seq<char>, name: Seq<char>, archive: Seq<char>) -> Seq<
    StepView,
> {
    seq![StepView::Pack { dir: theme_dir(home, name), archive, root: name }]
}

/// The archive to pack the theme `theme_name` into, and the step that
/// packs it. `dir_exists` says whether the theme has a directory: without
/// one there is no such theme.
pub fn export(home: &str, theme_name: &str, tmp: bool, dir_exists: bool) -> (packed: Result<
    (String, Vec<Step>),
    Error,
>)
    ensures
        match packed {
            Ok(p) => dir_exists && p.0@ == archive_name(theme_name@, tmp) && steps_view(p.1@)
                == export_steps(home@, theme_name@, archive_name(theme_name@, tmp)),
            Err(e) => !dir_exists && e@ == ErrorView::InvalidTheme(theme_name@),
        },
{
    if dir_exists {
        let mut plan = no_steps();
        append_step(
            &mut plan,
            Step::Pack {
                dir: theme_dir_path(home, theme_name),
                archive: archive_path(theme_name, tmp),
                root: theme_name.to_owned(),
            },
        );
        assert(steps_view(plan@) =~= export_steps(
            home@,
            theme_name@,
            archive_name(theme_name@, tmp),
        ));
        Ok((archive_path(theme_name, tmp), plan))
    } else {
        Err(Error::InvalidTheme(theme_name.to_owned()))
    }
}

/// The step that unpacks an archive into the themes directory.
pub open spec fn import_steps(home: Seq<char>, archive: Seq<char>) -> Seq<StepView> {
    seq![StepView::Unpack { archive, into: raven_file(home, "themes/"@) }]
}

/// The step that unpacks the archive `file_name` into the themes
/// directory.
pub fn import(home: &str, file_name: &str) -> (plan: Vec<Step>)
    ensures
        steps_view(plan@) == import_steps(home@, file_name@),
{
    let mut plan = no_steps();
    append_step(
        &mut plan,
        Step::Unpack { archive: file_name.to_owned(), into: raven_file_path(home, "themes/") },
    );
    assert(steps_view(plan@) =~= import_steps(home@, file_name@));
    plan
}

/// The step that logs the user out: the stored login is removed.
pub open spec fn logout_steps(home: Seq<char>) -> Seq<StepView> {
    seq![StepView::Remove { path: raven_file(home, "ravenserver.json"@) }]
}

/// The step that logs the user out.
pub fn logout(home: &str) -> (plan: Vec<Step>)
    ensures
        steps_view(plan@) == logout_steps(home@),
{
    let mut plan = no_steps();
    append_step(&mut plan, Step::Remove { path: raven_file_path(home, "ravenserver.json") });
    assert(steps_view(plan@) =~= logout_steps(home@));
    plan
}

/// The configured repository host.
pub fn get_host(conf: &Config) -> (host: String)
    ensures
        host@ == conf.host@,
{
    conf.host.clone()
}

/// What the repository's refusal of a status means where the operation
/// gives the status no meaning of its own.
pub open spec fn server_error(status: u16) -> ErrorView {
    ErrorView::Server(RavenServerErrorView::ServerError(status))
}

/// The error that stands for `PermissionDenied`.
pub open spec fn permission_denied() -> ErrorView {
    ErrorView::Server(RavenServerErrorView::PermissionDenied)
}

/// The error that says `what` is not in the repository.
pub open spec fn does_not_exist(what: Seq<char>) -> ErrorView {
    ErrorView::Server(RavenServerErrorView::DoesNotExist(what))
}

/// The address that deletes the user of `info`.
pub open spec fn delete_user_address(
    host: Seq<char>,
    name: Seq<char>,
    token: Seq<char>,
    pass: Seq<char>,
) -> Seq<char> {
    host + "/themes/users/delete/"@ + name + "?token="@ + token + "&pass="@ + pass
}

/// The address that deletes the logged-in user, who confirms with the
/// password `pass`.
pub fn delete_user_url(host: &str, info: &UserInfo, pass: &str) -> (url: String)
    ensures
        url@ == delete_user_address(host@, info.name@, info.token@, pass@),
{
    cat(host, "/themes/users/delete/").concat(info.name.as_str()).concat("?token=").concat(
        info.token.as_str(),
    ).concat("&pass=").concat(pass)
}

/// What the answer to deleting a user means: on success the user is gone
/// and is logged out on this machine.
pub open spec fn delete_user_outcome(status: u16, name: Seq<char>, home: Seq<char>) -> Result<
    Seq<StepView>,
    ErrorView,
> {
    if is_success(status) {
        Ok(logout_steps(home))
    } else if status == FORBIDDEN {
        Err(permission_denied())
    } else if status == UNAUTHORIZED {
        Err(ErrorView::Server(RavenServerErrorView::NotLoggedIn))
    } else if status == NOT_FOUND {
        Err(does_not_exist(name))
    } else {
        Err(server_error(status))
    }
}

/// The view of a result without a value.
pub open spec fn unit_view(r: Result<(), Error>) -> Result<(), ErrorView> {
    match r {
        Ok(()) => Ok(()),
        Err(e) => Err(e@),
    }
}

/// The view of a result that holds steps.
pub open spec fn plan_view(r: Result<Vec<Step>, Error>) -> Result<Seq<StepView>, ErrorView> {
    match r {
        Ok(plan) => Ok(steps_view(plan@)),
        Err(e) => Err(e@),
    }
}

/// Reads the answer to deleting the user of `info`. On success the steps
/// that log the user out come back.
pub fn delete_user(status: u16, info: &UserInfo, home: &str) -> (done: Result<Vec<Step>, Error>)
    ensures
        plan_view(done) == delete_user_outcome(status, info.name@, home@),
{
    if succeeded(status) {
        Ok(logout(home))
    } else if status == FORBIDDEN {
        Err(Error::Server(RavenServerError::PermissionDenied))
    } else if status == UNAUTHORIZED {
        Err(Error::Server(RavenServerError::NotLoggedIn))
    } else if status == NOT_FOUND {
        Err(Error::Server(RavenServerError::DoesNotExist(info.name.clone())))
    } else {
        Err(Error::Server(RavenServerError::ServerError(status)))
    }
}

/// The address that creates a user.
pub open spec fn create_user_address(host: Seq<char>, name: Seq<char>, pass: Seq<char>) -> Seq<
    char,
> {
    host + "/themes/user/create?name="@ + name + "&pass="@ + pass
}

/// The address that creates the user `name`, where the password and its
/// repetition are the same. Where they differ no request is made, and the
/// operation ends with `false`, which is no error.
pub fn create_user_url(host: &str, name: &str, pass: &str, pass2: &str) -> (url: Option<String>)
    ensures
        match url {
            Some(url) => pass@ == pass2@ && url@ == create_user_address(host@, name@, pass@),
            None => pass@ != pass2@,
        },
{
    if same_text(pass, pass2) {
        Some(cat(host, "/themes/user/create?name=").concat(name).concat("&pass=").concat(pass))
    } else {
        None
    }
}

/// What the answer to creating a user means.
pub open spec fn create_user_outcome(status: u16) -> Result<bool, ErrorView> {
    if is_success(status) {
        Ok(true)
    } else if status == FORBIDDEN {
        Err(permission_denied())
    } else if status == PAYLOAD_TOO_LARGE {
        Err(ErrorView::Server(RavenServerErrorView::TooLarge))
    } else {
        Err(server_error(status))
    }
}

/// The view of a result with a truth value.
pub open spec fn bool_view(r: Result<bool, Error>) -> Result<bool, ErrorView> {
    match r {
        Ok(b) => Ok(b),
        Err(e) => Err(e@),
    }
}

/// Reads the answer to creating a user.
pub fn create_user(status: u16) -> (created: Result<bool, Error>)
    ensures
        bool_view(created) == create_user_outcome(status),
{
    if succeeded(status) {
        Ok(true)
    } else if status == FORBIDDEN {
        Err(Error::Server(RavenServerError::PermissionDenied))
    } else if status == PAYLOAD_TOO_LARGE {
        Err(Error::Server(RavenServerError::TooLarge))
    } else {
        Err(Error::Server(RavenServerError::ServerError(status)))
    }
}

/// The address that logs a user in.
pub open spec fn login_address(host: Seq<char>, name: Seq<char>, pass: Seq<char>) -> Seq<char> {
    host + "/themes/user/login?name="@ + name + "&pass="@ + pass
}

/// The address that logs the user `name` in.
pub fn login_user_url(host: &str, name: &str, pass: &str) -> (url: String)
    ensures
        url@ == login_address(host@, name@, pass@),
{
    cat(host, "/themes/user/login?name=").concat(name).concat("&pass=").concat(pass)
}

/// What the answer to a login means: on success the answer holds the
/// login, which is stored.
pub open spec fn login_outcome(status: u16, home: Seq<char>) -> Result<Seq<StepView>, ErrorView> {
    if is_success(status) {
        Ok(save_steps(raven_dir(home), "ravenserver.json"@))
    } else if status == FORBIDDEN {
        Err(permission_denied())
    } else {
        Err(server_error(status))
    }
}

/// Reads the answer to a login. On success the steps that store the login
/// come back: the buffer holds the login as text.
pub fn login_user(status: u16, home: &str) -> (done: Result<Vec<Step>, Error>)
    ensures
        plan_view(done) == login_outcome(status, home@),
{
    if succeeded(status) {
        Ok(up_info(home))
    } else if status == FORBIDDEN {
        Err(Error::Server(RavenServerError::PermissionDenied))
    } else {
        Err(Error::Server(RavenServerError::ServerError(status)))
    }
}

/// The address that takes the archive of a theme.
pub open spec fn upload_address(host: Seq<char>, name: Seq<char>, token: Seq<char>) -> Seq<char> {
    host + "/themes/upload?name="@ + name + "&token="@ + token
}

/// The address to send the archive of the theme `name` to. `stored` is the
/// login that is stored, and `dir_exists` says whether the theme has a
/// directory. Without a login nobody is logged in; with one, but without
/// the directory, there is no such theme.
pub fn upload_theme_url(host: &str, name: &str, stored: Option<&UserInfo>, dir_exists: bool) -> (url:
    Result<String, Error>)
    ensures
        match url {
            Ok(url) => dir_exists && stored is Some && url@ == upload_address(
                host@,
                name@,
                stored->0.token@,
            ),
            Err(e) => if stored is None {
                e@ == ErrorView::Server(RavenServerErrorView::NotLoggedIn)
            } else {
                !dir_exists && e@ == ErrorView::InvalidTheme(name@)
            },
        },
{
    match stored {
        None => Err(Error::Server(RavenServerError::NotLoggedIn)),
        Some(info) => {
            if dir_exists {
                Ok(
                    cat(host, "/themes/upload?name=").concat(name).concat("&token=").concat(
                        info.token.as_str(),
                    ),
                )
            } else {
                Err(Error::InvalidTheme(name.to_owned()))
            }
        },
    }
}

/// What the answer to an upload means: `true` for a theme that is new to
/// the repository, `false` for one that its owner sent again.
pub open spec fn upload_outcome(status: u16) -> Result<bool, ErrorView> {
    if is_success(status) {
        Ok(status == CREATED)
    } else if status == FORBIDDEN {
        Err(permission_denied())
    } else {
        Err(server_error(status))
    }
}

/// The step that closes an upload: the archive is removed.
pub open spec fn cleanup_steps(archive: Seq<char>) -> Seq<StepView> {
    seq![StepView::Remove { path: archive }]
}

/// The step that closes an upload for which no answer came.
pub fn upload_cleanup(archive: &str) -> (plan: Vec<Step>)
    ensures
        steps_view(plan@) == cleanup_steps(archive@),
{
    let mut plan = no_steps();
    append_step(&mut plan, Step::Remove { path: archive.to_owned() });
    assert(steps_view(plan@) =~= cleanup_steps(archive@));
    plan
}

/// Reads the answer to the upload of the theme that was packed into
/// `archive`. What comes back is how the upload went, and the steps that
/// close it. On success the theme's metadata is published next. The
/// closing steps are the same for every status: they remove the archive,
/// and are taken last, however the upload and the publishing went.
pub fn upload_theme(status: u16, archive: &str) -> (sent: (Result<bool, Error>, Vec<Step>))
    ensures
        bool_view(sent.0) == upload_outcome(status),
        steps_view(sent.1@) == cleanup_steps(archive@),
{
    let closing = upload_cleanup(archive);
    if succeeded(status) {
        (Ok(status == CREATED), closing)
    } else if status == FORBIDDEN {
        (Err(Error::Server(RavenServerError::PermissionDenied)), closing)
    } else {
        (Err(Error::Server(RavenServerError::ServerError(status))), closing)
    }
}

/// The metadata to publish after an upload, as pairs of kind and value, in
/// order: the screenshot, unless the theme has none, and the description.
pub open spec fn metadata_of(store: ThemeStoreView) -> Seq<(Seq<char>, Seq<char>)> {
    if store.screenshot.len() == 0 {
        seq![("description"@, store.description)]
    } else {
        seq![("screen"@, store.screenshot), ("description"@, store.description)]
    }
}

/// The pairs of a list, each by its views.
pub open spec fn pairs_view(pairs: Seq<(String, String)>) -> Seq<(Seq<char>, Seq<char>)> {
    Seq::new(pairs.len(), |i: int| (pairs[i].0@, pairs[i].1@))
}

/// The metadata to publish after the upload of the theme of `store`.
pub fn upload_metadata(store: &ThemeStore) -> (pairs: Vec<(String, String)>)
    ensures
        pairs_view(pairs@) == metadata_of(store@),
{
    let mut pairs: Vec<(String, String)> = Vec::new();
    if store.screenshot.as_str().unicode_len() != 0 {
        pairs.push(("screen".to_owned(), store.screenshot.clone()));
    }
    pairs.push(("description".to_owned(), store.description.clone()));
    assert(pairs_view(pairs@) =~= metadata_of(store@));
    pairs
}

/// The address that tells of a theme.
pub open spec fn metadata_address(host: Seq<char>, name: Seq<char>) -> Seq<char> {
    host + "/themes/meta/"@ + name
}

/// The address that tells of the theme `name`.
pub fn get_metadata_url(host: &str, name: &str) -> (url: String)
    ensures
        url@ == metadata_address(host@, name@),
{
    cat(host, "/themes/meta/").concat(name)
}

/// What the answer to asking about a theme means.
pub open spec fn get_metadata_outcome(status: u16, name: Seq<char>) -> Result<(), ErrorView> {
    if is_success(status) {
        Ok(())
    } else if status == NOT_FOUND {
        Err(does_not_exist(name))
    } else {
        Err(server_error(status))
    }
}

/// Reads the answer to asking about the theme `name`. On success the answer
/// holds what the repository tells of it.
pub fn get_metadata(status: u16, name: &str) -> (done: Result<(), Error>)
    ensures
        unit_view(done) == get_metadata_outcome(status, name@),
{
    if succeeded(status) {
        Ok(())
    } else if status == NOT_FOUND {
        Err(Error::Server(RavenServerError::DoesNotExist(name.to_owned())))
    } else {
        Err(Error::Server(RavenServerError::ServerError(status)))
    }
}

/// The address that publishes one piece of metadata.
pub open spec fn pub_metadata_address(
    host: Seq<char>,
    name: Seq<char>,
    typem: Seq<char>,
    value: Seq<char>,
    token: Seq<char>,
) -> Seq<char> {
    host + "/themes/meta/"@ + name + "?typem="@ + typem + "&value="@ + value + "&token="@ + token
}

/// The address that sets the metadata of kind `typem` of the theme `name`
/// to `value`.
pub fn pub_metadata_url(host: &str, name: &str, typem: &str, value: &str, info: &UserInfo) -> (url:
    String)
    ensures
        url@ == pub_metadata_address(host@, name@, typem@, value@, info.token@),
{
    cat(host, "/themes/meta/").concat(name).concat("?typem=").concat(typem).concat(
        "&value=",
    ).concat(value).concat("&token=").concat(info.token.as_str())
}

/// What the answer to publishing metadata means.
pub open spec fn pub_metadata_outcome(status: u16, name: Seq<char>) -> Result<(), ErrorView> {
    if is_success(status) {
        Ok(())
    } else if status == NOT_FOUND {
        Err(does_not_exist(name))
    } else if status == FORBIDDEN {
        Err(permission_denied())
    } else if status == PRECONDITION_FAILED {
        Err(ErrorView::Server(RavenServerErrorView::PreConditionFailed("metadata type"@)))
    } else if status == PAYLOAD_TOO_LARGE {
        Err(ErrorView::Server(RavenServerErrorView::TooLarge))
    } else {
        Err(server_error(status))
    }
}

/// Reads the answer to publishing metadata of the theme `name`.
pub fn pub_metadata(status: u16, name: &str) -> (done: Result<(), Error>)
    ensures
        unit_view(done) == pub_metadata_outcome(status, name@),
{
    if succeeded(status) {
        Ok(())
    } else if status == NOT_FOUND {
        Err(Error::Server(RavenServerError::DoesNotExist(name.to_owned())))
    } else if status == FORBIDDEN {
        Err(Error::Server(RavenServerError::PermissionDenied))
    } else if status == PRECONDITION_FAILED {
        Err(Error::Server(RavenServerError::PreConditionFailed("metadata type".to_owned())))
    } else if status == PAYLOAD_TOO_LARGE {
        Err(Error::Server(RavenServerError::TooLarge))
    } else {
        Err(Error::Server(RavenServerError::ServerError(status)))
    }
}

/// The address that takes a theme out of the repository.
pub open spec fn unpublish_address(host: Seq<char>, name: Seq<char>, token: Seq<char>) -> Seq<
    char,
> {
    host + "/themes/delete/"@ + name + "?token="@ + token
}

/// The address that takes the theme `name` out of the repository.
pub fn unpublish_theme_url(host: &str, name: &str, info: &UserInfo) -> (url: String)
    ensures
        url@ == unpublish_address(host@, name@, info.token@),
{
    cat(host, "/themes/delete/").concat(name).concat("?token=").concat(info.token.as_str())
}

/// What the answer to unpublishing a theme means.
pub open spec fn unpublish_outcome(status: u16, name: Seq<char>) -> Result<(), ErrorView> {
    if is_success(status) {
        Ok(())
    } else if status == NOT_FOUND {
        Err(does_not_exist(name))
    } else if status == FORBIDDEN || status == UNAUTHORIZED {
        Err(permission_denied())
    } else {
        Err(server_error(status))
    }
}

/// Reads the answer to unpublishing the theme `name`.
pub fn unpublish_theme(status: u16, name: &str) -> (done: Result<(), Error>)
    ensures
        unit_view(done) == unpublish_outcome(status, name@),
{
    if succeeded(status) {
        Ok(())
    } else if status == NOT_FOUND {
        Err(Error::Server(RavenServerError::DoesNotExist(name.to_owned())))
    } else if status == FORBIDDEN || status == UNAUTHORIZED {
        Err(Error::Server(RavenServerError::PermissionDenied))
    } else {
        Err(Error::Server(RavenServerError::ServerError(status)))
    }
}

/// The address that hands out a theme.
pub open spec fn download_address(host: Seq<char>, name: Seq<char>) -> Seq<char> {
    host + "/themes/repo/"@ + name
}

/// The address that hands out the theme `name`.
pub fn download_theme_url(host: &str, name: &str) -> (url: String)
    ensures
        url@ == download_address(host@, name@),
{
    cat(host, "/themes/repo/").concat(name)
}

/// How a download goes on once the repository has answered.
#[derive(Debug, Clone, Copy, PartialEq, Eq, Structural)]
pub enum Download {
    /// The theme was reported: keep the archive, and ask the user whether
    /// to go on.
    Ask,
    /// Unpack the archive into the themes directory, remove it, and take
    /// over what the repository tells of the theme. `flagged` says that the
    /// theme was reported and is installed because `force` is set.
    Install { flagged: bool },
    /// Remove the archive and unpack nothing: the download ends with
    /// `false`.
    Discard,
}

/// The steps that a download goes on with, for the theme whose archive is
/// `archive`: none while the user is asked, the unpacking of the archive
/// into the themes directory and its removal for an install, and only its
/// removal where the theme is not installed.
pub open spec fn download_steps(next: Download, home: Seq<char>, archive: Seq<char>) -> Seq<
    StepView,
> {
    match next {
        Download::Ask => Seq::empty(),
        Download::Install { .. } => import_steps(home, archive) + seq![
            StepView::Remove { path: archive },
        ],
        Download::Discard => seq![StepView::Remove { path: archive }],
    }
}

impl Download {
    /// The steps that the download goes on with. After those of an install
    /// the theme's metadata is fetched and taken over, and a warning may
    /// be due.
    pub fn steps(&self, home: &str, archive: &str) -> (plan: Vec<Step>)
        ensures
            steps_view(plan@) == download_steps(*self, home@, archive@),
    {
        let mut plan = no_steps();
        match self {
            Download::Ask => {},
            Download::Install { .. } => {
                append_steps(&mut plan, import(home, archive));
                append_step(&mut plan, Step::Remove { path: archive.to_owned() });
            },
            Download::Discard => {
                append_step(&mut plan, Step::Remove { path: archive.to_owned() });
            },
        }
        assert(steps_view(plan@) =~= download_steps(*self, home@, archive@));
        plan
    }
}

/// What the answer to a download means. An answer that succeeded is kept as
/// the archive. A theme that was reported is installed only if `force` is
/// set or the user agrees.
pub open spec fn download_outcome(status: u16, force: bool, name: Seq<char>) -> Result<
    Download,
    ErrorView,
> {
    if is_success(status) {
        if status == ALREADY_REPORTED && !force {
            Ok(Download::Ask)
        } else {
            Ok(Download::Install { flagged: status == ALREADY_REPORTED })
        }
    } else if status == NOT_FOUND {
        Err(does_not_exist(name))
    } else {
        Err(server_error(status))
    }
}

/// The view of the next step of a download.
pub open spec fn download_view(r: Result<Download, Error>) -> Result<Download, ErrorView> {
    match r {
        Ok(next) => Ok(next),
        Err(e) => Err(e@),
    }
}

/// Reads the answer to the download of the theme `name`.
pub fn download_theme(name: &str, force: bool, status: u16) -> (next: Result<Download, Error>)
    ensures
        download_view(next) == download_outcome(status, force, name@),
{
    if succeeded(status) {
        if status == ALREADY_REPORTED && !force {
            Ok(Download::Ask)
        } else {
            Ok(Download::Install { flagged: status == ALREADY_REPORTED })
        }
    } else if status == NOT_FOUND {
        Err(Error::Server(RavenServerError::DoesNotExist(name.to_owned())))
    } else {
        Err(Error::Server(RavenServerError::ServerError(status)))
    }
}

/// What the user's answer means: the one letter `y`, with any whitespace
/// around it, agrees, and anything else declines.
pub open spec fn agrees(answer: Seq<char>) -> bool {
    trimmed(answer) == seq!['y']
}

/// Reads the user's answer to the question whether a reported theme is to
/// be installed.
pub fn confirm_download(answer: &str) -> (next: Download)
    ensures
        next == if agrees(answer@) {
            Download::Install { flagged: false }
        } else {
            Download::Discard
        },
{
    let said = trim(answer);
    proof {
        reveal_strlit("y");
        assert("y"@ =~= seq!['y']);
    }
    if same_text(said.as_str(), "y") {
        Download::Install { flagged: false }
    } else {
        Download::Discard
    }
}

/// The store of a theme that was installed, with what the repository tells
/// of it taken over: the screenshot and the description. Nothing else of
/// the store changes.
pub fn merge_metadata(store: ThemeStore, meta: MetaRes) -> (merged: ThemeStore)
    ensures
        merged@ == (ThemeStoreView {
            screenshot: meta.screen@,
            description: meta.description@,
            ..store@
        }),
{
    let mut store = store;
    store.screenshot = meta.screen;
    store.description = meta.description;
    store
}

/// The warning that is due after an install. There is one after every
/// install, whether or not `force` is set: it is the stronger one where
/// the theme brings something that is run, a script or a bar script.
pub fn warning_due(force: bool, has_script: bool, has_lemonbar: bool) -> (due: Option<bool>)
    ensures
        due == Some(has_script || has_lemonbar),
{
    Some(has_script || has_lemonbar)
}

/// The lines of the warning that follows an install.
pub open spec fn warning_lines(host: Seq<char>, esp: bool) -> Seq<Seq<char>> {
    let first =
        "Warning: When you install themes from the online repo, there is some danger. Please evaluate the theme files before loading the theme, and if you find any malicious theme, please report it on the theme's page at "@
        + host + " and it will be removed."@;
    let last = "Thank you for helping keep the repo clean!"@;
    if esp {
        seq![
            first,
            "This theme should be scrutinized more carefully as it includes a bash script which will be run automatically."@,
            last,
        ]
    } else {
        seq![first, last]
    }
}

/// The lines of the warning that follows an install from the repository at
/// `host`, with one more line if `esp` is set.
pub fn install_warning(host: &str, esp: bool) -> (lines: Vec<String>)
    ensures
        crate::text::texts(lines@) == warning_lines(host@, esp),
{
    let mut lines: Vec<String> = Vec::new();
    lines.push(
        cat(
            "Warning: When you install themes from the online repo, there is some danger. Please evaluate the theme files before loading the theme, and if you find any malicious theme, please report it on the theme's page at ",
            host,
        ).concat(" and it will be removed."),
    );
    if esp {
        lines.push(
            "This theme should be scrutinized more carefully as it includes a bash script which will be run automatically.".to_owned(),
        );
    }
    lines.push("Thank you for helping keep the repo clean!".to_owned());
    assert(crate::text::texts(lines@) =~= warning_lines(host@, esp));
    lines
}

} // verus!
