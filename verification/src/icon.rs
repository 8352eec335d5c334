//! Icon resolution: from the address of a page to the place where its icon
//! is cached.
//!
//! The network and the file system stay outside. The resolver is a state
//! machine: each state names the one action it waits for, and
//! [`IconState::advance`] takes what the action brought and gives the next
//! state. Finding the icon link in the page and resolving it against the
//! page's address are done by outside crates, see [`crate::html`] and
//! [`crate::weburl`].

use crate::error::{outcome_view, IconError, WebAppError, WebAppErrorView};
use crate::html::{first_match_attr, match_view, select_first_attr};
use crate::names::{extension, extension_of, host_label, host_label_of, join_path, join_path_of};
use crate::text::{char_is_alphanumeric, is_alphanumeric, text_view, to_chars};
use crate::weburl::{host_of_url, join_url, path_of_url, url_host, url_join, url_path};
use vstd::prelude::*;
use vstd::string::*;

verus! {

/// The selector of the preferred icon link.
pub open spec fn apple_selector() -> Seq<char> {
    "link[rel~='apple-touch-icon']"@
}

/// The selector of the generic icon link.
pub open spec fn icon_selector() -> Seq<char> {
    "link[rel~='icon']"@
}

/// The attribute of a link that holds its target.
pub open spec fn href_attribute() -> Seq<char> {
    "href"@
}

/// The location tried when a page names no icon.
pub open spec fn default_icon_href() -> Seq<char> {
    "/favicon.ico"@
}

/// A character that may open a scheme: an ASCII letter.
pub open spec fn is_scheme_start(c: char) -> bool {
    ('a' <= c && c <= 'z') || ('A' <= c && c <= 'Z')
}

/// A character that may stand in a scheme after the first: an ASCII letter
/// or digit, `+`, `-` or `.`.
pub open spec fn is_scheme_char(c: char) -> bool {
    is_alphanumeric(c) || c == '+' || c == '-' || c == '.'
}

/// The separator `://` stands in `text` at position `at`.
pub open spec fn separator_at(text: Seq<char>, at: int) -> bool {
    &&& 0 <= at
    &&& at + 3 <= text.len()
    &&& text[at] == ':'
    &&& text[at + 1] == '/'
    &&& text[at + 2] == '/'
}

/// `text` opens with a scheme of `len` characters: a letter, then scheme
/// characters, and `://` right behind them.
pub open spec fn has_scheme_of_len(text: Seq<char>, len: int) -> bool {
    &&& 1 <= len
    &&& separator_at(text, len)
    &&& is_scheme_start(text[0])
    &&& forall|j: int| 1 <= j < len ==> is_scheme_char(#[trigger] text[j])
}

/// `text` opens with a scheme prefix, such as `http://`, `https://` or
/// `ftp://`. A text that merely begins with the letters of a scheme, such as
/// `httpbin.org`, has none.
pub open spec fn has_scheme_prefix(text: Seq<char>) -> bool {
    exists|len: int| has_scheme_of_len(text, len)
}

/// Where `end` is the first position behind the first character that holds
/// no scheme character, or the end of the text, the text has a scheme prefix
/// exactly when it opens with a letter and `://` stands at `end`.
pub proof fn lemma_scheme_prefix_at(text: Seq<char>, end: int)
    requires
        1 <= end <= text.len(),
        forall|j: int| 1 <= j < end ==> is_scheme_char(#[trigger] text[j]),
        end < text.len() ==> !is_scheme_char(text[end]),
    ensures
        has_scheme_prefix(text) == (is_scheme_start(text[0]) && separator_at(text, end)),
{
    if is_scheme_start(text[0]) && separator_at(text, end) {
        assert(has_scheme_of_len(text, end));
    } else {
        assert forall|len: int| !has_scheme_of_len(text, len) by {
            if has_scheme_of_len(text, len) {
                if len < end {
                    assert(is_scheme_char(text[len]));
                } else if len > end {
                    assert(is_scheme_char(text[end]));
                }
            }
        }
    }
}

/// A text that is empty or opens with no letter has no scheme prefix.
pub proof fn lemma_scheme_needs_letter(text: Seq<char>)
    requires
        text.len() == 0 || !is_scheme_start(text[0]),
    ensures
        !has_scheme_prefix(text),
{
    assert forall|len: int| !has_scheme_of_len(text, len) by {}
}

/// Whether a text opens with a scheme prefix, see [`has_scheme_prefix`].
pub fn starts_with_scheme(text: &str) -> (found: bool)
    ensures
        found == has_scheme_prefix(text@),
{
    let typed = to_chars(text);
    if typed.len() == 0 || !(('a' <= typed[0] && typed[0] <= 'z') || ('A' <= typed[0] && typed[0]
        <= 'Z')) {
        proof {
            lemma_scheme_needs_letter(text@);
        }
        return false;
    }
    let mut end: usize = 1;
    while end < typed.len() && (char_is_alphanumeric(typed[end]) || typed[end] == '+' || typed[end]
        == '-' || typed[end] == '.')
        invariant
            1 <= end <= typed.len(),
            forall|j: int| 1 <= j < end ==> is_scheme_char(#[trigger] typed@[j]),
        decreases typed.len() - end,
    {
        end += 1;
    }
    proof {
        lemma_scheme_prefix_at(text@, end as int);
    }
    typed.len() - end >= 3 && typed[end] == ':' && typed[end + 1] == '/' && typed[end + 2] == '/'
}

/// The address to fetch for what the user typed: the text itself when it
/// opens with a scheme prefix, else the text behind `https://`. Nothing else
/// is checked: a text that is no address fails when it is fetched.
pub open spec fn normalized_url(text: Seq<char>) -> Seq<char> {
    if has_scheme_prefix(text) {
        text
    } else {
        "https://"@ + text
    }
}

/// The address to fetch for what the user typed, see [`normalized_url`].
pub fn normalize_url(text: &str) -> (url: String)
    ensures
        url@ == normalized_url(text@),
{
    if starts_with_scheme(text) {
        text.to_string()
    } else {
        let mut url = "https://".to_string();
        url.append(text);
        url
    }
}

/// A text without a scheme prefix is fetched under `https://`, also where
/// it begins with the letters `http`; a text that opens with `http://` or
/// `https://` is fetched as it stands.
pub proof fn lemma_normalized_url(text: Seq<char>)
    ensures
        !has_scheme_prefix(text) ==> normalized_url(text) == "https://"@ + text,
        has_scheme_prefix(text) ==> normalized_url(text) == text,
        has_scheme_prefix("http://"@ + text),
        has_scheme_prefix("https://"@ + text),
        has_scheme_prefix(normalized_url(text)),
        normalized_url(normalized_url(text)) == normalized_url(text),
{
    reveal_strlit("http://");
    reveal_strlit("https://");
    assert(has_scheme_of_len("http://"@ + text, 4));
    assert(has_scheme_of_len("https://"@ + text, 5));
}

/// An icon reference, tagged by where it was found. The ranks are, from the
/// best: the `apple-touch-icon` link, the generic `icon` link, the default
/// location.
#[derive(Debug, PartialEq, Eq)]
pub enum IconCandidate {
    AppleTouchIcon { href: String },
    IconLink { href: String },
    DefaultFavicon,
}

/// The mathematical content of an [`IconCandidate`].
pub enum IconCandidateView {
    AppleTouchIcon { href: Seq<char> },
    IconLink { href: Seq<char> },
    DefaultFavicon,
}

impl View for IconCandidate {
    type V = IconCandidateView;

    open spec fn view(&self) -> IconCandidateView {
        match self {
            IconCandidate::AppleTouchIcon { href } => IconCandidateView::AppleTouchIcon {
                href: href@,
            },
            IconCandidate::IconLink { href } => IconCandidateView::IconLink { href: href@ },
            IconCandidate::DefaultFavicon => IconCandidateView::DefaultFavicon,
        }
    }
}

impl IconCandidateView {
    /// The reference to resolve against the page's address.
    pub open spec fn href(self) -> Seq<char> {
        match self {
            IconCandidateView::AppleTouchIcon { href } => href,
            IconCandidateView::IconLink { href } => href,
            IconCandidateView::DefaultFavicon => default_icon_href(),
        }
    }
}

impl IconCandidate {
    /// The reference to resolve against the page's address.
    pub fn href(&self) -> (href: String)
        ensures
            href@ == self@.href(),
    {
        match self {
            IconCandidate::AppleTouchIcon { href } => href.clone(),
            IconCandidate::IconLink { href } => href.clone(),
            IconCandidate::DefaultFavicon => "/favicon.ico".to_string(),
        }
    }
}

/// The one candidate that survives, given what each of the two link queries
/// found: the target of the first `apple-touch-icon` link if that link has
/// one, else the target of the first `icon` link if that link has one, else
/// the default location. Only the first match of each query counts.
pub open spec fn candidate_of(
    apple: Option<Option<Seq<char>>>,
    icon: Option<Option<Seq<char>>>,
) -> IconCandidateView {
    match apple {
        Some(Some(href)) => IconCandidateView::AppleTouchIcon { href },
        _ => match icon {
            Some(Some(href)) => IconCandidateView::IconLink { href },
            _ => IconCandidateView::DefaultFavicon,
        },
    }
}

/// Chooses among what the two link queries found, see [`candidate_of`].
pub fn choose_candidate(apple: Option<Option<String>>, icon: Option<Option<String>>) -> (chosen:
    IconCandidate)
    ensures
        chosen@ == candidate_of(match_view(apple), match_view(icon)),
{
    match apple {
        Some(Some(href)) => IconCandidate::AppleTouchIcon { href },
        _ => match icon {
            Some(Some(href)) => IconCandidate::IconLink { href },
            _ => IconCandidate::DefaultFavicon,
        },
    }
}

/// The candidate that a page's markup yields.
pub open spec fn page_candidate(body: Seq<char>) -> IconCandidateView {
    candidate_of(
        first_match_attr(body, apple_selector(), href_attribute()),
        first_match_attr(body, icon_selector(), href_attribute()),
    )
}

/// Queries a page's markup for its icon links and chooses among them, see
/// [`page_candidate`].
pub fn find_icon_candidate(body: &str) -> (chosen: IconCandidate)
    ensures
        chosen@ == page_candidate(body@),
{
    let apple = select_first_attr(body, "link[rel~='apple-touch-icon']", "href");
    let icon = select_first_attr(body, "link[rel~='icon']", "href");
    choose_candidate(apple, icon)
}

/// A status that counts as success: 200 to 299.
pub open spec fn is_success(status: u16) -> bool {
    200 <= status < 300
}

/// Whether a status counts as success, see [`is_success`].
pub fn status_is_success(status: u16) -> (ok: bool)
    ensures
        ok == is_success(status),
{
    200 <= status && status < 300
}

/// The directory under the user's home in which icons are cached.
pub open spec fn icon_cache_dir(home: Seq<char>) -> Seq<char> {
    join_path_of(home, ".cache/webapp-manager/icons"@)
}

/// The directory in which icons are cached, see [`icon_cache_dir`].
pub fn cache_dir(home: &str) -> (dir: String)
    ensures
        dir@ == icon_cache_dir(home@),
{
    join_path(home, ".cache/webapp-manager/icons")
}

/// The name of the file that caches an icon: the label of the page's host
/// (`webapp` where the page has none), a dot, and the extension of the
/// icon's path (`png` where there is no path). Two icons of one host with
/// the same extension share a name, and the later one replaces the earlier.
pub open spec fn icon_file_name(host: Option<Seq<char>>, path: Option<Seq<char>>) -> Seq<char> {
    let label = host_label_of(
        match host {
            Some(h) => h,
            None => "webapp"@,
        },
    );
    let ext = match path {
        Some(p) => extension_of(p),
        None => "png"@,
    };
    label + seq!['.'] + ext
}

/// The name of the file that caches an icon, see [`icon_file_name`].
pub fn file_name(host: Option<String>, path: Option<String>) -> (name: String)
    ensures
        name@ == icon_file_name(text_view(host), text_view(path)),
{
    let mut name = match host {
        Some(h) => host_label(h.as_str()),
        None => host_label("webapp"),
    };
    let ext = match path {
        Some(p) => extension(p.as_str()),
        None => "png".to_string(),
    };
    name.push('.');
    name.append(ext.as_str());
    name
}

/// Where the resolver stands. Every state but `Done` waits for one action of
/// the caller.
#[derive(Debug, PartialEq, Eq)]
pub enum IconState {
    /// The page at `target` is to be fetched.
    AwaitingPage { target: String },
    /// The icon at `icon_url` is to be fetched; `base` is the address the
    /// page was finally served from.
    AwaitingIcon { base: String, icon_url: String },
    /// The directory `dir` is to be created, with its parents.
    AwaitingCacheDir { dir: String, file: String },
    /// The fetched bytes are to be written to `file`, replacing what is there.
    AwaitingWrite { file: String },
    /// The resolver has ended, with the path of the cached icon or a failure.
    Done { outcome: Result<String, IconError> },
}

/// The mathematical content of an [`IconState`].
pub enum IconStateView {
    AwaitingPage { target: Seq<char> },
    AwaitingIcon { base: Seq<char>, icon_url: Seq<char> },
    AwaitingCacheDir { dir: Seq<char>, file: Seq<char> },
    AwaitingWrite { file: Seq<char> },
    Done { outcome: Result<Seq<char>, WebAppErrorView> },
}

impl View for IconState {
    type V = IconStateView;

    open spec fn view(&self) -> IconStateView {
        match self {
            IconState::AwaitingPage { target } => IconStateView::AwaitingPage { target: target@ },
            IconState::AwaitingIcon { base, icon_url } => IconStateView::AwaitingIcon {
                base: base@,
                icon_url: icon_url@,
            },
            IconState::AwaitingCacheDir { dir, file } => IconStateView::AwaitingCacheDir {
                dir: dir@,
                file: file@,
            },
            IconState::AwaitingWrite { file } => IconStateView::AwaitingWrite { file: file@ },
            IconState::Done { outcome } => IconStateView::Done { outcome: outcome_view(*outcome) },
        }
    }
}

/// What the caller reports back after an action.
#[derive(Debug, PartialEq, Eq)]
pub enum IconEvent {
    /// The page arrived: the address it was finally served from, after
    /// redirects, and its body.
    PageLoaded { final_url: String, body: String },
    /// The icon request was answered with `status`; `home` is the user's
    /// home directory, if it is known.
    IconLoaded { status: u16, home: Option<String> },
    /// The directory was created or the file was written.
    Completed,
    /// The action failed: the request could not be made or answered, the
    /// directory could not be created, the file could not be written.
    Failed { cause: String },
}

/// The mathematical content of an [`IconEvent`].
pub enum IconEventView {
    PageLoaded { final_url: Seq<char>, body: Seq<char> },
    IconLoaded { status: u16, home: Option<Seq<char>> },
    Completed,
    Failed { cause: Seq<char> },
}

impl View for IconEvent {
    type V = IconEventView;

    open spec fn view(&self) -> IconEventView {
        match self {
            IconEvent::PageLoaded { final_url, body } => IconEventView::PageLoaded {
                final_url: final_url@,
                body: body@,
            },
            IconEvent::IconLoaded { status, home } => IconEventView::IconLoaded {
                status: *status,
                home: text_view(*home),
            },
            IconEvent::Completed => IconEventView::Completed,
            IconEvent::Failed { cause } => IconEventView::Failed { cause: cause@ },
        }
    }
}

/// What the caller is to do next.
#[derive(Debug, PartialEq, Eq)]
pub enum IconAction {
    /// Send a GET request for the page, following redirects.
    FetchPage { url: String },
    /// Send a GET request for the icon.
    FetchIcon { url: String },
    /// Create the directory and its parents.
    CreateDir { path: String },
    /// Write the icon's bytes to the file, replacing what is there.
    WriteIcon { path: String },
    /// Nothing more: hand the outcome to the user.
    Report { outcome: Result<String, IconError> },
}

/// The mathematical content of an [`IconAction`].
pub enum IconActionView {
    FetchPage { url: Seq<char> },
    FetchIcon { url: Seq<char> },
    CreateDir { path: Seq<char> },
    WriteIcon { path: Seq<char> },
    Report { outcome: Result<Seq<char>, WebAppErrorView> },
}

impl View for IconAction {
    type V = IconActionView;

    open spec fn view(&self) -> IconActionView {
        match self {
            IconAction::FetchPage { url } => IconActionView::FetchPage { url: url@ },
            IconAction::FetchIcon { url } => IconActionView::FetchIcon { url: url@ },
            IconAction::CreateDir { path } => IconActionView::CreateDir { path: path@ },
            IconAction::WriteIcon { path } => IconActionView::WriteIcon { path: path@ },
            IconAction::Report { outcome } => IconActionView::Report {
                outcome: outcome_view(*outcome),
            },
        }
    }
}

impl IconStateView {
    /// The action that a state waits for.
    pub open spec fn action(self) -> IconActionView {
        match self {
            IconStateView::AwaitingPage { target } => IconActionView::FetchPage { url: target },
            IconStateView::AwaitingIcon { base, icon_url } => IconActionView::FetchIcon {
                url: icon_url,
            },
            IconStateView::AwaitingCacheDir { dir, file } => IconActionView::CreateDir {
                path: dir,
            },
            IconStateView::AwaitingWrite { file } => IconActionView::WriteIcon { path: file },
            IconStateView::Done { outcome } => IconActionView::Report { outcome },
        }
    }
}

/// The state after the page arrived from `final_url`, where `joined` is the
/// chosen reference `href` resolved against that address: the icon is
/// fetched from the resolved address, and a reference that cannot be
/// resolved ends the resolver.
pub open spec fn state_after_page(
    final_url: Seq<char>,
    href: Seq<char>,
    joined: Option<Seq<char>>,
) -> IconStateView {
    match joined {
        Some(icon_url) => IconStateView::AwaitingIcon { base: final_url, icon_url },
        None => IconStateView::Done { outcome: Err(WebAppErrorView::HtmlParseError { href }) },
    }
}

/// The state after the icon request was answered, where `host` is the host
/// of the page's address and `path` the path of the icon's address. A status
/// outside 200..=299 ends the resolver with the icon's address; no other
/// location is tried.
pub open spec fn state_after_icon(
    icon_url: Seq<char>,
    status: u16,
    home: Option<Seq<char>>,
    host: Option<Seq<char>>,
    path: Option<Seq<char>>,
) -> IconStateView {
    if !is_success(status) {
        IconStateView::Done { outcome: Err(WebAppErrorView::IconDownloadFailed { url: icon_url }) }
    } else {
        match home {
            None => IconStateView::Done { outcome: Err(WebAppErrorView::HomeDirectoryUnavailable) },
            Some(home) => IconStateView::AwaitingCacheDir {
                dir: icon_cache_dir(home),
                file: join_path_of(icon_cache_dir(home), icon_file_name(host, path)),
            },
        }
    }
}

/// The resolver's transition function. An event that does not answer the
/// action that the state waits for leaves the state as it is.
pub open spec fn icon_step(state: IconStateView, event: IconEventView) -> IconStateView {
    match (state, event) {
        (
            IconStateView::AwaitingPage { target },
            IconEventView::PageLoaded { final_url, body },
        ) => state_after_page(
            final_url,
            page_candidate(body).href(),
            url_join(final_url, page_candidate(body).href()),
        ),
        (IconStateView::AwaitingPage { target }, IconEventView::Failed { cause }) => {
            IconStateView::Done {
                outcome: Err(WebAppErrorView::NetworkError { url: target, cause }),
            }
        },
        (
            IconStateView::AwaitingIcon { base, icon_url },
            IconEventView::IconLoaded { status, home },
        ) => state_after_icon(icon_url, status, home, url_host(base), url_path(icon_url)),
        (IconStateView::AwaitingIcon { base, icon_url }, IconEventView::Failed { cause }) => {
            IconStateView::Done {
                outcome: Err(WebAppErrorView::NetworkError { url: icon_url, cause }),
            }
        },
        (IconStateView::AwaitingCacheDir { dir, file }, IconEventView::Completed) => {
            IconStateView::AwaitingWrite { file }
        },
        (IconStateView::AwaitingCacheDir { dir, file }, IconEventView::Failed { cause }) => {
            IconStateView::Done {
                outcome: Err(WebAppErrorView::FilesystemError { path: dir, cause }),
            }
        },
        (IconStateView::AwaitingWrite { file }, IconEventView::Completed) => IconStateView::Done {
            outcome: Ok(file),
        },
        (IconStateView::AwaitingWrite { file }, IconEventView::Failed { cause }) => {
            IconStateView::Done {
                outcome: Err(WebAppErrorView::FilesystemError { path: file, cause }),
            }
        },
        _ => state,
    }
}

/// Starts the resolver for what the user typed as the page's address.
pub fn download_best_icon(url_text: &str) -> (state: IconState)
    ensures
        state@ == (IconStateView::AwaitingPage { target: normalized_url(url_text@) }),
{
    IconState::AwaitingPage { target: normalize_url(url_text) }
}

/// The state after the page arrived, see [`state_after_page`].
pub fn after_page(final_url: String, href: String, joined: Option<String>) -> (next: IconState)
    ensures
        next@ == state_after_page(final_url@, href@, text_view(joined)),
{
    match joined {
        Some(icon_url) => IconState::AwaitingIcon { base: final_url, icon_url },
        None => IconState::Done { outcome: Err(WebAppError::HtmlParseError { href }) },
    }
}

/// The state after the icon request was answered, see [`state_after_icon`].
pub fn after_icon(
    icon_url: String,
    status: u16,
    home: Option<String>,
    host: Option<String>,
    path: Option<String>,
) -> (next: IconState)
    ensures
        next@ == state_after_icon(
            icon_url@,
            status,
            text_view(home),
            text_view(host),
            text_view(path),
        ),
{
    if !status_is_success(status) {
        return IconState::Done { outcome: Err(WebAppError::IconDownloadFailed { url: icon_url }) };
    }
    match home {
        None => IconState::Done { outcome: Err(WebAppError::HomeDirectoryUnavailable) },
        Some(home) => {
            let dir = cache_dir(home.as_str());
            let name = file_name(host, path);
            let file = join_path(dir.as_str(), name.as_str());
            IconState::AwaitingCacheDir { dir, file }
        },
    }
}

fn copy_outcome(outcome: &Result<String, IconError>) -> (copy: Result<String, IconError>)
    ensures
        outcome_view(copy) == outcome_view(*outcome),
{
    match outcome {
        Ok(path) => Ok(path.clone()),
        Err(error) => Err(error.clone()),
    }
}

impl IconState {
    /// The action that this state waits for.
    pub fn action(&self) -> (action: IconAction)
        ensures
            action@ == self@.action(),
    {
        match self {
            IconState::AwaitingPage { target } => IconAction::FetchPage { url: target.clone() },
            IconState::AwaitingIcon { base, icon_url } => IconAction::FetchIcon {
                url: icon_url.clone(),
            },
            IconState::AwaitingCacheDir { dir, file } => IconAction::CreateDir {
                path: dir.clone(),
            },
            IconState::AwaitingWrite { file } => IconAction::WriteIcon { path: file.clone() },
            IconState::Done { outcome } => IconAction::Report { outcome: copy_outcome(outcome) },
        }
    }

    /// The state after `event`.
    pub fn advance(self, event: IconEvent) -> (next: IconState)
        ensures
            next@ == icon_step(self@, event@),
    {
        match (self, event) {
            (IconState::AwaitingPage { target }, IconEvent::PageLoaded { final_url, body }) => {
                let href = find_icon_candidate(body.as_str()).href();
                let joined = join_url(final_url.as_str(), href.as_str());
                after_page(final_url, href, joined)
            },
            (IconState::AwaitingPage { target }, IconEvent::Failed { cause }) => IconState::Done {
                outcome: Err(WebAppError::NetworkError { url: target, cause }),
            },
            (
                IconState::AwaitingIcon { base, icon_url },
                IconEvent::IconLoaded { status, home },
            ) => {
                let host = host_of_url(base.as_str());
                let path = path_of_url(icon_url.as_str());
                after_icon(icon_url, status, home, host, path)
            },
            (IconState::AwaitingIcon { base, icon_url }, IconEvent::Failed { cause }) => {
                IconState::Done {
                    outcome: Err(WebAppError::NetworkError { url: icon_url, cause }),
                }
            },
            (IconState::AwaitingCacheDir { dir, file }, IconEvent::Completed) => {
                IconState::AwaitingWrite { file }
            },
            (IconState::AwaitingCacheDir { dir, file }, IconEvent::Failed { cause }) => {
                IconState::Done {
                    outcome: Err(WebAppError::FilesystemError { path: dir, cause }),
                }
            },
            (IconState::AwaitingWrite { file }, IconEvent::Completed) => IconState::Done {
                outcome: Ok(file),
            },
            (IconState::AwaitingWrite { file }, IconEvent::Failed { cause }) => IconState::Done {
                outcome: Err(WebAppError::FilesystemError { path: file, cause }),
            },
            (state, _) => state,
        }
    }
}

/// Where the `apple-touch-icon` link has a target, that target is chosen,
/// whatever the generic `icon` link holds.
pub proof fn lemma_apple_touch_icon_wins(href: Seq<char>, icon: Option<Option<Seq<char>>>)
    ensures
        candidate_of(Some(Some(href)), icon) == (IconCandidateView::AppleTouchIcon { href }),
        candidate_of(Some(Some(href)), icon).href() == href,
{
}

/// Where neither link has a target, the page's icon is looked for at
/// `/favicon.ico`, resolved against the address the page was served from.
pub proof fn lemma_no_link_means_favicon(
    target: Seq<char>,
    final_url: Seq<char>,
    body: Seq<char>,
)
    requires
        !(first_match_attr(body, apple_selector(), href_attribute()) matches Some(Some(_))),
        !(first_match_attr(body, icon_selector(), href_attribute()) matches Some(Some(_))),
    ensures
        page_candidate(body) == IconCandidateView::DefaultFavicon,
        icon_step(
            IconStateView::AwaitingPage { target },
            IconEventView::PageLoaded { final_url, body },
        ) == state_after_page(
            final_url,
            default_icon_href(),
            url_join(final_url, default_icon_href()),
        ),
{
}

/// An answer to the icon request with a status outside 200..=299 ends the
/// resolver with `IconDownloadFailed` for exactly the address that was
/// asked. The resolver then waits for no request, and no later event
/// changes its outcome.
pub proof fn lemma_failed_download_is_final(
    base: Seq<char>,
    icon_url: Seq<char>,
    status: u16,
    home: Option<Seq<char>>,
    later: IconEventView,
)
    requires
        !is_success(status),
    ensures
        ({
            let failed = IconStateView::Done {
                outcome: Err(WebAppErrorView::IconDownloadFailed { url: icon_url }),
            };
            &&& icon_step(
                IconStateView::AwaitingIcon { base, icon_url },
                IconEventView::IconLoaded { status, home },
            ) == failed
            &&& failed.action() == (IconActionView::Report {
                outcome: Err(WebAppErrorView::IconDownloadFailed { url: icon_url }),
            })
            &&& icon_step(failed, later) == failed
        }),
{
}

/// Once the resolver has ended, no event changes it.
pub proof fn lemma_done_is_final(
    outcome: Result<Seq<char>, WebAppErrorView>,
    event: IconEventView,
)
    ensures
        icon_step(IconStateView::Done { outcome }, event) == (IconStateView::Done { outcome }),
{
}

} // verus!
