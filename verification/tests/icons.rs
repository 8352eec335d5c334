use webapp_manager::error::WebAppError;
use webapp_manager::icon::{
    after_icon, after_page, cache_dir, choose_candidate, download_best_icon, file_name,
    find_icon_candidate, normalize_url, status_is_success, IconAction, IconCandidate, IconEvent,
    IconState,
};

fn page(head: &str) -> String {
    format!("<!DOCTYPE html><html><head><title>t</title>{head}</head><body><p>x</p></body></html>")
}

fn loaded(final_url: &str, head: &str) -> IconState {
    download_best_icon(final_url).advance(IconEvent::PageLoaded {
        final_url: final_url.to_string(),
        body: page(head),
    })
}

fn awaiting_icon(base: &str, icon_url: &str) -> IconState {
    IconState::AwaitingIcon { base: base.to_string(), icon_url: icon_url.to_string() }
}

fn fetch_icon(url: &str) -> IconAction {
    IconAction::FetchIcon { url: url.to_string() }
}

#[test]
fn url_without_scheme_gets_https() {
    assert_eq!(normalize_url("example.com"), "https://example.com");
    assert_eq!(normalize_url("example.com/a?b=c"), "https://example.com/a?b=c");
    assert_eq!(normalize_url("localhost:8080/x"), "https://localhost:8080/x");
    assert_eq!(normalize_url(""), "https://");
}

#[test]
fn host_that_begins_with_http_gets_https() {
    assert_eq!(normalize_url("httpbin.org/html"), "https://httpbin.org/html");
    assert_eq!(normalize_url("httpbin.org"), "https://httpbin.org");
    assert_eq!(normalize_url("http"), "https://http");
    assert_eq!(normalize_url("https"), "https://https");
    assert_eq!(normalize_url("htt"), "https://htt");
    assert_eq!(normalize_url("http.example.com"), "https://http.example.com");
}

#[test]
fn url_with_scheme_stays() {
    assert_eq!(normalize_url("https://example.com"), "https://example.com");
    assert_eq!(normalize_url("http://example.com/"), "http://example.com/");
    assert_eq!(normalize_url("ftp://example.com"), "ftp://example.com");
    assert_eq!(normalize_url("HTTP://EXAMPLE.COM"), "HTTP://EXAMPLE.COM");
    assert_eq!(normalize_url("git+ssh://host/x"), "git+ssh://host/x");
    assert_eq!(normalize_url("a://"), "a://");
    assert_eq!(normalize_url("http://"), "http://");
}

#[test]
fn scheme_needs_a_letter_then_scheme_characters_then_the_separator() {
    assert_eq!(normalize_url("://example.com"), "https://://example.com");
    assert_eq!(normalize_url("1http://example.com"), "https://1http://example.com");
    assert_eq!(normalize_url("+a://x"), "https://+a://x");
    assert_eq!(normalize_url("ht tp://x"), "https://ht tp://x");
    assert_eq!(normalize_url("http:/x"), "https://http:/x");
    assert_eq!(normalize_url("http:x"), "https://http:x");
    assert_eq!(normalize_url("mailto:a@b.c"), "https://mailto:a@b.c");
    assert_eq!(normalize_url("example.com/?next=http://x.y"), "https://example.com/?next=http://x.y");
    assert_eq!(normalize_url("h\u{e9}://x"), "https://h\u{e9}://x");
    assert_eq!(normalize_url(" http://x"), "https:// http://x");
}

#[test]
fn resolver_starts_by_fetching_the_normalized_url() {
    let state = download_best_icon("example.com");
    assert_eq!(state, IconState::AwaitingPage { target: "https://example.com".to_string() });
    assert_eq!(state.action(), IconAction::FetchPage { url: "https://example.com".to_string() });
    let state = download_best_icon("httpbin.org/html");
    assert_eq!(state.action(), IconAction::FetchPage { url: "https://httpbin.org/html".to_string() });
    let state = download_best_icon("http://example.com/");
    assert_eq!(state.action(), IconAction::FetchPage { url: "http://example.com/".to_string() });
}

#[test]
fn apple_touch_icon_is_preferred_to_icon() {
    let body = page(
        "<link rel=\"icon\" href=\"/generic.ico\"><link rel=\"apple-touch-icon\" href=\"/touch.png\">",
    );
    assert_eq!(
        find_icon_candidate(&body),
        IconCandidate::AppleTouchIcon { href: "/touch.png".to_string() }
    );
}

#[test]
fn icon_link_is_used_without_apple_touch_icon() {
    let body = page("<link rel=\"stylesheet\" href=\"/s.css\"><link rel=\"icon\" href=\"/generic.ico\">");
    assert_eq!(find_icon_candidate(&body), IconCandidate::IconLink { href: "/generic.ico".to_string() });
}

#[test]
fn shortcut_icon_counts_as_icon() {
    let body = page("<link rel=\"shortcut icon\" href=\"/s.ico\">");
    assert_eq!(find_icon_candidate(&body), IconCandidate::IconLink { href: "/s.ico".to_string() });
}

#[test]
fn page_without_icon_links_gives_the_default() {
    assert_eq!(find_icon_candidate(&page("")), IconCandidate::DefaultFavicon);
    assert_eq!(find_icon_candidate(""), IconCandidate::DefaultFavicon);
    assert_eq!(
        find_icon_candidate(&page("<link rel=\"stylesheet\" href=\"/s.css\">")),
        IconCandidate::DefaultFavicon
    );
    assert_eq!(IconCandidate::DefaultFavicon.href(), "/favicon.ico");
}

#[test]
fn only_the_first_match_of_a_tier_counts() {
    let body = page("<link rel=\"icon\" href=\"/first.ico\"><link rel=\"icon\" href=\"/second.ico\">");
    assert_eq!(find_icon_candidate(&body), IconCandidate::IconLink { href: "/first.ico".to_string() });
    let body = page("<link rel=\"icon\"><link rel=\"icon\" href=\"/second.ico\">");
    assert_eq!(find_icon_candidate(&body), IconCandidate::DefaultFavicon);
}

#[test]
fn apple_touch_icon_without_target_gives_way_to_icon() {
    let body = page("<link rel=\"apple-touch-icon\"><link rel=\"icon\" href=\"/generic.ico\">");
    assert_eq!(find_icon_candidate(&body), IconCandidate::IconLink { href: "/generic.ico".to_string() });
}

#[test]
fn candidate_is_chosen_by_rank() {
    let some = |text: &str| Some(Some(text.to_string()));
    assert_eq!(
        choose_candidate(some("a"), some("i")),
        IconCandidate::AppleTouchIcon { href: "a".to_string() }
    );
    assert_eq!(choose_candidate(some("a"), None), IconCandidate::AppleTouchIcon { href: "a".to_string() });
    assert_eq!(choose_candidate(None, some("i")), IconCandidate::IconLink { href: "i".to_string() });
    assert_eq!(choose_candidate(Some(None), some("i")), IconCandidate::IconLink { href: "i".to_string() });
    assert_eq!(choose_candidate(None, None), IconCandidate::DefaultFavicon);
    assert_eq!(choose_candidate(Some(None), Some(None)), IconCandidate::DefaultFavicon);
}

#[test]
fn page_with_both_links_fetches_the_apple_touch_icon() {
    let state = loaded(
        "https://example.com/",
        "<link rel=\"icon\" href=\"/generic.ico\"><link rel=\"apple-touch-icon\" href=\"/touch.png\">",
    );
    assert_eq!(state.action(), fetch_icon("https://example.com/touch.png"));
}

#[test]
fn page_without_links_fetches_favicon_at_the_root() {
    let state = loaded("https://example.com/en/page", "");
    assert_eq!(state, awaiting_icon("https://example.com/en/page", "https://example.com/favicon.ico"));
    assert_eq!(state.action(), fetch_icon("https://example.com/favicon.ico"));
}

#[test]
fn relative_href_resolves_against_the_page() {
    let state = loaded("https://example.com/en/page", "<link rel=\"icon\" href=\"icons/fav.png\">");
    assert_eq!(state.action(), fetch_icon("https://example.com/en/icons/fav.png"));
}

#[test]
fn root_relative_href_resolves_against_the_host() {
    let state = loaded("https://example.com/en/page", "<link rel=\"icon\" href=\"/icons/fav.png\">");
    assert_eq!(state.action(), fetch_icon("https://example.com/icons/fav.png"));
}

#[test]
fn scheme_relative_href_keeps_the_scheme() {
    let state = loaded("https://example.com/en/page", "<link rel=\"icon\" href=\"//cdn.example.net/i.png\">");
    assert_eq!(state.action(), fetch_icon("https://cdn.example.net/i.png"));
}

#[test]
fn absolute_href_stands_alone() {
    let state = loaded("https://example.com/en/page", "<link rel=\"icon\" href=\"http://other.example/i.svg\">");
    assert_eq!(state.action(), fetch_icon("http://other.example/i.svg"));
}

#[test]
fn href_resolves_against_the_address_after_redirects() {
    let state = download_best_icon("example.com").advance(IconEvent::PageLoaded {
        final_url: "https://www.example.org/home/".to_string(),
        body: page("<link rel=\"icon\" href=\"fav.ico\">"),
    });
    assert_eq!(state, awaiting_icon("https://www.example.org/home/", "https://www.example.org/home/fav.ico"));
}

#[test]
fn href_that_cannot_be_resolved_ends_the_resolver() {
    let state = loaded("https://example.com/", "<link rel=\"icon\" href=\"http://[::1\">");
    assert_eq!(
        state,
        IconState::Done { outcome: Err(WebAppError::HtmlParseError { href: "http://[::1".to_string() }) }
    );
}

#[test]
fn page_address_that_is_no_url_ends_the_resolver() {
    let state = loaded("not a url", "");
    assert_eq!(
        state,
        IconState::Done { outcome: Err(WebAppError::HtmlParseError { href: "/favicon.ico".to_string() }) }
    );
}

#[test]
fn after_page_goes_by_the_resolved_address() {
    assert_eq!(
        after_page("b".to_string(), "h".to_string(), Some("u".to_string())),
        awaiting_icon("b", "u")
    );
    assert_eq!(
        after_page("b".to_string(), "h".to_string(), None),
        IconState::Done { outcome: Err(WebAppError::HtmlParseError { href: "h".to_string() }) }
    );
}

#[test]
fn page_that_cannot_be_fetched_is_a_network_error() {
    let state = download_best_icon("example.com").advance(IconEvent::Failed { cause: "timed out".to_string() });
    let error = WebAppError::NetworkError {
        url: "https://example.com".to_string(),
        cause: "timed out".to_string(),
    };
    assert_eq!(state.action(), IconAction::Report { outcome: Err(error) });
}

#[test]
fn icon_that_cannot_be_fetched_is_a_network_error() {
    let state = awaiting_icon("https://example.com/", "https://example.com/i.png")
        .advance(IconEvent::Failed { cause: "reset".to_string() });
    let error = WebAppError::NetworkError {
        url: "https://example.com/i.png".to_string(),
        cause: "reset".to_string(),
    };
    assert_eq!(state, IconState::Done { outcome: Err(error) });
}

#[test]
fn success_is_200_to_299() {
    assert!(status_is_success(200));
    assert!(status_is_success(204));
    assert!(status_is_success(299));
    assert!(!status_is_success(199));
    assert!(!status_is_success(300));
    assert!(!status_is_success(404));
    assert!(!status_is_success(0));
    assert!(!status_is_success(u16::MAX));
}

#[test]
fn failed_download_carries_the_icon_url_and_tries_nothing_else() {
    for status in [404u16, 500, 301, 199, 300] {
        let state = awaiting_icon("https://example.com/en/page", "https://example.com/touch.png")
            .advance(IconEvent::IconLoaded { status, home: Some("/home/u".to_string()) });
        let failed = Err(WebAppError::IconDownloadFailed { url: "https://example.com/touch.png".to_string() });
        assert_eq!(state, IconState::Done { outcome: failed.clone() });
        assert_eq!(state.action(), IconAction::Report { outcome: failed.clone() });
        let state = state.advance(IconEvent::Completed);
        assert_eq!(state, IconState::Done { outcome: failed.clone() });
        let state = state.advance(IconEvent::PageLoaded {
            final_url: "https://example.com/".to_string(),
            body: page(""),
        });
        assert_eq!(state, IconState::Done { outcome: failed });
    }
}

#[test]
fn failed_download_comes_before_the_missing_home() {
    let state = awaiting_icon("https://example.com/", "https://example.com/i.png")
        .advance(IconEvent::IconLoaded { status: 404, home: None });
    assert_eq!(
        state,
        IconState::Done {
            outcome: Err(WebAppError::IconDownloadFailed { url: "https://example.com/i.png".to_string() })
        }
    );
}

#[test]
fn download_without_home_directory_fails() {
    let state = awaiting_icon("https://example.com/", "https://example.com/i.png")
        .advance(IconEvent::IconLoaded { status: 200, home: None });
    assert_eq!(state, IconState::Done { outcome: Err(WebAppError::HomeDirectoryUnavailable) });
}

#[test]
fn icon_is_cached_under_host_and_extension() {
    let state = awaiting_icon("https://www.example.com/en/page", "https://cdn.example.net/icons/fav.svg?v=2#x")
        .advance(IconEvent::IconLoaded { status: 200, home: Some("/home/u".to_string()) });
    let dir = "/home/u/.cache/webapp-manager/icons";
    let file = "/home/u/.cache/webapp-manager/icons/wwwexamplecom.svg";
    assert_eq!(state, IconState::AwaitingCacheDir { dir: dir.to_string(), file: file.to_string() });
    assert_eq!(state.action(), IconAction::CreateDir { path: dir.to_string() });
    let state = state.advance(IconEvent::Completed);
    assert_eq!(state.action(), IconAction::WriteIcon { path: file.to_string() });
    let state = state.advance(IconEvent::Completed);
    assert_eq!(state, IconState::Done { outcome: Ok(file.to_string()) });
    assert_eq!(state.action(), IconAction::Report { outcome: Ok(file.to_string()) });
}

#[test]
fn icon_without_extension_is_cached_as_png() {
    let state = awaiting_icon("https://my-site.example.org:8443/", "https://my-site.example.org:8443/icon")
        .advance(IconEvent::IconLoaded { status: 200, home: Some("/home/u".to_string()) });
    assert_eq!(
        state.action(),
        IconAction::CreateDir { path: "/home/u/.cache/webapp-manager/icons".to_string() }
    );
    let state = state.advance(IconEvent::Completed);
    assert_eq!(
        state.action(),
        IconAction::WriteIcon { path: "/home/u/.cache/webapp-manager/icons/my-siteexampleorg.png".to_string() }
    );
}

#[test]
fn icons_of_one_host_with_one_extension_share_a_file() {
    let file_of = |icon_url: &str| {
        awaiting_icon("https://example.com/a", icon_url)
            .advance(IconEvent::IconLoaded { status: 200, home: Some("/h".to_string()) })
            .advance(IconEvent::Completed)
            .action()
    };
    assert_eq!(file_of("https://example.com/one/icon.png"), file_of("https://example.com/two/other.png"));
}

#[test]
fn file_name_goes_by_host_and_path() {
    let some = |text: &str| Some(text.to_string());
    assert_eq!(file_name(some("example.com"), some("/favicon.ico")), "examplecom.ico");
    assert_eq!(file_name(None, some("/favicon.ico")), "webapp.ico");
    assert_eq!(file_name(some("example.com"), None), "examplecom.png");
    assert_eq!(file_name(some("example.com"), some("/icon")), "examplecom.png");
    assert_eq!(file_name(None, None), "webapp.png");
}

#[test]
fn page_without_host_is_cached_as_webapp() {
    let state = awaiting_icon("file:///srv/page.html", "file:///srv/icon.png")
        .advance(IconEvent::IconLoaded { status: 200, home: Some("/home/u".to_string()) })
        .advance(IconEvent::Completed);
    assert_eq!(
        state.action(),
        IconAction::WriteIcon { path: "/home/u/.cache/webapp-manager/icons/webapp.png".to_string() }
    );
}

#[test]
fn cache_directory_lies_under_home() {
    assert_eq!(cache_dir("/home/u"), "/home/u/.cache/webapp-manager/icons");
    assert_eq!(cache_dir("/"), "/.cache/webapp-manager/icons");
}

#[test]
fn after_icon_goes_by_status_then_home() {
    let some = |text: &str| Some(text.to_string());
    assert_eq!(
        after_icon("u".to_string(), 503, some("/h"), some("example.com"), some("/i.png")),
        IconState::Done { outcome: Err(WebAppError::IconDownloadFailed { url: "u".to_string() }) }
    );
    assert_eq!(
        after_icon("u".to_string(), 200, None, some("example.com"), some("/i.png")),
        IconState::Done { outcome: Err(WebAppError::HomeDirectoryUnavailable) }
    );
    assert_eq!(
        after_icon("u".to_string(), 200, some("/h"), some("example.com"), some("/i.png")),
        IconState::AwaitingCacheDir {
            dir: "/h/.cache/webapp-manager/icons".to_string(),
            file: "/h/.cache/webapp-manager/icons/examplecom.png".to_string()
        }
    );
}

#[test]
fn cache_directory_that_cannot_be_created_is_a_filesystem_error() {
    let state = IconState::AwaitingCacheDir { dir: "/d".to_string(), file: "/d/f.png".to_string() }
        .advance(IconEvent::Failed { cause: "denied".to_string() });
    let error = WebAppError::FilesystemError { path: "/d".to_string(), cause: "denied".to_string() };
    assert_eq!(state, IconState::Done { outcome: Err(error) });
}

#[test]
fn icon_that_cannot_be_written_is_a_filesystem_error() {
    let state = IconState::AwaitingWrite { file: "/d/f.png".to_string() }
        .advance(IconEvent::Failed { cause: "full".to_string() });
    let error = WebAppError::FilesystemError { path: "/d/f.png".to_string(), cause: "full".to_string() };
    assert_eq!(state, IconState::Done { outcome: Err(error) });
}

#[test]
fn event_that_answers_nothing_changes_nothing() {
    let state = download_best_icon("example.com").advance(IconEvent::Completed);
    assert_eq!(state, IconState::AwaitingPage { target: "https://example.com".to_string() });
    let state = state.advance(IconEvent::IconLoaded { status: 200, home: None });
    assert_eq!(state, IconState::AwaitingPage { target: "https://example.com".to_string() });
    let state = awaiting_icon("b", "u").advance(IconEvent::Completed);
    assert_eq!(state, awaiting_icon("b", "u"));
    let state = IconState::AwaitingWrite { file: "/f".to_string() }
        .advance(IconEvent::IconLoaded { status: 200, home: None });
    assert_eq!(state, IconState::AwaitingWrite { file: "/f".to_string() });
}
