use webapp_manager::error::WebAppError;
use webapp_manager::form::{
    choose_browser, creation_alert, form_request, on_poll, start_download, Alert, Delivery,
    DownloadStart, PollDecision,
};
use webapp_manager::icon::IconState;
use webapp_manager::launcher::{Category, WebAppRequest};

fn alert(title: &str, message: &str) -> Alert {
    Alert { title: title.to_string(), message: message.to_string() }
}

fn offered() -> Vec<String> {
    vec!["firefox".to_string(), "chromium".to_string()]
}

#[test]
fn browser_is_chosen_by_position() {
    assert_eq!(choose_browser(&offered(), 0), Some("firefox".to_string()));
    assert_eq!(choose_browser(&offered(), 1), Some("chromium".to_string()));
    assert_eq!(choose_browser(&offered(), 2), None);
    assert_eq!(choose_browser(&offered(), u32::MAX), None);
}

#[test]
fn empty_browser_list_gives_firefox() {
    assert_eq!(choose_browser(&Vec::new(), 0), Some("firefox".to_string()));
    assert_eq!(choose_browser(&Vec::new(), 5), Some("firefox".to_string()));
}

#[test]
fn form_fields_make_a_request() {
    let request = form_request(" My App ", "example.com", "/i.png", &offered(), 1, 3);
    assert_eq!(
        request,
        Some(WebAppRequest {
            name: " My App ".to_string(),
            url: "example.com".to_string(),
            icon_path: Some("/i.png".to_string()),
            browser_id: "chromium".to_string(),
            category: Category::AudioVideo,
        })
    );
}

#[test]
fn empty_icon_field_makes_no_icon() {
    let request = form_request("A", "b", "", &offered(), 0, 0).unwrap();
    assert_eq!(request.icon_path, None);
    assert_eq!(request.browser_id, "firefox");
    assert_eq!(request.category, Category::Network);
}

#[test]
fn positions_out_of_range_make_no_request() {
    assert_eq!(form_request("A", "b", "", &offered(), 2, 0), None);
    assert_eq!(form_request("A", "b", "", &offered(), 0, 7), None);
    assert_eq!(form_request("A", "b", "", &offered(), u32::MAX, u32::MAX), None);
}

#[test]
fn download_needs_a_url() {
    let refused = DownloadStart::Refuse { alert: alert("Error", "Please enter a URL first.") };
    assert_eq!(start_download(""), refused);
    assert_eq!(start_download("   "), refused);
}

#[test]
fn download_starts_with_the_page() {
    assert_eq!(
        start_download("example.com"),
        DownloadStart::Resolve { state: IconState::AwaitingPage { target: "https://example.com".to_string() } }
    );
}

#[test]
fn download_of_a_host_that_begins_with_http_starts_under_https() {
    assert_eq!(
        start_download("httpbin.org/html"),
        DownloadStart::Resolve {
            state: IconState::AwaitingPage { target: "https://httpbin.org/html".to_string() }
        }
    );
    assert_eq!(
        start_download("http://example.com/"),
        DownloadStart::Resolve { state: IconState::AwaitingPage { target: "http://example.com/".to_string() } }
    );
}

#[test]
fn poll_waits_while_nothing_arrived() {
    assert_eq!(on_poll(Delivery::Pending), PollDecision::KeepPolling);
}

#[test]
fn poll_takes_the_path() {
    assert_eq!(
        on_poll(Delivery::Arrived { outcome: Ok("/c/i.png".to_string()) }),
        PollDecision::SetIcon { path: "/c/i.png".to_string() }
    );
}

#[test]
fn poll_reports_the_failure() {
    let outcome = Err(WebAppError::IconDownloadFailed { url: "https://e.x/i.png".to_string() });
    assert_eq!(
        on_poll(Delivery::Arrived { outcome }),
        PollDecision::Notify { alert: alert("Download Failed", "Failed to download icon from https://e.x/i.png") }
    );
}

#[test]
fn poll_stops_when_the_resolver_went_away() {
    assert_eq!(on_poll(Delivery::Disconnected), PollDecision::Stop);
}

#[test]
fn creation_is_announced() {
    assert_eq!(creation_alert(&Ok("Created /a/b.desktop".to_string())), alert("Success", "Created /a/b.desktop"));
    assert_eq!(
        creation_alert(&Err(WebAppError::MissingField)),
        alert("Error", "Failed to create web app: Name and URL are required.")
    );
}
