use webapp_manager::browser::{
    binary_name, browser_family, detect_browsers, split_lines, window_class, BrowserFamily,
    BrowserProfile,
};
use webapp_manager::text::to_chars;

fn lines(text: &str) -> Vec<String> {
    split_lines(&to_chars(text)).iter().map(|line| line.iter().collect()).collect()
}

#[test]
fn detection_without_inventory_offers_firefox() {
    assert_eq!(detect_browsers(None), vec!["firefox".to_string()]);
}

#[test]
fn detection_is_never_empty() {
    for inventory in ["", "\n", "bash\ncoreutils\n", "firefox-esr\nchromium-dev\n"] {
        assert_eq!(detect_browsers(Some(inventory)), vec!["firefox".to_string()], "{inventory:?}");
    }
}

#[test]
fn detection_keeps_the_order_of_preference() {
    let inventory = "google-chrome\nvivaldi\nbash\nbrave-bin\nchromium\nfirefox\n";
    assert_eq!(
        detect_browsers(Some(inventory)),
        vec!["firefox", "chromium", "brave-bin", "vivaldi", "google-chrome"]
    );
    assert_eq!(detect_browsers(Some("vivaldi\nchromium")), vec!["chromium", "vivaldi"]);
}

#[test]
fn detection_matches_whole_lines() {
    assert_eq!(detect_browsers(Some("chromium\n")), vec!["chromium"]);
    assert_eq!(detect_browsers(Some("xchromium\nchromium-bin\n chromium\n")), vec!["firefox"]);
    assert_eq!(detect_browsers(Some("brave-bin")), vec!["brave-bin"]);
}

#[test]
fn detection_reads_lines_that_end_in_carriage_return_line_feed() {
    assert_eq!(detect_browsers(Some("vivaldi\r\nfirefox\r\n")), vec!["firefox", "vivaldi"]);
    assert_eq!(detect_browsers(Some("vivaldi\r")), vec!["firefox"]);
}

#[test]
fn lines_agree_with_std() {
    for text in ["", "a", "a\n", "a\nb", "a\n\nb\n", "\n", "\n\n", "a\r\nb\r\n", "a\r", "\r\n", "a\rb\n", "a\r\r\n"] {
        let expected: Vec<String> = text.lines().map(|line| line.to_string()).collect();
        assert_eq!(lines(text), expected, "{text:?}");
    }
}

#[test]
fn family_goes_by_firefox_in_the_identifier() {
    assert_eq!(browser_family("firefox"), BrowserFamily::FirefoxLike);
    assert_eq!(browser_family("firefox-esr"), BrowserFamily::FirefoxLike);
    assert_eq!(browser_family("org.mozilla.firefox"), BrowserFamily::FirefoxLike);
    assert_eq!(browser_family("chromium"), BrowserFamily::ChromiumLike);
    assert_eq!(browser_family("brave-bin"), BrowserFamily::ChromiumLike);
    assert_eq!(browser_family("Firefox"), BrowserFamily::ChromiumLike);
    assert_eq!(browser_family(""), BrowserFamily::ChromiumLike);
}

#[test]
fn binary_of_brave_bin_is_brave() {
    assert_eq!(binary_name("brave-bin"), "brave");
}

#[test]
fn binary_of_google_chrome_is_google_chrome_stable() {
    assert_eq!(binary_name("google-chrome"), "google-chrome-stable");
}

#[test]
fn binary_of_any_other_browser_is_its_identifier() {
    assert_eq!(binary_name("chromium"), "chromium");
    assert_eq!(binary_name("vivaldi"), "vivaldi");
    assert_eq!(binary_name("brave"), "brave");
    assert_eq!(binary_name("brave-bin "), "brave-bin ");
}

#[test]
fn window_class_is_prefixed() {
    assert_eq!(window_class("My_App"), "WebApp-My_App");
}

#[test]
fn firefox_profile_holds_name_and_directory() {
    let profile = BrowserProfile::for_browser("firefox", "My_App", "/d/My_App");
    assert_eq!(
        profile,
        BrowserProfile::FirefoxLike {
            profile_name: "My_App".to_string(),
            profile_dir: "/d/My_App".to_string()
        }
    );
}

#[test]
fn firefox_command_selects_the_profile_and_names_the_window() {
    let profile = BrowserProfile::for_browser("firefox", "My_App", "/d/My_App");
    let command = profile.exec_command("https://example.com");
    assert_eq!(
        command,
        "firefox --class \"WebApp-My_App\" --name \"WebApp-My_App\" --new-window https://example.com -P My_App"
    );
    assert!(command.contains("-P My_App"));
    assert!(command.contains("--class \"WebApp-My_App\""));
    assert!(command.contains("--name \"WebApp-My_App\""));
}

#[test]
fn chromium_command_opens_the_page_as_an_application() {
    let profile = BrowserProfile::for_browser("chromium", "My_App", "/d/My_App");
    assert_eq!(
        profile.exec_command("https://example.com"),
        "chromium --app=https://example.com --user-data-dir=/d/My_App"
    );
}

#[test]
fn brave_command_starts_brave() {
    let profile = BrowserProfile::for_browser("brave-bin", "Chat", "/d/Chat");
    let command = profile.exec_command("https://chat.example");
    assert_eq!(command.split(' ').next(), Some("brave"));
    assert_eq!(command, "brave --app=https://chat.example --user-data-dir=/d/Chat");
}

#[test]
fn chrome_command_starts_the_stable_binary() {
    let profile = BrowserProfile::for_browser("google-chrome", "Chat", "/d/Chat");
    let command = profile.exec_command("https://chat.example");
    assert_eq!(command.split(' ').next(), Some("google-chrome-stable"));
}
