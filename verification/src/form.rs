//! What the input form decides: which request its fields make, when a
//! download may start, what a poll of the download means, and what the user
//! is told.

use crate::browser::{default_browser, texts_of};
use crate::error::{outcome_view, IconError, LauncherError, WebAppErrorView};
use crate::icon::{download_best_icon, normalized_url, IconState, IconStateView};
use crate::launcher::{Category, WebAppRequest, WebAppRequestView};
use crate::text::{is_blank, text_is_blank, text_view};
use vstd::prelude::*;
use vstd::string::*;

verus! {

/// A notification that blocks the form until the user has seen it.
#[derive(Debug, PartialEq, Eq)]
pub struct Alert {
    pub title: String,
    pub message: String,
}

/// The mathematical content of an [`Alert`].
pub struct AlertView {
    pub title: Seq<char>,
    pub message: Seq<char>,
}

impl View for Alert {
    type V = AlertView;

    open spec fn view(&self) -> AlertView {
        AlertView { title: self.title@, message: self.message@ }
    }
}

/// The browser chosen at a position of the list that was offered: the
/// default browser where the list is empty, nothing where the position is
/// none of the list.
pub open spec fn chosen_browser(offered: Seq<Seq<char>>, index: int) -> Option<Seq<char>> {
    if offered.len() == 0 {
        Some(default_browser())
    } else if 0 <= index < offered.len() {
        Some(offered[index])
    } else {
        None
    }
}

/// The browser chosen at a position of the offered list, see [`chosen_browser`].
pub fn choose_browser(offered: &Vec<String>, index: u32) -> (browser: Option<String>)
    ensures
        text_view(browser) == chosen_browser(texts_of(offered@), index as int),
{
    if offered.len() == 0 {
        Some("firefox".to_string())
    } else if (index as usize) < offered.len() {
        Some(offered[index as usize].clone())
    } else {
        None
    }
}

/// The request that the form's fields make: the texts as they were typed,
/// no icon where the icon field is empty, and the browser and the category
/// at the chosen positions. There is none where a position is out of range.
pub open spec fn request_of_form(
    name: Seq<char>,
    url: Seq<char>,
    icon: Seq<char>,
    offered: Seq<Seq<char>>,
    browser_index: int,
    category_index: int,
) -> Option<WebAppRequestView> {
    if chosen_browser(offered, browser_index) is Some && 0 <= category_index
        < Category::offered().len() {
        Some(
            WebAppRequestView {
                name,
                url,
                icon_path: if icon.len() == 0 {
                    None
                } else {
                    Some(icon)
                },
                browser_id: chosen_browser(offered, browser_index)->0,
                category: Category::offered()[category_index],
            },
        )
    } else {
        None
    }
}

/// The request that the form's fields make, see [`request_of_form`].
pub fn form_request(
    name: &str,
    url: &str,
    icon: &str,
    offered: &Vec<String>,
    browser_index: u32,
    category_index: u32,
) -> (request: Option<WebAppRequest>)
    ensures
        match request {
            Some(request) => Some(request@),
            None => None,
        } == request_of_form(
            name@,
            url@,
            icon@,
            texts_of(offered@),
            browser_index as int,
            category_index as int,
        ),
{
    let browser_id = match choose_browser(offered, browser_index) {
        Some(browser) => browser,
        None => {
            return None;
        },
    };
    let category = match Category::from_index(category_index) {
        Some(category) => category,
        None => {
            return None;
        },
    };
    let icon_path = if icon.unicode_len() == 0 {
        None
    } else {
        Some(icon.to_string())
    };
    Some(WebAppRequest { name: name.to_string(), url: url.to_string(), icon_path, browser_id, category })
}

/// What the form does when a download is asked for.
#[derive(Debug, PartialEq, Eq)]
pub enum DownloadStart {
    /// The resolver starts in this state, off the thread that owns the form.
    Resolve { state: IconState },
    /// No download: the user is told why.
    Refuse { alert: Alert },
}

/// The mathematical content of a [`DownloadStart`].
pub enum DownloadStartView {
    Resolve { state: IconStateView },
    Refuse { alert: AlertView },
}

impl View for DownloadStart {
    type V = DownloadStartView;

    open spec fn view(&self) -> DownloadStartView {
        match self {
            DownloadStart::Resolve { state } => DownloadStartView::Resolve { state: state@ },
            DownloadStart::Refuse { alert } => DownloadStartView::Refuse { alert: alert@ },
        }
    }
}

/// A download starts for every URL field that is not blank.
pub open spec fn download_start_of(url: Seq<char>) -> DownloadStartView {
    if is_blank(url) {
        DownloadStartView::Refuse {
            alert: AlertView { title: "Error"@, message: "Please enter a URL first."@ },
        }
    } else {
        DownloadStartView::Resolve {
            state: IconStateView::AwaitingPage { target: normalized_url(url) },
        }
    }
}

/// Decides whether a download starts, see [`download_start_of`].
pub fn start_download(url: &str) -> (start: DownloadStart)
    ensures
        start@ == download_start_of(url@),
{
    if text_is_blank(url) {
        DownloadStart::Refuse {
            alert: Alert {
                title: "Error".to_string(),
                message: "Please enter a URL first.".to_string(),
            },
        }
    } else {
        DownloadStart::Resolve { state: download_best_icon(url) }
    }
}

/// What a look at the download's channel found.
#[derive(Debug, PartialEq, Eq)]
pub enum Delivery {
    /// Nothing has arrived yet.
    Pending,
    /// The resolver's outcome has arrived.
    Arrived { outcome: Result<String, IconError> },
    /// The resolver went away without an outcome.
    Disconnected,
}

/// The mathematical content of a [`Delivery`].
pub enum DeliveryView {
    Pending,
    Arrived { outcome: Result<Seq<char>, WebAppErrorView> },
    Disconnected,
}

impl View for Delivery {
    type V = DeliveryView;

    open spec fn view(&self) -> DeliveryView {
        match self {
            Delivery::Pending => DeliveryView::Pending,
            Delivery::Arrived { outcome } => DeliveryView::Arrived {
                outcome: outcome_view(*outcome),
            },
            Delivery::Disconnected => DeliveryView::Disconnected,
        }
    }
}

/// What the form does after a look at the channel.
#[derive(Debug, PartialEq, Eq)]
pub enum PollDecision {
    /// Look again later.
    KeepPolling,
    /// Put the path in the icon field and stop looking.
    SetIcon { path: String },
    /// Tell the user and stop looking.
    Notify { alert: Alert },
    /// Stop looking.
    Stop,
}

/// The mathematical content of a [`PollDecision`].
pub enum PollDecisionView {
    KeepPolling,
    SetIcon { path: Seq<char> },
    Notify { alert: AlertView },
    Stop,
}

impl View for PollDecision {
    type V = PollDecisionView;

    open spec fn view(&self) -> PollDecisionView {
        match self {
            PollDecision::KeepPolling => PollDecisionView::KeepPolling,
            PollDecision::SetIcon { path } => PollDecisionView::SetIcon { path: path@ },
            PollDecision::Notify { alert } => PollDecisionView::Notify { alert: alert@ },
            PollDecision::Stop => PollDecisionView::Stop,
        }
    }
}

/// The form looks again only while nothing has arrived. An outcome ends the
/// polling with the icon's path or a notification; a resolver that went away
/// ends it silently.
pub open spec fn poll_decision_of(delivery: DeliveryView) -> PollDecisionView {
    match delivery {
        DeliveryView::Pending => PollDecisionView::KeepPolling,
        DeliveryView::Arrived { outcome: Ok(path) } => PollDecisionView::SetIcon { path },
        DeliveryView::Arrived { outcome: Err(error) } => PollDecisionView::Notify {
            alert: AlertView { title: "Download Failed"@, message: error.message() },
        },
        DeliveryView::Disconnected => PollDecisionView::Stop,
    }
}

/// Decides what follows a look at the channel, see [`poll_decision_of`].
pub fn on_poll(delivery: Delivery) -> (decision: PollDecision)
    ensures
        decision@ == poll_decision_of(delivery@),
{
    match delivery {
        Delivery::Pending => PollDecision::KeepPolling,
        Delivery::Arrived { outcome: Ok(path) } => PollDecision::SetIcon { path },
        Delivery::Arrived { outcome: Err(error) } => PollDecision::Notify {
            alert: Alert { title: "Download Failed".to_string(), message: error.message() },
        },
        Delivery::Disconnected => PollDecision::Stop,
    }
}

/// What the user is told when the creation of a launcher has ended.
pub open spec fn creation_alert_of(outcome: Result<Seq<char>, WebAppErrorView>) -> AlertView {
    match outcome {
        Ok(confirmation) => AlertView { title: "Success"@, message: confirmation },
        Err(error) => AlertView {
            title: "Error"@,
            message: "Failed to create web app: "@ + error.message(),
        },
    }
}

/// The notification that ends the creation of a launcher, see [`creation_alert_of`].
pub fn creation_alert(outcome: &Result<String, LauncherError>) -> (alert: Alert)
    ensures
        alert@ == creation_alert_of(outcome_view(*outcome)),
{
    match outcome {
        Ok(confirmation) => Alert { title: "Success".to_string(), message: confirmation.clone() },
        Err(error) => {
            let mut message = "Failed to create web app: ".to_string();
            message.append(error.message().as_str());
            Alert { title: "Error".to_string(), message }
        },
    }
}

} // verus!
