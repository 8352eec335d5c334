//! Browsers: which are installed, which family one belongs to, and the
//! command line that opens a page as an application in it.

use crate::text::{contains_text, from_chars, same_text, slice_view, text_contains, to_chars};
use vstd::prelude::*;
use vstd::string::*;

verus! {

/// The texts of a list of strings.
pub open spec fn texts_of(list: Seq<String>) -> Seq<Seq<char>> {
    list.map_values(|s: String| s@)
}

/// The browsers that are looked for, from the most to the least preferred.
pub open spec fn browser_targets() -> Seq<Seq<char>> {
    seq!["firefox"@, "chromium"@, "brave-bin"@, "vivaldi"@, "google-chrome"@]
}

/// The browser that is offered when none is found.
pub open spec fn default_browser() -> Seq<char> {
    "firefox"@
}

/// The position of the first line feed in `s`, or the length of `s` when it
/// holds none.
pub open spec fn first_newline(s: Seq<char>) -> int
    decreases s.len(),
{
    if s.len() == 0 || s[0] == '\n' {
        0
    } else {
        1 + first_newline(s.skip(1))
    }
}

/// A line without the carriage return that ends it, if one does.
pub open spec fn without_carriage_return(line: Seq<char>) -> Seq<char> {
    if line.len() > 0 && line.last() == '\r' {
        line.drop_last()
    } else {
        line
    }
}

/// The lines of a text. A line ends at a line feed, or at a carriage return
/// directly followed by one; neither belongs to the line. What follows the
/// last line feed is a line only if it is not empty.
pub open spec fn lines_of(s: Seq<char>) -> Seq<Seq<char>>
    decreases s.len(),
{
    let end = first_newline(s);
    if s.len() == 0 {
        Seq::empty()
    } else if end < 0 || end >= s.len() {
        seq![s]
    } else {
        seq![without_carriage_return(s.take(end))] + lines_of(s.skip(end + 1))
    }
}

/// `first_newline` is the one position before which no line feed stands and
/// which holds a line feed or is the end of the text.
pub proof fn lemma_first_newline(s: Seq<char>, end: int)
    requires
        0 <= end <= s.len(),
        forall|j: int| 0 <= j < end ==> s[j] != '\n',
        end < s.len() ==> s[end] == '\n',
    ensures
        first_newline(s) == end,
    decreases s.len(),
{
    if end > 0 {
        let rest = s.skip(1);
        assert forall|j: int| 0 <= j < end - 1 implies rest[j] != '\n' by {
            assert(rest[j] == s[j + 1]);
        }
        lemma_first_newline(rest, end - 1);
    }
}

/// The lines of a text, as vectors of characters.
pub fn split_lines(text: &Vec<char>) -> (lines: Vec<Vec<char>>)
    ensures
        lines@.map_values(|line: Vec<char>| line@) == lines_of(text@),
{
    let mut lines: Vec<Vec<char>> = Vec::new();
    let mut start: usize = 0;
    proof {
        assert(text@.skip(0) == text@);
        assert(lines@.map_values(|line: Vec<char>| line@) + lines_of(text@) == lines_of(text@));
    }
    while start < text.len()
        invariant
            start <= text.len(),
            lines_of(text@) == lines@.map_values(|line: Vec<char>| line@) + lines_of(
                text@.skip(start as int),
            ),
        decreases text.len() - start,
    {
        let ghost rest = text@.skip(start as int);
        let ghost done = lines@.map_values(|line: Vec<char>| line@);
        let mut end: usize = start;
        let mut line: Vec<char> = Vec::new();
        while end < text.len() && text[end] != '\n'
            invariant
                start <= end <= text.len(),
                line@ == text@.subrange(start as int, end as int),
                forall|j: int| start <= j < end ==> text@[j] != '\n',
            decreases text.len() - end,
        {
            line.push(text[end]);
            end += 1;
        }
        proof {
            assert forall|j: int| 0 <= j < end - start implies rest[j] != '\n' by {
                assert(rest[j] == text@[start + j]);
            }
            lemma_first_newline(rest, end - start);
            assert(rest.take(end - start) == line@);
        }
        if end == text.len() {
            proof {
                assert(lines_of(rest) == seq![line@]);
            }
            lines.push(line);
            start = end;
            proof {
                assert(lines@.map_values(|line: Vec<char>| line@) == done + seq![line@]);
                assert(lines_of(text@.skip(start as int)) == Seq::<Seq<char>>::empty());
            }
        } else {
            if line.len() > 0 && line[line.len() - 1] == '\r' {
                line.pop();
            }
            proof {
                assert(line@ == without_carriage_return(rest.take(end - start)));
                assert(rest.skip(end - start + 1) == text@.skip(end + 1));
            }
            lines.push(line);
            start = end + 1;
            proof {
                assert(lines@.map_values(|line: Vec<char>| line@) == done + seq![line@]);
            }
        }
    }
    proof {
        assert(lines_of(text@.skip(start as int)) == Seq::<Seq<char>>::empty());
    }
    lines
}

/// The looked-for browsers that the inventory lists, one package name to a
/// line, in the order of preference, whatever their order in the inventory.
pub open spec fn installed_browsers(inventory: Seq<char>) -> Seq<Seq<char>> {
    browser_targets().filter(|target: Seq<char>| lines_of(inventory).contains(target))
}

/// The browsers to offer: those installed, or the default one alone where
/// the inventory could not be had (`None`) or lists none of them.
pub open spec fn detected_browsers(inventory: Option<Seq<char>>) -> Seq<Seq<char>> {
    let found = match inventory {
        Some(text) => installed_browsers(text),
        None => Seq::empty(),
    };
    if found.len() == 0 {
        seq![default_browser()]
    } else {
        found
    }
}

fn has_line(lines: &Vec<Vec<char>>, target: &Vec<char>) -> (found: bool)
    ensures
        found == lines@.map_values(|line: Vec<char>| line@).contains(target@),
{
    let ghost texts = lines@.map_values(|line: Vec<char>| line@);
    let mut i: usize = 0;
    while i < lines.len()
        invariant
            i <= lines.len(),
            texts == lines@.map_values(|line: Vec<char>| line@),
            forall|j: int| 0 <= j < i ==> texts[j] != target@,
        decreases lines.len() - i,
    {
        if same_text(&lines[i], target) {
            assert(texts[i as int] == target@);
            return true;
        }
        i += 1;
    }
    false
}

fn target_list() -> (targets: Vec<Vec<char>>)
    ensures
        targets@.map_values(|target: Vec<char>| target@) == browser_targets(),
{
    let mut targets: Vec<Vec<char>> = Vec::new();
    targets.push(to_chars("firefox"));
    targets.push(to_chars("chromium"));
    targets.push(to_chars("brave-bin"));
    targets.push(to_chars("vivaldi"));
    targets.push(to_chars("google-chrome"));
    assert(targets@.map_values(|target: Vec<char>| target@) == browser_targets());
    targets
}

/// The browsers to offer, given what the query of the package inventory
/// printed, or `None` where the query failed.
pub fn detect_browsers(inventory: Option<&str>) -> (browsers: Vec<String>)
    ensures
        texts_of(browsers@) == detected_browsers(slice_view(inventory)),
        browsers.len() >= 1,
{
    let mut browsers: Vec<String> = Vec::new();
    if let Some(text) = inventory {
        let lines = split_lines(&to_chars(text));
        let targets = target_list();
        let ghost wanted = browser_targets();
        let ghost listed = |target: Seq<char>| lines_of(text@).contains(target);
        let mut i: usize = 0;
        while i < targets.len()
            invariant
                i <= targets.len(),
                wanted == browser_targets(),
                targets@.map_values(|target: Vec<char>| target@) == wanted,
                lines@.map_values(|line: Vec<char>| line@) == lines_of(text@),
                listed == (|target: Seq<char>| lines_of(text@).contains(target)),
                texts_of(browsers@) == wanted.take(i as int).filter(listed),
            decreases targets.len() - i,
        {
            proof {
                reveal(Seq::filter);
                assert(wanted.take(i + 1).drop_last() == wanted.take(i as int));
                assert(wanted.take(i + 1).last() == targets@[i as int]@);
            }
            if has_line(&lines, &targets[i]) {
                let ghost before = texts_of(browsers@);
                browsers.push(from_chars(&targets[i]));
                assert(texts_of(browsers@) == before.push(targets@[i as int]@));
            }
            i += 1;
        }
        assert(wanted.take(targets.len() as int) == wanted);
    }
    if browsers.len() == 0 {
        browsers.push("firefox".to_string());
        assert(texts_of(browsers@) == seq![default_browser()]);
    }
    browsers
}

/// Detection never comes back empty, and where the inventory could not be
/// had it offers the default browser alone.
pub proof fn lemma_detection_never_empty(inventory: Option<Seq<char>>)
    ensures
        detected_browsers(inventory).len() >= 1,
        detected_browsers(None) == seq![default_browser()],
        inventory is Some && installed_browsers(inventory->0).len() == 0 ==> detected_browsers(
            inventory,
        ) == seq![default_browser()],
{
}

/// Where the inventory lists the most preferred browser, that browser is
/// offered first, wherever the inventory lists it.
pub proof fn lemma_preferred_browser_first(inventory: Seq<char>)
    requires
        lines_of(inventory).contains(browser_targets()[0]),
    ensures
        detected_browsers(Some(inventory))[0] == browser_targets()[0],
        browser_targets()[0] == default_browser(),
{
    let listed = |target: Seq<char>| lines_of(inventory).contains(target);
    let first = seq![browser_targets()[0]];
    let rest = browser_targets().skip(1);
    assert(browser_targets() == first + rest);
    Seq::filter_distributes_over_add(first, rest, listed);
    assert(first.filter(listed) == first) by {
        reveal_with_fuel(Seq::filter, 2);
        assert(first.drop_last() == Seq::<Seq<char>>::empty());
        assert(first.drop_last().filter(listed) == Seq::<Seq<char>>::empty());
    }
}

/// The two ways in which a browser is asked to open a page as an
/// application of its own.
#[derive(Debug, Clone, Copy, PartialEq, Eq, Structural)]
pub enum BrowserFamily {
    /// Isolation by a named profile.
    FirefoxLike,
    /// Isolation by a data directory, with the page in application mode.
    ChromiumLike,
}

/// A browser whose identifier holds `firefox` is Firefox-like; every other
/// one is Chromium-like.
pub open spec fn family_of(browser_id: Seq<char>) -> BrowserFamily {
    if contains_text(browser_id, "firefox"@) {
        BrowserFamily::FirefoxLike
    } else {
        BrowserFamily::ChromiumLike
    }
}

/// The family of a browser, see [`family_of`].
pub fn browser_family(browser_id: &str) -> (family: BrowserFamily)
    ensures
        family == family_of(browser_id@),
{
    if text_contains(&to_chars(browser_id), &to_chars("firefox")) {
        BrowserFamily::FirefoxLike
    } else {
        BrowserFamily::ChromiumLike
    }
}

/// The executable that a Chromium-like browser is started by: two package
/// names stand for an executable of another name, every other identifier is
/// the executable's name.
pub open spec fn binary_of(browser_id: Seq<char>) -> Seq<char> {
    if browser_id == "brave-bin"@ {
        "brave"@
    } else if browser_id == "google-chrome"@ {
        "google-chrome-stable"@
    } else {
        browser_id
    }
}

/// The executable of a Chromium-like browser, see [`binary_of`].
pub fn binary_name(browser_id: &str) -> (binary: String)
    ensures
        binary@ == binary_of(browser_id@),
{
    let id = to_chars(browser_id);
    if same_text(&id, &to_chars("brave-bin")) {
        "brave".to_string()
    } else if same_text(&id, &to_chars("google-chrome")) {
        "google-chrome-stable".to_string()
    } else {
        browser_id.to_string()
    }
}

/// The window class under which an application's windows are grouped.
pub open spec fn window_class_of(safe_name: Seq<char>) -> Seq<char> {
    "WebApp-"@ + safe_name
}

/// The window class of an application, see [`window_class_of`].
pub fn window_class(safe_name: &str) -> (class: String)
    ensures
        class@ == window_class_of(safe_name@),
{
    let mut class = "WebApp-".to_string();
    class.append(safe_name);
    class
}

/// How a browser is told to keep an application apart from the others.
#[derive(Debug, PartialEq, Eq)]
pub enum BrowserProfile {
    /// A profile of the given name, stored in the given directory.
    FirefoxLike { profile_name: String, profile_dir: String },
    /// The executable to start, and the directory that holds its data.
    ChromiumLike { binary: String, user_data_dir: String },
}

/// The mathematical content of a [`BrowserProfile`].
pub enum BrowserProfileView {
    FirefoxLike { profile_name: Seq<char>, profile_dir: Seq<char> },
    ChromiumLike { binary: Seq<char>, user_data_dir: Seq<char> },
}

impl View for BrowserProfile {
    type V = BrowserProfileView;

    open spec fn view(&self) -> BrowserProfileView {
        match self {
            BrowserProfile::FirefoxLike { profile_name, profile_dir } => {
                BrowserProfileView::FirefoxLike {
                    profile_name: profile_name@,
                    profile_dir: profile_dir@,
                }
            },
            BrowserProfile::ChromiumLike { binary, user_data_dir } => {
                BrowserProfileView::ChromiumLike {
                    binary: binary@,
                    user_data_dir: user_data_dir@,
                }
            },
        }
    }
}

/// The profile of an application named `safe_name` whose data lives in
/// `data_dir`, in the browser `browser_id`.
pub open spec fn profile_of(
    browser_id: Seq<char>,
    safe_name: Seq<char>,
    data_dir: Seq<char>,
) -> BrowserProfileView {
    match family_of(browser_id) {
        BrowserFamily::FirefoxLike => BrowserProfileView::FirefoxLike {
            profile_name: safe_name,
            profile_dir: data_dir,
        },
        BrowserFamily::ChromiumLike => BrowserProfileView::ChromiumLike {
            binary: binary_of(browser_id),
            user_data_dir: data_dir,
        },
    }
}

impl BrowserProfileView {
    /// The command line that opens `url` under this profile.
    pub open spec fn exec_command(self, url: Seq<char>) -> Seq<char> {
        match self {
            BrowserProfileView::FirefoxLike { profile_name, profile_dir } => "firefox --class \""@
                + window_class_of(profile_name) + "\" --name \""@ + window_class_of(profile_name)
                + "\" --new-window "@ + url + " -P "@ + profile_name,
            BrowserProfileView::ChromiumLike { binary, user_data_dir } => binary + " --app="@ + url
                + " --user-data-dir="@ + user_data_dir,
        }
    }
}

impl BrowserProfile {
    /// The profile of an application in a browser, see [`profile_of`].
    pub fn for_browser(browser_id: &str, safe_name: &str, data_dir: &str) -> (profile:
        BrowserProfile)
        ensures
            profile@ == profile_of(browser_id@, safe_name@, data_dir@),
    {
        match browser_family(browser_id) {
            BrowserFamily::FirefoxLike => BrowserProfile::FirefoxLike {
                profile_name: safe_name.to_string(),
                profile_dir: data_dir.to_string(),
            },
            BrowserFamily::ChromiumLike => BrowserProfile::ChromiumLike {
                binary: binary_name(browser_id),
                user_data_dir: data_dir.to_string(),
            },
        }
    }

    /// The command line that opens `url` under this profile.
    pub fn exec_command(&self, url: &str) -> (command: String)
        ensures
            command@ == self@.exec_command(url@),
    {
        match self {
            BrowserProfile::FirefoxLike { profile_name, profile_dir } => {
                let class = window_class(profile_name.as_str());
                let mut command = "firefox --class \"".to_string();
                command.append(class.as_str());
                command.append("\" --name \"");
                command.append(class.as_str());
                command.append("\" --new-window ");
                command.append(url);
                command.append(" -P ");
                command.append(profile_name.as_str());
                command
            },
            BrowserProfile::ChromiumLike { binary, user_data_dir } => {
                let mut command = binary.clone();
                command.append(" --app=");
                command.append(url);
                command.append(" --user-data-dir=");
                command.append(user_data_dir.as_str());
                command
            },
        }
    }
}

} // verus!
