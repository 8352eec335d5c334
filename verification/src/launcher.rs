//! Launcher synthesis: from what the user entered to the steps that put a
//! launcher descriptor and a data directory of its own in place.
//!
//! The file system and the browser stay outside. [`create_web_app`] checks
//! the request and lays out the steps; a [`LauncherRun`] names the step to
//! perform next and takes its outcome.

use crate::browser::{
    family_of, profile_of, window_class, window_class_of, BrowserFamily, BrowserProfile,
};
use crate::error::{outcome_view, LauncherError, WebAppError, WebAppErrorView};
use crate::names::{join_path, join_path_of, safe_name, safe_name_of};
use crate::text::{is_blank, slice_view, text_is_blank, text_view};
use vstd::prelude::*;
use vstd::string::*;

verus! {

/// The menu section under which an application is listed.
#[derive(Debug, Clone, Copy, PartialEq, Eq, Structural)]
pub enum Category {
    Network,
    Office,
    Graphics,
    AudioVideo,
    Development,
    Game,
    Utility,
}

impl Category {
    /// The category's name in a launcher descriptor.
    pub open spec fn label_of(self) -> Seq<char> {
        match self {
            Category::Network => "Network"@,
            Category::Office => "Office"@,
            Category::Graphics => "Graphics"@,
            Category::AudioVideo => "AudioVideo"@,
            Category::Development => "Development"@,
            Category::Game => "Game"@,
            Category::Utility => "Utility"@,
        }
    }

    /// The categories in the order in which they are offered.
    pub open spec fn offered() -> Seq<Category> {
        seq![
            Category::Network,
            Category::Office,
            Category::Graphics,
            Category::AudioVideo,
            Category::Development,
            Category::Game,
            Category::Utility,
        ]
    }

    /// The category's name in a launcher descriptor.
    pub fn label(&self) -> (text: &'static str)
        ensures
            text@ == self.label_of(),
    {
        match self {
            Category::Network => "Network",
            Category::Office => "Office",
            Category::Graphics => "Graphics",
            Category::AudioVideo => "AudioVideo",
            Category::Development => "Development",
            Category::Game => "Game",
            Category::Utility => "Utility",
        }
    }

    /// The category offered at a position, if the position is one.
    pub fn from_index(index: u32) -> (category: Option<Category>)
        ensures
            category == if index < Category::offered().len() {
                Some(Category::offered()[index as int])
            } else {
                None
            },
    {
        match index {
            0 => Some(Category::Network),
            1 => Some(Category::Office),
            2 => Some(Category::Graphics),
            3 => Some(Category::AudioVideo),
            4 => Some(Category::Development),
            5 => Some(Category::Game),
            6 => Some(Category::Utility),
            _ => None,
        }
    }
}

/// What the user entered for an application.
#[derive(Debug, PartialEq, Eq)]
pub struct WebAppRequest {
    pub name: String,
    pub url: String,
    pub icon_path: Option<String>,
    pub browser_id: String,
    pub category: Category,
}

/// The mathematical content of a [`WebAppRequest`].
pub struct WebAppRequestView {
    pub name: Seq<char>,
    pub url: Seq<char>,
    pub icon_path: Option<Seq<char>>,
    pub browser_id: Seq<char>,
    pub category: Category,
}

impl View for WebAppRequest {
    type V = WebAppRequestView;

    open spec fn view(&self) -> WebAppRequestView {
        WebAppRequestView {
            name: self.name@,
            url: self.url@,
            icon_path: text_view(self.icon_path),
            browser_id: self.browser_id@,
            category: self.category,
        }
    }
}

/// The directory that holds the launcher descriptors.
pub open spec fn launcher_dir_of(home: Seq<char>) -> Seq<char> {
    join_path_of(home, ".local/share/applications"@)
}

/// The directory that holds the data of the application `safe_name`.
pub open spec fn data_dir_of(home: Seq<char>, safe_name: Seq<char>) -> Seq<char> {
    join_path_of(join_path_of(home, ".local/share/webapps"@), safe_name)
}

/// The descriptor file of the application `safe_name`.
pub open spec fn descriptor_path_of(home: Seq<char>, safe_name: Seq<char>) -> Seq<char> {
    join_path_of(launcher_dir_of(home), safe_name + ".desktop"@)
}

/// The directory that holds the launcher descriptors, see [`launcher_dir_of`].
pub fn launcher_dir(home: &str) -> (dir: String)
    ensures
        dir@ == launcher_dir_of(home@),
{
    join_path(home, ".local/share/applications")
}

/// The directory that holds the data of an application, see [`data_dir_of`].
pub fn data_dir(home: &str, safe_name: &str) -> (dir: String)
    ensures
        dir@ == data_dir_of(home@, safe_name@),
{
    let root = join_path(home, ".local/share/webapps");
    join_path(root.as_str(), safe_name)
}

/// The descriptor file of an application, see [`descriptor_path_of`].
pub fn descriptor_path(home: &str, safe_name: &str) -> (path: String)
    ensures
        path@ == descriptor_path_of(home@, safe_name@),
{
    let dir = launcher_dir(home);
    let mut file = safe_name.to_string();
    file.append(".desktop");
    join_path(dir.as_str(), file.as_str())
}

/// The text of an optional icon path: nothing where there is none.
pub open spec fn icon_text(icon_path: Option<Seq<char>>) -> Seq<char> {
    match icon_path {
        Some(path) => path,
        None => Seq::empty(),
    }
}

/// The launcher descriptor: ten lines in a fixed order, each ended by a
/// line feed.
pub open spec fn descriptor_of(
    name: Seq<char>,
    url: Seq<char>,
    exec: Seq<char>,
    icon: Seq<char>,
    category: Category,
    safe_name: Seq<char>,
) -> Seq<char> {
    "[Desktop Entry]\nVersion=1.0\nType=Application\nName="@ + name + "\nComment=Web App for "@
        + url + "\nExec="@ + exec + "\nIcon="@ + icon + "\nTerminal=false\nCategories="@
        + category.label_of() + ";\nStartupWMClass="@ + window_class_of(safe_name) + "\n"@
}

/// The text of a launcher descriptor, see [`descriptor_of`].
pub fn render_descriptor(
    name: &str,
    url: &str,
    exec: &str,
    icon: &str,
    category: Category,
    safe_name: &str,
) -> (text: String)
    ensures
        text@ == descriptor_of(name@, url@, exec@, icon@, category, safe_name@),
{
    let class = window_class(safe_name);
    let mut text = "[Desktop Entry]\nVersion=1.0\nType=Application\nName=".to_string();
    text.append(name);
    text.append("\nComment=Web App for ");
    text.append(url);
    text.append("\nExec=");
    text.append(exec);
    text.append("\nIcon=");
    text.append(icon);
    text.append("\nTerminal=false\nCategories=");
    text.append(category.label());
    text.append(";\nStartupWMClass=");
    text.append(class.as_str());
    text.append("\n");
    text
}

/// One thing to do on the way to a launcher.
#[derive(Debug, PartialEq, Eq)]
pub enum LauncherStep {
    /// Create the directory and its parents.
    CreateDir { path: String },
    /// Ask the browser to create the profile `name`, stored in `dir`.
    CreateProfile { name: String, dir: String },
    /// Write `content` to the file `path`, replacing what is there.
    WriteFile { path: String, content: String },
}

/// The mathematical content of a [`LauncherStep`].
pub enum LauncherStepView {
    CreateDir { path: Seq<char> },
    CreateProfile { name: Seq<char>, dir: Seq<char> },
    WriteFile { path: Seq<char>, content: Seq<char> },
}

impl View for LauncherStep {
    type V = LauncherStepView;

    open spec fn view(&self) -> LauncherStepView {
        match self {
            LauncherStep::CreateDir { path } => LauncherStepView::CreateDir { path: path@ },
            LauncherStep::CreateProfile { name, dir } => LauncherStepView::CreateProfile {
                name: name@,
                dir: dir@,
            },
            LauncherStep::WriteFile { path, content } => LauncherStepView::WriteFile {
                path: path@,
                content: content@,
            },
        }
    }
}

impl LauncherStepView {
    /// Whether the launcher is given up when the step fails. Creating the
    /// browser's profile is tried and its failure passed over; every other
    /// step must succeed.
    pub open spec fn is_required(self) -> bool {
        !(self is CreateProfile)
    }

    /// The directory or file that the step is about.
    pub open spec fn path(self) -> Seq<char> {
        match self {
            LauncherStepView::CreateDir { path } => path,
            LauncherStepView::CreateProfile { name, dir } => dir,
            LauncherStepView::WriteFile { path, content } => path,
        }
    }
}

impl Clone for LauncherStep {
    fn clone(&self) -> (same: LauncherStep)
        ensures
            same@ == self@,
    {
        match self {
            LauncherStep::CreateDir { path } => LauncherStep::CreateDir { path: path.clone() },
            LauncherStep::CreateProfile { name, dir } => LauncherStep::CreateProfile {
                name: name.clone(),
                dir: dir.clone(),
            },
            LauncherStep::WriteFile { path, content } => LauncherStep::WriteFile {
                path: path.clone(),
                content: content.clone(),
            },
        }
    }
}

/// The views of a list of steps.
pub open spec fn steps_view(steps: Seq<LauncherStep>) -> Seq<LauncherStepView> {
    steps.map_values(|step: LauncherStep| step@)
}

/// Why a request is turned down before anything is done, if it is: the name
/// or the URL is blank; else the name leaves an empty safe name; else the
/// home directory is not known.
pub open spec fn request_error(request: WebAppRequestView, home: Option<Seq<char>>) -> Option<
    WebAppErrorView,
> {
    if is_blank(request.name) || is_blank(request.url) {
        Some(WebAppErrorView::MissingField)
    } else if safe_name_of(request.name).len() == 0 {
        Some(WebAppErrorView::UnusableName)
    } else if home is None {
        Some(WebAppErrorView::HomeDirectoryUnavailable)
    } else {
        None
    }
}

/// The command line in the descriptor of a request.
pub open spec fn exec_of(request: WebAppRequestView, home: Seq<char>) -> Seq<char> {
    let safe = safe_name_of(request.name);
    profile_of(request.browser_id, safe, data_dir_of(home, safe)).exec_command(request.url)
}

/// The descriptor of a request.
pub open spec fn request_descriptor(request: WebAppRequestView, home: Seq<char>) -> Seq<char> {
    descriptor_of(
        request.name,
        request.url,
        exec_of(request, home),
        icon_text(request.icon_path),
        request.category,
        safe_name_of(request.name),
    )
}

/// The steps of a request, in order: the launcher directory and the
/// application's data directory are created, a Firefox-like browser is asked
/// for a profile, and the descriptor is written.
pub open spec fn launcher_steps(request: WebAppRequestView, home: Seq<char>) -> Seq<
    LauncherStepView,
> {
    let safe = safe_name_of(request.name);
    let dirs = seq![
        LauncherStepView::CreateDir { path: launcher_dir_of(home) },
        LauncherStepView::CreateDir { path: data_dir_of(home, safe) },
    ];
    let profile = match family_of(request.browser_id) {
        BrowserFamily::FirefoxLike => seq![
            LauncherStepView::CreateProfile { name: safe, dir: data_dir_of(home, safe) },
        ],
        BrowserFamily::ChromiumLike => Seq::empty(),
    };
    let write = seq![
        LauncherStepView::WriteFile {
            path: descriptor_path_of(home, safe),
            content: request_descriptor(request, home),
        },
    ];
    dirs + profile + write
}

/// What the user is told once the descriptor is written.
pub open spec fn confirmation_of(request: WebAppRequestView, home: Seq<char>) -> Seq<char> {
    "Created "@ + descriptor_path_of(home, safe_name_of(request.name))
}

/// How a step ended.
#[derive(Debug, PartialEq, Eq)]
pub enum StepOutcome {
    Succeeded,
    Failed { cause: String },
}

/// The mathematical content of a [`StepOutcome`].
pub enum StepOutcomeView {
    Succeeded,
    Failed { cause: Seq<char> },
}

impl View for StepOutcome {
    type V = StepOutcomeView;

    open spec fn view(&self) -> StepOutcomeView {
        match self {
            StepOutcome::Succeeded => StepOutcomeView::Succeeded,
            StepOutcome::Failed { cause } => StepOutcomeView::Failed { cause: cause@ },
        }
    }
}

/// What the caller is to do next.
#[derive(Debug, PartialEq, Eq)]
pub enum LauncherAction {
    /// Perform the step and report how it ended.
    Perform { step: LauncherStep },
    /// Nothing more: hand the outcome to the user.
    Report { outcome: Result<String, LauncherError> },
}

/// The mathematical content of a [`LauncherAction`].
pub enum LauncherActionView {
    Perform { step: LauncherStepView },
    Report { outcome: Result<Seq<char>, WebAppErrorView> },
}

impl View for LauncherAction {
    type V = LauncherActionView;

    open spec fn view(&self) -> LauncherActionView {
        match self {
            LauncherAction::Perform { step } => LauncherActionView::Perform { step: step@ },
            LauncherAction::Report { outcome } => LauncherActionView::Report {
                outcome: outcome_view(*outcome),
            },
        }
    }
}

/// The creation of one launcher, under way: the steps, how many of them are
/// behind, and the failure that ended it, if one did.
#[derive(Debug, PartialEq, Eq)]
pub struct LauncherRun {
    steps: Vec<LauncherStep>,
    done: usize,
    failure: Option<LauncherError>,
    confirmation: String,
}

/// The mathematical content of a [`LauncherRun`].
pub struct LauncherRunView {
    pub steps: Seq<LauncherStepView>,
    pub done: nat,
    pub failure: Option<WebAppErrorView>,
    pub confirmation: Seq<char>,
}

impl LauncherRunView {
    /// The run of a request that was not turned down, before its first step.
    pub open spec fn start(request: WebAppRequestView, home: Seq<char>) -> LauncherRunView {
        LauncherRunView {
            steps: launcher_steps(request, home),
            done: 0,
            failure: None,
            confirmation: confirmation_of(request, home),
        }
    }

    /// Whether a step is waited for.
    pub open spec fn is_pending(self) -> bool {
        self.failure is None && self.done < self.steps.len()
    }

    /// What the caller is to do next: the first step not yet behind, or,
    /// where the run has ended, the report of its failure or of the
    /// confirmation.
    pub open spec fn action(self) -> LauncherActionView {
        match self.failure {
            Some(error) => LauncherActionView::Report { outcome: Err(error) },
            None => if self.done < self.steps.len() {
                LauncherActionView::Perform { step: self.steps[self.done as int] }
            } else {
                LauncherActionView::Report { outcome: Ok(self.confirmation) }
            },
        }
    }

    /// The run after the step waited for ended with `outcome`. A required
    /// step that failed ends the run with a `FilesystemError` for the step's
    /// path; every other outcome leads to the next step. Where no step is
    /// waited for, nothing changes.
    pub open spec fn advance(self, outcome: StepOutcomeView) -> LauncherRunView {
        if !self.is_pending() {
            self
        } else {
            let step = self.steps[self.done as int];
            match outcome {
                StepOutcomeView::Failed { cause } if step.is_required() => LauncherRunView {
                    failure: Some(WebAppErrorView::FilesystemError { path: step.path(), cause }),
                    ..self
                },
                _ => LauncherRunView { done: self.done + 1, ..self },
            }
        }
    }
}

impl View for LauncherRun {
    type V = LauncherRunView;

    closed spec fn view(&self) -> LauncherRunView {
        LauncherRunView {
            steps: steps_view(self.steps@),
            done: self.done as nat,
            failure: match self.failure {
                Some(error) => Some(error@),
                None => None,
            },
            confirmation: self.confirmation@,
        }
    }
}

/// Checks a request and lays out its steps. `home` is the user's home
/// directory, if it is known.
pub fn create_web_app(request: &WebAppRequest, home: Option<&str>) -> (run: Result<
    LauncherRun,
    LauncherError,
>)
    ensures
        match run {
            Ok(run) => request_error(request@, slice_view(home)) is None && run@
                == LauncherRunView::start(request@, home.unwrap()@),
            Err(error) => request_error(request@, slice_view(home)) == Some(error@),
        },
{
    if text_is_blank(request.name.as_str()) || text_is_blank(request.url.as_str()) {
        return Err(WebAppError::MissingField);
    }
    let safe = safe_name(request.name.as_str());
    if safe.as_str().unicode_len() == 0 {
        return Err(WebAppError::UnusableName);
    }
    let home = match home {
        Some(home) => home,
        None => {
            return Err(WebAppError::HomeDirectoryUnavailable);
        },
    };
    let data = data_dir(home, safe.as_str());
    let profile = BrowserProfile::for_browser(
        request.browser_id.as_str(),
        safe.as_str(),
        data.as_str(),
    );
    let exec = profile.exec_command(request.url.as_str());
    let icon = match &request.icon_path {
        Some(path) => path.clone(),
        None => String::new(),
    };
    let content = render_descriptor(
        request.name.as_str(),
        request.url.as_str(),
        exec.as_str(),
        icon.as_str(),
        request.category,
        safe.as_str(),
    );
    let path = descriptor_path(home, safe.as_str());
    let mut confirmation = "Created ".to_string();
    confirmation.append(path.as_str());

    let mut steps: Vec<LauncherStep> = Vec::new();
    steps.push(LauncherStep::CreateDir { path: launcher_dir(home) });
    steps.push(LauncherStep::CreateDir { path: data.clone() });
    match profile {
        BrowserProfile::FirefoxLike { profile_name, profile_dir } => {
            steps.push(LauncherStep::CreateProfile { name: profile_name, dir: profile_dir });
        },
        BrowserProfile::ChromiumLike { binary, user_data_dir } => {},
    }
    steps.push(LauncherStep::WriteFile { path, content });
    assert(steps_view(steps@) == launcher_steps(request@, home@));
    Ok(LauncherRun { steps, done: 0, failure: None, confirmation })
}

impl LauncherRun {
    /// What the caller is to do next.
    pub fn action(&self) -> (action: LauncherAction)
        ensures
            action@ == self@.action(),
    {
        match &self.failure {
            Some(error) => LauncherAction::Report { outcome: Err(error.clone()) },
            None => if self.done < self.steps.len() {
                LauncherAction::Perform { step: self.steps[self.done].clone() }
            } else {
                LauncherAction::Report { outcome: Ok(self.confirmation.clone()) }
            },
        }
    }

    /// The run after the step waited for ended with `outcome`.
    pub fn advance(self, outcome: StepOutcome) -> (next: LauncherRun)
        ensures
            next@ == self@.advance(outcome@),
    {
        if self.failure.is_some() || self.done >= self.steps.len() {
            return self;
        }
        let LauncherRun { steps, done, failure, confirmation } = self;
        match outcome {
            StepOutcome::Failed { cause } => match &steps[done] {
                LauncherStep::CreateProfile { name, dir } => LauncherRun {
                    steps,
                    done: done + 1,
                    failure,
                    confirmation,
                },
                LauncherStep::CreateDir { path } => {
                    let error = WebAppError::FilesystemError { path: path.clone(), cause };
                    LauncherRun { steps, done, failure: Some(error), confirmation }
                },
                LauncherStep::WriteFile { path, content } => {
                    let error = WebAppError::FilesystemError { path: path.clone(), cause };
                    LauncherRun { steps, done, failure: Some(error), confirmation }
                },
            },
            StepOutcome::Succeeded => LauncherRun { steps, done: done + 1, failure, confirmation },
        }
    }
}

/// A request is turned down with `MissingField` exactly when its name or
/// its URL is blank, whatever else it holds and whether or not the home
/// directory is known.
pub proof fn lemma_blank_field_is_missing(request: WebAppRequestView, home: Option<Seq<char>>)
    ensures
        (is_blank(request.name) || is_blank(request.url)) <==> request_error(request, home) == Some(
            WebAppErrorView::MissingField,
        ),
        request.name.len() == 0 || request.url.len() == 0 ==> request_error(request, home) == Some(
            WebAppErrorView::MissingField,
        ),
{
}

/// The directories and files that launchers have put in place.
pub struct FileTree {
    pub dirs: Set<Seq<char>>,
    pub files: Map<Seq<char>, Seq<char>>,
}

/// The tree after a step that succeeded. What a browser does when it is
/// asked for a profile is its own affair and is not followed here.
pub open spec fn tree_after_step(tree: FileTree, step: LauncherStepView) -> FileTree {
    match step {
        LauncherStepView::CreateDir { path } => FileTree { dirs: tree.dirs.insert(path), ..tree },
        LauncherStepView::CreateProfile { name, dir } => tree,
        LauncherStepView::WriteFile { path, content } => FileTree {
            files: tree.files.insert(path, content),
            ..tree
        },
    }
}

/// The tree after a run whose steps all succeeded.
pub open spec fn tree_after(tree: FileTree, steps: Seq<LauncherStepView>) -> FileTree
    decreases steps.len(),
{
    if steps.len() == 0 {
        tree
    } else {
        tree_after_step(tree_after(tree, steps.drop_last()), steps.last())
    }
}

/// A launcher's run leaves the two directories in place and one file, the
/// descriptor, under the path that the safe name gives.
pub proof fn lemma_run_writes_one_descriptor(
    request: WebAppRequestView,
    home: Seq<char>,
    tree: FileTree,
)
    ensures
        tree_after(tree, launcher_steps(request, home)) == (FileTree {
            dirs: tree.dirs.insert(launcher_dir_of(home)).insert(
                data_dir_of(home, safe_name_of(request.name)),
            ),
            files: tree.files.insert(
                descriptor_path_of(home, safe_name_of(request.name)),
                request_descriptor(request, home),
            ),
        }),
{
    let steps = launcher_steps(request, home);
    let safe = safe_name_of(request.name);
    let make_launcher_dir = LauncherStepView::CreateDir { path: launcher_dir_of(home) };
    let make_data_dir = LauncherStepView::CreateDir { path: data_dir_of(home, safe) };
    let dirs = seq![make_launcher_dir, make_data_dir];
    reveal_with_fuel(tree_after, 3);
    assert(dirs.drop_last() == seq![make_launcher_dir]);
    assert(dirs.drop_last().drop_last() == Seq::<LauncherStepView>::empty());
    let with_dirs = tree_after(tree, dirs);
    assert(with_dirs == FileTree {
        dirs: tree.dirs.insert(launcher_dir_of(home)).insert(data_dir_of(home, safe)),
        ..tree
    });
    match family_of(request.browser_id) {
        BrowserFamily::FirefoxLike => {
            let ask = LauncherStepView::CreateProfile { name: safe, dir: data_dir_of(home, safe) };
            assert(steps.drop_last() == dirs.push(ask));
            assert(steps.drop_last().drop_last() == dirs);
            assert(tree_after(tree, steps.drop_last()) == with_dirs);
        },
        BrowserFamily::ChromiumLike => {
            assert(steps.drop_last() == dirs);
        },
    }
}

/// Creating a launcher again under the same name replaces the descriptor
/// and adds none: after the second run the tree holds the same directories
/// and the same files as after the first, and the one descriptor holds what
/// the second request asked for. With the same request twice, the second run
/// changes nothing.
pub proof fn lemma_recreation_overwrites(
    first: WebAppRequestView,
    second: WebAppRequestView,
    home: Seq<char>,
    tree: FileTree,
)
    requires
        first.name == second.name,
    ensures
        ({
            let once = tree_after(tree, launcher_steps(first, home));
            let twice = tree_after(once, launcher_steps(second, home));
            let path = descriptor_path_of(home, safe_name_of(first.name));
            &&& twice.dirs == once.dirs
            &&& twice.files.dom() == once.files.dom()
            &&& twice.files == tree.files.insert(path, request_descriptor(second, home))
            &&& first == second ==> twice == once
        }),
{
    let once = tree_after(tree, launcher_steps(first, home));
    lemma_run_writes_one_descriptor(first, home, tree);
    lemma_run_writes_one_descriptor(second, home, once);
    let twice = tree_after(once, launcher_steps(second, home));
    assert(twice.dirs =~= once.dirs);
    assert(twice.files.dom() =~= once.files.dom());
    assert(twice.files =~= tree.files.insert(
        descriptor_path_of(home, safe_name_of(first.name)),
        request_descriptor(second, home),
    ));
    if first == second {
        assert(twice.files =~= once.files);
    }
}

/// A browser that fails to create its profile does not stop the run: the
/// run goes on as if the profile had been created.
pub proof fn lemma_profile_failure_is_passed_over(run: LauncherRunView, cause: Seq<char>)
    requires
        run.is_pending(),
        run.steps[run.done as int] is CreateProfile,
    ensures
        run.advance(StepOutcomeView::Failed { cause }) == run.advance(StepOutcomeView::Succeeded),
        run.advance(StepOutcomeView::Failed { cause }).failure is None,
{
}

/// A directory that cannot be created, or a descriptor that cannot be
/// written, ends the run with a `FilesystemError` that names the path and
/// the cause. Nothing is performed after it, whatever is reported later.
pub proof fn lemma_required_failure_ends_run(
    run: LauncherRunView,
    cause: Seq<char>,
    later: StepOutcomeView,
)
    requires
        run.is_pending(),
        run.steps[run.done as int].is_required(),
    ensures
        ({
            let failed = run.advance(StepOutcomeView::Failed { cause });
            &&& failed.action() == (LauncherActionView::Report {
                outcome: Err(
                    WebAppErrorView::FilesystemError {
                        path: run.steps[run.done as int].path(),
                        cause,
                    },
                ),
            })
            &&& failed.advance(later) == failed
        }),
{
}

/// The run after `count` more steps succeeded.
pub open spec fn after_successes(run: LauncherRunView, count: nat) -> LauncherRunView
    decreases count,
{
    if count == 0 {
        run
    } else {
        after_successes(run, (count - 1) as nat).advance(StepOutcomeView::Succeeded)
    }
}

/// A run whose steps succeed one after the other asks for each step in
/// order and, after the last, reports the confirmation.
pub proof fn lemma_success_reaches_confirmation(
    request: WebAppRequestView,
    home: Seq<char>,
    count: nat,
)
    requires
        count <= launcher_steps(request, home).len(),
    ensures
        ({
            let run = after_successes(LauncherRunView::start(request, home), count);
            let steps = launcher_steps(request, home);
            &&& run == LauncherRunView { done: count, ..LauncherRunView::start(request, home) }
            &&& count < steps.len() ==> run.action() == (LauncherActionView::Perform {
                step: steps[count as int],
            })
            &&& count == steps.len() ==> run.action() == (LauncherActionView::Report {
                outcome: Ok(confirmation_of(request, home)),
            })
        }),
    decreases count,
{
    if count > 0 {
        lemma_success_reaches_confirmation(request, home, (count - 1) as nat);
    }
}

/// With a Firefox-like browser the run ends in the confirmation also where
/// the browser fails to create its profile, as long as the directories are
/// created and the descriptor is written.
pub proof fn lemma_firefox_run_survives_profile_failure(
    request: WebAppRequestView,
    home: Seq<char>,
    cause: Seq<char>,
)
    requires
        family_of(request.browser_id) == BrowserFamily::FirefoxLike,
    ensures
        LauncherRunView::start(request, home).advance(StepOutcomeView::Succeeded).advance(
            StepOutcomeView::Succeeded,
        ).advance(StepOutcomeView::Failed { cause }).advance(StepOutcomeView::Succeeded).action()
            == (LauncherActionView::Report { outcome: Ok(confirmation_of(request, home)) }),
{
    let start = LauncherRunView::start(request, home);
    assert(start.steps.len() == 4);
    assert(start.steps[2] is CreateProfile);
    assert(start.steps[3] is WriteFile);
}

} // verus!
