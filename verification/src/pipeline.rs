//! The build, as a machine that is told what happened and says what to do
//! next.
//!
//! A build loads the manifest, then takes the sources one by one in the order
//! of the manifest, fetching and extracting each before it turns to the next,
//! then runs the steps in the order of the manifest. The first failure ends
//! the build: nothing is retried and nothing is undone.
//!
//! The machine does no work itself. [`Build::pending`] names the one action it
//! waits for; the caller performs it and reports the outcome as an [`Event`]
//! to [`Build::advance`]. An event that does not answer the pending action
//! changes nothing.
//!
//! The `sources/` directory is left as it is, so that what earlier builds
//! extracted stays, unless the build is configured to clear it; it is then
//! cleared once, after the manifest is loaded and before the first source is
//! fetched.

use vstd::pervasive::unreached;
use vstd::prelude::*;
use vstd::string::StringExecFns;

use crate::checksum::agrees;
use crate::error::{fault, BuildError, ErrorKind, ErrorView};
use crate::extract::{archive_format, format_of, ArchiveFormat};
use crate::fetch::{
    cache_decision, cache_hit, plan_fetch, planned, verify_download, FetchDecision, FetchPlan,
    FetchPlanView,
};
use crate::package::{
    loaded, output_directory, runner_invocation, sound, views, Invocation, InvocationView,
    Package, PackageView, RawPackage, RawPackageView, Step, StepVariant, StepVariantView, StepView,
};

verus! {

/// How a build is configured.
#[derive(Debug, Clone, Copy, PartialEq, Eq, Structural)]
pub struct BuildOptions {
    /// Whether `sources/` is cleared before the first source is fetched.
    pub clear_sources: bool,
}

/// Where a build stands.
#[derive(Debug, Clone, PartialEq, Eq)]
pub enum BuildState {
    /// The manifest is yet to be read.
    LoadManifest,
    /// The manifest is loaded and `sources/` is being cleared.
    ClearSources,
    /// The source `index` is being fetched: the disk is probed for its
    /// target, or, once `downloading`, the target is downloaded.
    FetchSources { index: usize, plan: FetchPlan, downloading: bool },
    /// The source `index` is on disk as `file`, verified, and is being
    /// extracted.
    ExtractSources { index: usize, file: String, format: ArchiveFormat },
    /// The step `index` is running.
    RunSteps { index: usize },
    /// Every source is extracted and every step has succeeded.
    Done,
    /// The build has failed, and why.
    Failed(BuildError),
}

/// The mathematical content of a [`BuildState`].
pub enum StateView {
    LoadManifest,
    ClearSources,
    FetchSources { index: int, plan: FetchPlanView, downloading: bool },
    ExtractSources { index: int, file: Seq<char>, format: ArchiveFormat },
    RunSteps { index: int },
    Done,
    Failed(ErrorView),
}

impl View for BuildState {
    type V = StateView;

    open spec fn view(&self) -> StateView {
        match self {
            BuildState::LoadManifest => StateView::LoadManifest,
            BuildState::ClearSources => StateView::ClearSources,
            BuildState::FetchSources { index, plan, downloading } => StateView::FetchSources {
                index: *index as int,
                plan: plan@,
                downloading: *downloading,
            },
            BuildState::ExtractSources { index, file, format } => StateView::ExtractSources {
                index: *index as int,
                file: file@,
                format: *format,
            },
            BuildState::RunSteps { index } => StateView::RunSteps { index: *index as int },
            BuildState::Done => StateView::Done,
            BuildState::Failed(e) => StateView::Failed(e@),
        }
    }
}

/// What the caller reports to the build.
#[derive(Debug, PartialEq, Eq)]
pub enum Event {
    /// There is no manifest file.
    ManifestMissing,
    /// The manifest file could not be read as a package description.
    ManifestInvalid(String),
    /// The manifest file holds this description.
    ManifestRead(RawPackage),
    /// `sources/` was cleared, or could not be.
    SourcesCleared(Result<(), String>),
    /// The content of the target file, if the file exists.
    CacheProbed(Option<Vec<u8>>),
    /// The download ended, leaving these bytes in the target file, or failed.
    Downloaded(Result<Vec<u8>, String>),
    /// The archive was unpacked, or could not be.
    Extracted(Result<(), String>),
    /// The step ended with success, or failed.
    StepFinished(Result<(), String>),
}

/// The mathematical content of an [`Event`]. An outcome is the report of the
/// failure, or `None` for success.
pub enum EventView {
    ManifestMissing,
    ManifestInvalid(Seq<char>),
    ManifestRead(RawPackageView),
    SourcesCleared(Option<Seq<char>>),
    CacheProbed(Option<Seq<u8>>),
    Downloaded(Result<Seq<u8>, Seq<char>>),
    Extracted(Option<Seq<char>>),
    StepFinished(Option<Seq<char>>),
}

/// The report of the failure in `outcome`, if it is one.
pub open spec fn failure_of(outcome: Result<(), String>) -> Option<Seq<char>> {
    match outcome {
        Ok(_) => None,
        Err(report) => Some(report@),
    }
}

impl View for Event {
    type V = EventView;

    open spec fn view(&self) -> EventView {
        match self {
            Event::ManifestMissing => EventView::ManifestMissing,
            Event::ManifestInvalid(report) => EventView::ManifestInvalid(report@),
            Event::ManifestRead(raw) => EventView::ManifestRead(raw@),
            Event::SourcesCleared(outcome) => EventView::SourcesCleared(failure_of(*outcome)),
            Event::CacheProbed(existing) => EventView::CacheProbed(
                match existing {
                    Some(data) => Some(data@),
                    None => None,
                },
            ),
            Event::Downloaded(outcome) => EventView::Downloaded(
                match outcome {
                    Ok(data) => Ok(data@),
                    Err(report) => Err(report@),
                },
            ),
            Event::Extracted(outcome) => EventView::Extracted(failure_of(*outcome)),
            Event::StepFinished(outcome) => EventView::StepFinished(failure_of(*outcome)),
        }
    }
}

/// What the build asks the caller to do.
#[derive(Debug, Clone, PartialEq, Eq)]
pub enum Action {
    /// Read the manifest `file` of the working directory.
    ReadManifest { file: String },
    /// Remove `directory` and what is in it.
    ClearSources { directory: String },
    /// Read `file`, if it exists.
    ProbeCache { file: String },
    /// Download `url` into `file`, then read `file` back.
    Download { url: String, file: String },
    /// Decode `file` as `format` and unpack the tar stream into `directory`.
    Extract { file: String, format: ArchiveFormat, directory: String },
    /// Run `invocation` for the step `step` and wait for it to end.
    Run { step: String, invocation: Invocation },
    /// Relocate `path` into `directory` for the step `step`.
    Move { step: String, path: String, directory: String },
    /// Report that the package was built.
    Succeed,
    /// Report that the build failed, and why.
    Fail(BuildError),
}

/// The mathematical content of an [`Action`].
pub enum ActionView {
    ReadManifest { file: Seq<char> },
    ClearSources { directory: Seq<char> },
    ProbeCache { file: Seq<char> },
    Download { url: Seq<char>, file: Seq<char> },
    Extract { file: Seq<char>, format: ArchiveFormat, directory: Seq<char> },
    Run { step: Seq<char>, invocation: InvocationView },
    Move { step: Seq<char>, path: Seq<char>, directory: Seq<char> },
    Succeed,
    Fail(ErrorView),
}

impl View for Action {
    type V = ActionView;

    open spec fn view(&self) -> ActionView {
        match self {
            Action::ReadManifest { file } => ActionView::ReadManifest { file: file@ },
            Action::ClearSources { directory } => ActionView::ClearSources {
                directory: directory@,
            },
            Action::ProbeCache { file } => ActionView::ProbeCache { file: file@ },
            Action::Download { url, file } => ActionView::Download { url: url@, file: file@ },
            Action::Extract { file, format, directory } => ActionView::Extract {
                file: file@,
                format: *format,
                directory: directory@,
            },
            Action::Run { step, invocation } => ActionView::Run {
                step: step@,
                invocation: invocation@,
            },
            Action::Move { step, path, directory } => ActionView::Move {
                step: step@,
                path: path@,
                directory: directory@,
            },
            Action::Succeed => ActionView::Succeed,
            Action::Fail(e) => ActionView::Fail(e@),
        }
    }
}

/// The mathematical content of a [`Build`].
pub struct BuildView {
    pub options: BuildOptions,
    /// The loaded package; `None` until the manifest is loaded.
    pub package: Option<PackageView>,
    pub state: StateView,
}

/// Whether `build` is a state that a build can be in: once the manifest is
/// loaded there is a sound package, and the source or step at work is one of
/// that package.
pub open spec fn consistent(build: BuildView) -> bool {
    match build.state {
        StateView::LoadManifest => build.package is None,
        StateView::ClearSources => build.package is Some && sound(build.package->0),
        StateView::FetchSources { index, plan, downloading } => {
            &&& build.package is Some
            &&& sound(build.package->0)
            &&& 0 <= index < build.package->0.sources.len()
            &&& planned(build.package->0.sources[index], build.package->0.info) == Ok::<
                FetchPlanView,
                ErrorView,
            >(plan)
        },
        StateView::ExtractSources { index, file, format } => {
            &&& build.package is Some
            &&& sound(build.package->0)
            &&& 0 <= index < build.package->0.sources.len()
            &&& format_of(file) == Ok::<ArchiveFormat, ErrorView>(format)
        },
        StateView::RunSteps { index } => {
            &&& build.package is Some
            &&& sound(build.package->0)
            &&& 0 <= index < build.package->0.steps.len()
        },
        StateView::Done => build.package is Some && sound(build.package->0),
        StateView::Failed(_) => true,
    }
}

/// The state in which the step `index` is taken up: it runs, or, if there is
/// no such step, the build is done.
pub open spec fn enter_steps(package: PackageView, index: int) -> StateView {
    if index < package.steps.len() {
        StateView::RunSteps { index }
    } else {
        StateView::Done
    }
}

/// The state in which the source `index` is taken up: its fetch is planned
/// and the disk is probed, or, if there is no such source, the steps begin.
/// A source whose fetch cannot be planned fails the build.
pub open spec fn enter_fetch(package: PackageView, index: int) -> StateView {
    if index < package.sources.len() {
        match planned(package.sources[index], package.info) {
            Ok(plan) => StateView::FetchSources { index, plan, downloading: false },
            Err(e) => StateView::Failed(e),
        }
    } else {
        enter_steps(package, 0)
    }
}

/// The state in which the verified `file` of the source `index` is taken up
/// for extraction. A file whose name tells no archive format fails the
/// build.
pub open spec fn enter_extract(index: int, file: Seq<char>) -> StateView {
    match format_of(file) {
        Ok(format) => StateView::ExtractSources { index, file, format },
        Err(e) => StateView::Failed(e),
    }
}

/// The failure of kind `kind` about `subject` that the caller reported as
/// `report`.
pub open spec fn reported(kind: ErrorKind, subject: Seq<char>, report: Seq<char>) -> StateView {
    StateView::Failed(ErrorView { kind, subject, detail: report })
}

/// The state that follows `build.state` when `event` is reported. It is
/// `build.state` itself where the event does not answer the pending action.
pub open spec fn next_state(build: BuildView, event: EventView) -> StateView {
    match (build.state, event) {
        (StateView::LoadManifest, EventView::ManifestMissing) => StateView::Failed(
            fault(ErrorKind::ManifestNotFound, "package.toml"@),
        ),
        (StateView::LoadManifest, EventView::ManifestInvalid(report)) => reported(
            ErrorKind::ManifestParseError,
            "package.toml"@,
            report,
        ),
        (StateView::LoadManifest, EventView::ManifestRead(raw)) => match loaded(raw) {
            Err(e) => StateView::Failed(e),
            Ok(package) => if build.options.clear_sources {
                StateView::ClearSources
            } else {
                enter_fetch(package, 0)
            },
        },
        (StateView::ClearSources, EventView::SourcesCleared(failure)) => match failure {
            None => enter_fetch(build.package->0, 0),
            Some(report) => reported(ErrorKind::ExtractionFailure, "sources/"@, report),
        },
        (
            StateView::FetchSources { index, plan, downloading: false },
            EventView::CacheProbed(existing),
        ) => if cache_hit(existing, plan.checksum) {
            enter_extract(index, plan.target)
        } else {
            StateView::FetchSources { index, plan, downloading: true }
        },
        (
            StateView::FetchSources { index, plan, downloading: true },
            EventView::Downloaded(outcome),
        ) => match outcome {
            Err(report) => reported(ErrorKind::NetworkError, plan.url, report),
            Ok(data) => if agrees(plan.checksum, data) {
                enter_extract(index, plan.target)
            } else {
                StateView::Failed(fault(ErrorKind::ChecksumMismatch, plan.url))
            },
        },
        (StateView::ExtractSources { index, file, format }, EventView::Extracted(failure)) => {
            match failure {
                None => enter_fetch(build.package->0, index + 1),
                Some(report) => reported(ErrorKind::ExtractionFailure, file, report),
            }
        },
        (StateView::RunSteps { index }, EventView::StepFinished(failure)) => match failure {
            None => enter_steps(build.package->0, index + 1),
            Some(report) => reported(
                ErrorKind::StepExecutionFailure,
                build.package->0.steps[index].name,
                report,
            ),
        },
        (state, _) => state,
    }
}

/// The build that follows `build` when `event` is reported: the package is
/// the one that the manifest described, once it is loaded, and the state is
/// [`next_state`].
pub open spec fn next(build: BuildView, event: EventView) -> BuildView {
    BuildView {
        options: build.options,
        package: match (build.state, event) {
            (StateView::LoadManifest, EventView::ManifestRead(raw)) => match loaded(raw) {
                Ok(package) => Some(package),
                Err(_) => None,
            },
            _ => build.package,
        },
        state: next_state(build, event),
    }
}

/// The build after the events `events` have been reported one after another.
pub open spec fn run(build: BuildView, events: Seq<EventView>) -> BuildView
    decreases events.len(),
{
    if events.len() == 0 {
        build
    } else {
        next(run(build, events.drop_last()), events.last())
    }
}

/// What the step `step` asks for: a command is run through its runner, with
/// the command as the last argument; a move relocates its path into the
/// output directory of the package.
pub open spec fn step_action(step: StepView, package: PackageView) -> ActionView {
    match step.variant {
        StepVariantView::Command { runner, command } => ActionView::Run {
            step: step.name,
            invocation: InvocationView {
                program: runner_invocation(runner).program,
                args: runner_invocation(runner).args.push(command),
            },
        },
        StepVariantView::Move { path } => ActionView::Move {
            step: step.name,
            path,
            directory: output_directory(package.directories),
        },
    }
}

/// The action that `build` waits for.
pub open spec fn pending_action(build: BuildView) -> ActionView {
    match build.state {
        StateView::LoadManifest => ActionView::ReadManifest { file: "package.toml"@ },
        StateView::ClearSources => ActionView::ClearSources { directory: "sources/"@ },
        StateView::FetchSources { index, plan, downloading } => if downloading {
            ActionView::Download { url: plan.url, file: plan.target }
        } else {
            ActionView::ProbeCache { file: plan.target }
        },
        StateView::ExtractSources { index, file, format } => ActionView::Extract {
            file,
            format,
            directory: "sources/"@,
        },
        StateView::RunSteps { index } => step_action(
            build.package->0.steps[index],
            build.package->0,
        ),
        StateView::Done => ActionView::Succeed,
        StateView::Failed(e) => ActionView::Fail(e),
    }
}

/// One build of one package.
pub struct Build {
    options: BuildOptions,
    package: Option<Package>,
    state: BuildState,
}

impl View for Build {
    type V = BuildView;

    closed spec fn view(&self) -> BuildView {
        BuildView {
            options: self.options,
            package: match self.package {
                Some(package) => Some(package@),
                None => None,
            },
            state: self.state@,
        }
    }
}

/// Takes up the step `index` of `package`.
fn begin_steps(package: &Package, index: usize) -> (state: BuildState)
    ensures
        state@ == enter_steps(package@, index as int),
{
    if index < package.steps.len() {
        BuildState::RunSteps { index }
    } else {
        BuildState::Done
    }
}

/// Takes up the source `index` of `package`.
fn begin_fetch(package: &Package, index: usize) -> (state: BuildState)
    ensures
        state@ == enter_fetch(package@, index as int),
{
    if index < package.sources.len() {
        match plan_fetch(&package.sources[index], &package.info) {
            Ok(plan) => BuildState::FetchSources { index, plan, downloading: false },
            Err(e) => BuildState::Failed(e),
        }
    } else {
        begin_steps(package, 0)
    }
}

/// Takes up the extraction of `file`.
fn begin_extract(index: usize, file: String) -> (state: BuildState)
    ensures
        state@ == enter_extract(index as int, file@),
{
    match archive_format(file.as_str()) {
        Ok(format) => BuildState::ExtractSources { index, file, format },
        Err(e) => BuildState::Failed(e),
    }
}

/// What `step` asks for.
fn action_of(step: &Step, package: &Package) -> (action: Action)
    ensures
        action@ == step_action(step@, package@),
{
    match &step.variant {
        StepVariant::Command { runner, command } => Action::Run {
            step: step.name.clone(),
            invocation: runner.into_command().arg(command.as_str()),
        },
        StepVariant::Move { path } => Action::Move {
            step: step.name.clone(),
            path: path.clone(),
            directory: package.output_directory(),
        },
    }
}

impl Build {
    #[verifier::type_invariant]
    spec fn well_formed(self) -> bool {
        consistent(self@)
    }

    /// A build that has not begun: it waits for the manifest.
    pub fn new(options: BuildOptions) -> (build: Build)
        ensures
            build@ == (BuildView { options, package: None, state: StateView::LoadManifest }),
    {
        Build { options, package: None, state: BuildState::LoadManifest }
    }

    /// Where the build stands.
    pub fn state(&self) -> (state: &BuildState)
        ensures
            state@ == self@.state,
    {
        &self.state
    }

    /// The package, once the manifest is loaded.
    pub fn package(&self) -> (package: Option<&Package>)
        ensures
            match package {
                Some(package) => self@.package == Some(package@),
                None => self@.package is None,
            },
    {
        self.package.as_ref()
    }

    /// Whether the build has ended, in success or in failure.
    pub fn is_finished(&self) -> (finished: bool)
        ensures
            finished == (self@.state is Done || self@.state is Failed),
    {
        match &self.state {
            BuildState::Done => true,
            BuildState::Failed(_) => true,
            _ => false,
        }
    }

    /// The action that the build waits for. A build that has ended waits
    /// for its result to be reported.
    pub fn pending(&self) -> (action: Action)
        ensures
            action@ == pending_action(self@),
            consistent(self@),
    {
        proof {
            use_type_invariant(self);
        }
        match &self.state {
            BuildState::LoadManifest => Action::ReadManifest {
                file: String::from_str("package.toml"),
            },
            BuildState::ClearSources => Action::ClearSources {
                directory: String::from_str("sources/"),
            },
            BuildState::FetchSources { index, plan, downloading } => if *downloading {
                Action::Download { url: plan.url.clone(), file: plan.target.clone() }
            } else {
                Action::ProbeCache { file: plan.target.clone() }
            },
            BuildState::ExtractSources { index, file, format } => Action::Extract {
                file: file.clone(),
                format: *format,
                directory: String::from_str("sources/"),
            },
            BuildState::RunSteps { index } => match &self.package {
                Some(package) => {
                    assert(views(package.steps@)[*index as int] == package.steps@[*index as int]@);
                    action_of(&package.steps[*index], package)
                },
                None => unreached(),
            },
            BuildState::Done => Action::Succeed,
            BuildState::Failed(e) => Action::Fail(
                BuildError::reported(e.kind, e.subject.clone(), e.detail.clone()),
            ),
        }
    }

    /// Takes note of `event` and moves on. An event that does not answer
    /// the pending action leaves the build as it is.
    pub fn advance(self, event: Event) -> (build: Build)
        ensures
            build@ == next(self@, event@),
            consistent(build@),
    {
        proof {
            use_type_invariant(&self);
            lemma_next_consistent(self@, event@);
        }
        let Build { options, package, state } = self;
        match (state, event) {
            (BuildState::LoadManifest, Event::ManifestMissing) => Build {
                options,
                package,
                state: BuildState::Failed(
                    BuildError::new(ErrorKind::ManifestNotFound, String::from_str("package.toml")),
                ),
            },
            (BuildState::LoadManifest, Event::ManifestInvalid(report)) => Build {
                options,
                package,
                state: BuildState::Failed(
                    BuildError::reported(
                        ErrorKind::ManifestParseError,
                        String::from_str("package.toml"),
                        report,
                    ),
                ),
            },
            (BuildState::LoadManifest, Event::ManifestRead(raw)) => match Package::load(raw) {
                Err(e) => Build { options, package: None, state: BuildState::Failed(e) },
                Ok(loaded) => {
                    let state = if options.clear_sources {
                        BuildState::ClearSources
                    } else {
                        begin_fetch(&loaded, 0)
                    };
                    Build { options, package: Some(loaded), state }
                },
            },
            (BuildState::ClearSources, Event::SourcesCleared(outcome)) => {
                let state = match (outcome, &package) {
                    (Ok(_), Some(loaded)) => begin_fetch(loaded, 0),
                    (Ok(_), None) => unreached(),
                    (Err(report), _) => BuildState::Failed(
                        BuildError::reported(
                            ErrorKind::ExtractionFailure,
                            String::from_str("sources/"),
                            report,
                        ),
                    ),
                };
                Build { options, package, state }
            },
            (
                BuildState::FetchSources { index, plan, downloading: false },
                Event::CacheProbed(existing),
            ) => {
                let decision = match &existing {
                    Some(data) => cache_decision(Some(data.as_slice()), &plan.checksum),
                    None => cache_decision(None, &plan.checksum),
                };
                let state = match decision {
                    FetchDecision::UseCached => begin_extract(index, plan.target),
                    FetchDecision::Download => BuildState::FetchSources {
                        index,
                        plan,
                        downloading: true,
                    },
                };
                Build { options, package, state }
            },
            (
                BuildState::FetchSources { index, plan, downloading: true },
                Event::Downloaded(outcome),
            ) => {
                let state = match outcome {
                    Err(report) => BuildState::Failed(
                        BuildError::reported(ErrorKind::NetworkError, plan.url, report),
                    ),
                    Ok(data) => match verify_download(data.as_slice(), &plan) {
                        Ok(_) => begin_extract(index, plan.target),
                        Err(e) => BuildState::Failed(e),
                    },
                };
                Build { options, package, state }
            },
            (BuildState::ExtractSources { index, file, format }, Event::Extracted(outcome)) => {
                let state = match (outcome, &package) {
                    (Ok(_), Some(loaded)) => {
                        let count = loaded.sources.len();
                        assert(index < count) by {
                            assert(views(loaded.sources@).len() == count);
                        }
                        begin_fetch(loaded, index + 1)
                    },
                    (Ok(_), None) => unreached(),
                    (Err(report), _) => BuildState::Failed(
                        BuildError::reported(ErrorKind::ExtractionFailure, file, report),
                    ),
                };
                Build { options, package, state }
            },
            (BuildState::RunSteps { index }, Event::StepFinished(outcome)) => {
                let state = match (outcome, &package) {
                    (Ok(_), Some(loaded)) => {
                        let count = loaded.steps.len();
                        assert(index < count) by {
                            assert(views(loaded.steps@).len() == count);
                        }
                        begin_steps(loaded, index + 1)
                    },
                    (Err(report), Some(loaded)) => {
                        assert(views(loaded.steps@)[index as int] == loaded.steps@[index as int]@);
                        BuildState::Failed(
                            BuildError::reported(
                                ErrorKind::StepExecutionFailure,
                                loaded.steps[index].name.clone(),
                                report,
                            ),
                        )
                    },
                    (_, None) => unreached(),
                };
                Build { options, package, state }
            },
            (state, _) => Build { options, package, state },
        }
    }
}

/// Whatever is reported, a build stays a state that a build can be in.
pub proof fn lemma_next_consistent(build: BuildView, event: EventView)
    requires
        consistent(build),
    ensures
        consistent(next(build, event)),
{
    match (build.state, event) {
        (StateView::LoadManifest, EventView::ManifestRead(raw)) => {
            lemma_loaded_is_sound(raw);
        },
        _ => {},
    }
}

/// What a manifest is loaded as is a sound package.
pub proof fn lemma_loaded_is_sound(raw: RawPackageView)
    ensures
        loaded(raw) matches Ok(package) ==> sound(package),
{
    if loaded(raw) is Ok {
        crate::package::lemma_good_checksums(raw.sources, 0);
        crate::package::lemma_distinct_names(raw.directories, 0);
    }
}

/// Whether `build` has ended, in success or in failure.
pub open spec fn finished(build: BuildView) -> bool {
    build.state is Done || build.state is Failed
}

/// A build that has ended stays as it is, whatever is reported.
pub proof fn lemma_finished_build_stays(build: BuildView, events: Seq<EventView>)
    requires
        finished(build),
    ensures
        run(build, events) == build,
    decreases events.len(),
{
    if events.len() > 0 {
        lemma_finished_build_stays(build, events.drop_last());
    }
}

/// Whatever is reported, and however often, a build stays a state that a
/// build can be in.
pub proof fn lemma_run_consistent(build: BuildView, events: Seq<EventView>)
    requires
        consistent(build),
    ensures
        consistent(run(build, events)),
    decreases events.len(),
{
    if events.len() > 0 {
        lemma_run_consistent(build, events.drop_last());
        lemma_next_consistent(run(build, events.drop_last()), events.last());
    }
}

/// A target file that is on disk with the declared digest spares the
/// download: the build goes on to the extraction of that file, and what it
/// then waits for is no download.
pub proof fn lemma_cache_hit_spares_download(build: BuildView, data: Seq<u8>)
    requires
        build.state matches StateView::FetchSources { plan, downloading, .. } && !downloading
            && agrees(plan.checksum, data),
    ensures
        next(build, EventView::CacheProbed(Some(data))).state == enter_extract(
            build.state->FetchSources_index,
            build.state->FetchSources_plan.target,
        ),
        !(pending_action(next(build, EventView::CacheProbed(Some(data)))) is Download),
{
}

/// A target file that is missing, or on disk with another digest, is
/// downloaded from the resolved URL of the source.
pub proof fn lemma_cache_miss_downloads(build: BuildView, existing: Option<Seq<u8>>)
    requires
        build.state matches StateView::FetchSources { plan, downloading, .. } && !downloading && (
        existing matches Some(data) ==> !agrees(plan.checksum, data)),
    ensures
        pending_action(next(build, EventView::CacheProbed(existing))) == (ActionView::Download {
            url: build.state->FetchSources_plan.url,
            file: build.state->FetchSources_plan.target,
        }),
{
}

/// A download whose bytes do not have the declared digest fails the build
/// with a checksum mismatch, though the file is on disk in full.
pub proof fn lemma_bad_download_fails(build: BuildView, data: Seq<u8>)
    requires
        build.state matches StateView::FetchSources { plan, downloading, .. } && downloading
            && !agrees(plan.checksum, data),
    ensures
        next(build, EventView::Downloaded(Ok(data))).state == StateView::Failed(
            fault(ErrorKind::ChecksumMismatch, build.state->FetchSources_plan.url),
        ),
{
}

/// A source is extracted only once bytes with the declared digest were
/// reported for it, from the disk or from the download.
pub proof fn lemma_extracted_only_if_verified(build: BuildView, event: EventView)
    requires
        build.state is FetchSources,
        next(build, event).state is ExtractSources,
    ensures
        match event {
            EventView::CacheProbed(Some(data)) => agrees(
                build.state->FetchSources_plan.checksum,
                data,
            ),
            EventView::Downloaded(Ok(data)) => agrees(build.state->FetchSources_plan.checksum, data),
            _ => false,
        },
{
}

/// The sources are taken in the order of the manifest: once the source
/// `index` is extracted, the source `index + 1` is taken up, or the steps if
/// it was the last.
pub proof fn lemma_sources_in_order(build: BuildView)
    requires
        build.state is ExtractSources,
    ensures
        next(build, EventView::Extracted(None)).state == enter_fetch(
            build.package->0,
            build.state->ExtractSources_index + 1,
        ),
{
}

/// The steps run in the order of the manifest: while the step `index` runs
/// the build waits for that step, and once it has succeeded the step
/// `index + 1` runs, or the build is done if it was the last.
pub proof fn lemma_steps_in_order(build: BuildView)
    requires
        build.state is RunSteps,
        build.package is Some,
    ensures
        pending_action(build) == step_action(
            build.package->0.steps[build.state->RunSteps_index],
            build.package->0,
        ),
        next(build, EventView::StepFinished(None)).state == enter_steps(
            build.package->0,
            build.state->RunSteps_index + 1,
        ),
{
}

/// A step that fails ends the build: the failure names that step, and from
/// then on, whatever is reported, the build waits for nothing but the report
/// of that failure; no later step is ever asked for.
pub proof fn lemma_failed_step_ends_build(
    build: BuildView,
    report: Seq<char>,
    events: Seq<EventView>,
)
    requires
        build.state is RunSteps,
        build.package is Some,
    ensures
        ({
            let failure = ErrorView {
                kind: ErrorKind::StepExecutionFailure,
                subject: build.package->0.steps[build.state->RunSteps_index].name,
                detail: report,
            };
            let failed = next(build, EventView::StepFinished(Some(report)));
            &&& failed.state == StateView::Failed(failure)
            &&& run(failed, events) == failed
            &&& pending_action(run(failed, events)) == ActionView::Fail(failure)
        }),
{
    lemma_finished_build_stays(next(build, EventView::StepFinished(Some(report))), events);
}

} // verus!
