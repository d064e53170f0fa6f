//! The package manifest: what a package is, where its sources come from and
//! which steps build it.

use vstd::prelude::*;
use vstd::string::StringExecFns;

use crate::checksum::{parsed, Checksum};
use crate::error::{fault, BuildError, ErrorKind, ErrorView};

verus! {

/// The metadata of a package.
#[derive(Debug, Clone, PartialEq, Eq)]
pub struct Info {
    /// The package's name; never empty in a loaded manifest.
    pub name: String,
    /// The version, shown to the user and substituted for `%{version}`.
    pub version: String,
    pub description: String,
    /// A license expression, such as `MIT OR Apache-2.0`.
    pub license: String,
}

/// The mathematical content of an [`Info`].
pub struct InfoView {
    pub name: Seq<char>,
    pub version: Seq<char>,
    pub description: Seq<char>,
    pub license: Seq<char>,
}

impl View for Info {
    type V = InfoView;

    open spec fn view(&self) -> InfoView {
        InfoView {
            name: self.name@,
            version: self.version@,
            description: self.description@,
            license: self.license@,
        }
    }
}

/// The packages a package depends on. Nothing resolves them yet.
#[derive(Debug, Clone, PartialEq, Eq)]
pub struct Dependencies {
    pub required: Vec<String>,
    pub optional: Vec<String>,
    pub build: Vec<String>,
}

/// One remote archive to fetch, verify and extract.
#[derive(Debug, Clone, PartialEq, Eq)]
pub struct Source {
    /// Where the archive is; may hold `%{version}`.
    pub url: String,
    /// The expected digest, as `<algorithm>:<hex digest>`.
    pub checksum: String,
}

/// The mathematical content of a [`Source`].
pub struct SourceView {
    pub url: Seq<char>,
    pub checksum: Seq<char>,
}

impl View for Source {
    type V = SourceView;

    open spec fn view(&self) -> SourceView {
        SourceView { url: self.url@, checksum: self.checksum@ }
    }
}

/// How a command is turned into a process.
#[derive(Debug, Clone, Copy, PartialEq, Eq, Structural)]
pub enum Runner {
    /// The POSIX shell, given the command after `-c`.
    Shell,
}

/// What a step does.
#[derive(Debug, Clone, PartialEq, Eq)]
pub enum StepVariant {
    /// Run `command` through `runner`.
    Command { runner: Runner, command: String },
    /// Relocate `path` into the package's output directory.
    Move { path: String },
}

/// The mathematical content of a [`StepVariant`].
pub enum StepVariantView {
    Command { runner: Runner, command: Seq<char> },
    Move { path: Seq<char> },
}

impl View for StepVariant {
    type V = StepVariantView;

    open spec fn view(&self) -> StepVariantView {
        match self {
            StepVariant::Command { runner, command } => StepVariantView::Command {
                runner: *runner,
                command: command@,
            },
            StepVariant::Move { path } => StepVariantView::Move { path: path@ },
        }
    }
}

/// One unit of build work.
#[derive(Debug, Clone, PartialEq, Eq)]
pub struct Step {
    /// The name under which the step is reported.
    pub name: String,
    pub variant: StepVariant,
}

/// The mathematical content of a [`Step`].
pub struct StepView {
    pub name: Seq<char>,
    pub variant: StepVariantView,
}

impl View for Step {
    type V = StepView;

    open spec fn view(&self) -> StepView {
        StepView { name: self.name@, variant: self.variant@ }
    }
}

/// A directory of the package, under the logical name the manifest gives it.
#[derive(Debug, Clone, PartialEq, Eq)]
pub struct Directory {
    pub name: String,
    pub path: String,
}

/// The mathematical content of a [`Directory`].
pub struct DirectoryView {
    pub name: Seq<char>,
    pub path: Seq<char>,
}

impl View for Directory {
    type V = DirectoryView;

    open spec fn view(&self) -> DirectoryView {
        DirectoryView { name: self.name@, path: self.path@ }
    }
}

/// The mathematical contents of the items of a sequence.
pub open spec fn views<T: View>(items: Seq<T>) -> Seq<T::V> {
    items.map_values(|item: T| item@)
}

/// The description of one package.
#[derive(Debug, Clone, PartialEq, Eq)]
pub struct Package {
    pub info: Info,
    pub dependencies: Option<Dependencies>,
    /// The sources, in the order in which they are fetched.
    pub sources: Vec<Source>,
    /// The steps, in the order in which they run.
    pub steps: Vec<Step>,
    /// The declared directories; no logical name occurs twice.
    pub directories: Vec<Directory>,
}

/// The mathematical content of a [`Package`]. The dependencies, which
/// nothing reads, stand in it as they are.
pub struct PackageView {
    pub info: InfoView,
    pub dependencies: Option<Dependencies>,
    pub sources: Seq<SourceView>,
    pub steps: Seq<StepView>,
    pub directories: Seq<DirectoryView>,
}

impl View for Package {
    type V = PackageView;

    open spec fn view(&self) -> PackageView {
        PackageView {
            info: self.info@,
            dependencies: self.dependencies,
            sources: views(self.sources@),
            steps: views(self.steps@),
            directories: views(self.directories@),
        }
    }
}

/// A program and the arguments it is started with.
#[derive(Debug, Clone, PartialEq, Eq)]
pub struct Invocation {
    pub program: String,
    pub args: Vec<String>,
}

/// The mathematical content of an [`Invocation`].
pub struct InvocationView {
    pub program: Seq<char>,
    pub args: Seq<Seq<char>>,
}

impl View for Invocation {
    type V = InvocationView;

    open spec fn view(&self) -> InvocationView {
        InvocationView { program: self.program@, args: self.args@.map_values(|a: String| a@) }
    }
}

impl Invocation {
    /// The invocation of `program` without arguments.
    pub fn new(program: &str) -> (invocation: Invocation)
        ensures
            invocation@ == (InvocationView { program: program@, args: Seq::empty() }),
    {
        let invocation = Invocation { program: String::from_str(program), args: Vec::new() };
        assert(invocation.args@.map_values(|a: String| a@) =~= Seq::<Seq<char>>::empty());
        invocation
    }

    /// The same invocation with `arg` added as its last argument.
    pub fn arg(self, arg: &str) -> (invocation: Invocation)
        ensures
            invocation@ == (InvocationView { program: self@.program, args: self@.args.push(arg@) }),
    {
        let mut invocation = self;
        invocation.args.push(String::from_str(arg));
        assert(invocation.args@.map_values(|a: String| a@) =~= self.args@.map_values(
            |a: String| a@,
        ).push(arg@));
        invocation
    }
}

/// The identifier under which a manifest refers to `runner`.
pub open spec fn runner_name(runner: Runner) -> Seq<char> {
    match runner {
        Runner::Shell => "shell"@,
    }
}

/// The runner that a manifest calls `name`, if there is one.
pub open spec fn runner_named(name: Seq<char>) -> Option<Runner> {
    if name == "shell"@ {
        Some(Runner::Shell)
    } else {
        None
    }
}

/// How `runner` is started, before the command is added: the shell is
/// `/bin/sh -c`.
pub open spec fn runner_invocation(runner: Runner) -> InvocationView {
    match runner {
        Runner::Shell => InvocationView { program: "/bin/sh"@, args: seq!["-c"@] },
    }
}

impl Runner {
    /// The runner that a manifest calls `s`. An unknown identifier is
    /// refused.
    pub fn from_str(s: &str) -> (result: Result<Runner, BuildError>)
        ensures
            match result {
                Ok(runner) => runner_named(s@) == Some(runner),
                Err(e) => runner_named(s@) is None && e@ == fault(ErrorKind::UnknownRunner, s@),
            },
    {
        let chars = crate::text::chars_of(s);
        assert(chars@.subrange(0, chars@.len() as int) == s@);
        if crate::text::spells(&chars, 0, chars.len(), "shell") {
            Ok(Runner::Shell)
        } else {
            Err(BuildError::new(ErrorKind::UnknownRunner, String::from_str(s)))
        }
    }

    /// The identifier of this runner.
    pub fn to_string(&self) -> (name: String)
        ensures
            name@ == runner_name(*self),
    {
        match self {
            Runner::Shell => String::from_str("shell"),
        }
    }

    /// The invocation that runs a command once the command is added as its
    /// last argument.
    pub fn into_command(&self) -> (invocation: Invocation)
        ensures
            invocation@ == runner_invocation(*self),
    {
        match self {
            Runner::Shell => {
                let invocation = Invocation::new("/bin/sh").arg("-c");
                assert(invocation@.args =~= seq!["-c"@]);
                invocation
            },
        }
    }
}

/// The identifier of a runner names that runner.
pub proof fn lemma_runner_name_round_trip(runner: Runner)
    ensures
        runner_named(runner_name(runner)) == Some(runner),
{
}

/// Whether `expression` is a valid license expression, as
/// `spdx::Expression::parse` decides it.
pub uninterp spec fn spdx_accepts(expression: Seq<char>) -> bool;

/// `spdx::Expression::parse`: whether the text parses, in strict mode, as an
/// SPDX license expression.
#[verifier::external_body]
fn license_parses(expression: &str) -> (ok: bool)
    ensures
        ok == spdx_accepts(expression@),
{
    spdx::Expression::parse(expression).is_ok()
}

/// What is wrong with the metadata `info`, if anything: an empty name, or a
/// license that is no license expression.
pub open spec fn info_fault(info: InfoView) -> Option<ErrorView> {
    if info.name.len() == 0 {
        Some(fault(ErrorKind::ManifestParseError, "info.name"@))
    } else if !spdx_accepts(info.license) {
        Some(fault(ErrorKind::InvalidLicenseExpression, info.license))
    } else {
        None
    }
}

impl Info {
    /// Whether the metadata is what a loaded manifest holds: a name that is
    /// not empty and a license that is a license expression.
    pub open spec fn wf(&self) -> bool {
        info_fault(self@) is None
    }

    /// Checks the metadata of a manifest.
    pub fn validate(&self) -> (result: Result<(), BuildError>)
        ensures
            match result {
                Ok(_) => info_fault(self@) is None,
                Err(e) => info_fault(self@) == Some(e@),
            },
    {
        if self.name.as_str().unicode_len() == 0 {
            Err(BuildError::new(ErrorKind::ManifestParseError, String::from_str("info.name")))
        } else if !license_parses(self.license.as_str()) {
            Err(BuildError::new(ErrorKind::InvalidLicenseExpression, self.license.clone()))
        } else {
            Ok(())
        }
    }

    /// The name of the archive in which the built package is shipped:
    /// `<name>_<version>.peach`.
    pub fn tarball_name(&self) -> (name: String)
        ensures
            name@ == self.name@ + "_"@ + self.version@ + ".peach"@,
    {
        let mut name = self.name.clone();
        name.append("_");
        name.append(self.version.as_str());
        name.append(".peach");
        name
    }
}

/// A step as a manifest writes it: a name and whichever of the fields of the
/// variants are present.
#[derive(Debug, Clone, PartialEq, Eq)]
pub struct RawStep {
    pub name: String,
    pub runner: Option<String>,
    pub command: Option<String>,
    pub path: Option<String>,
}

/// The characters of an optional string.
pub open spec fn text_of(s: Option<String>) -> Option<Seq<char>> {
    match s {
        Some(s) => Some(s@),
        None => None,
    }
}

/// The mathematical content of a [`RawStep`].
pub struct RawStepView {
    pub name: Seq<char>,
    pub runner: Option<Seq<char>>,
    pub command: Option<Seq<char>>,
    pub path: Option<Seq<char>>,
}

impl View for RawStep {
    type V = RawStepView;

    open spec fn view(&self) -> RawStepView {
        RawStepView {
            name: self.name@,
            runner: text_of(self.runner),
            command: text_of(self.command),
            path: text_of(self.path),
        }
    }
}

/// The step that `raw` describes.
///
/// The variant is decided by the fields that are present, in this order: a
/// step with both `runner` and `command` is a command, and its runner must be
/// known; any other step with a `path` is a move; a step with neither is
/// refused.
pub open spec fn resolved(raw: RawStepView) -> Result<StepView, ErrorView> {
    if raw.runner is Some && raw.command is Some {
        match runner_named(raw.runner->0) {
            Some(runner) => Ok(
                StepView {
                    name: raw.name,
                    variant: StepVariantView::Command { runner, command: raw.command->0 },
                },
            ),
            None => Err(fault(ErrorKind::UnknownRunner, raw.runner->0)),
        }
    } else if raw.path is Some {
        Ok(StepView { name: raw.name, variant: StepVariantView::Move { path: raw.path->0 } })
    } else {
        Err(fault(ErrorKind::ManifestParseError, raw.name))
    }
}

impl Step {
    /// Decides which step `raw` describes.
    pub fn resolve(raw: &RawStep) -> (result: Result<Step, BuildError>)
        ensures
            match result {
                Ok(step) => resolved(raw@) == Ok::<StepView, ErrorView>(step@),
                Err(e) => resolved(raw@) == Err::<StepView, ErrorView>(e@),
            },
    {
        let name = raw.name.clone();
        match (&raw.runner, &raw.command) {
            (Some(runner), Some(command)) => {
                match Runner::from_str(runner.as_str()) {
                    Ok(runner) => Ok(
                        Step { name, variant: StepVariant::Command { runner, command: command.clone() } },
                    ),
                    Err(e) => Err(e),
                }
            },
            _ => match &raw.path {
                Some(path) => Ok(Step { name, variant: StepVariant::Move { path: path.clone() } }),
                None => Err(BuildError::new(ErrorKind::ManifestParseError, name)),
            },
        }
    }
}

/// A package as a manifest writes it, before its rules are checked.
#[derive(Debug, Clone, PartialEq, Eq)]
pub struct RawPackage {
    pub info: Info,
    pub dependencies: Option<Dependencies>,
    pub sources: Vec<Source>,
    pub steps: Vec<RawStep>,
    pub directories: Vec<Directory>,
}

/// The mathematical content of a [`RawPackage`].
pub struct RawPackageView {
    pub info: InfoView,
    pub dependencies: Option<Dependencies>,
    pub sources: Seq<SourceView>,
    pub steps: Seq<RawStepView>,
    pub directories: Seq<DirectoryView>,
}

impl View for RawPackage {
    type V = RawPackageView;

    open spec fn view(&self) -> RawPackageView {
        RawPackageView {
            info: self.info@,
            dependencies: self.dependencies,
            sources: views(self.sources@),
            steps: views(self.steps@),
            directories: views(self.directories@),
        }
    }
}

/// Why the checksum of the first source at or after `from` that has a bad
/// one is bad.
pub open spec fn first_bad_checksum(sources: Seq<SourceView>, from: int) -> Option<ErrorView>
    decreases sources.len() - from,
{
    if from < 0 || from >= sources.len() {
        None
    } else {
        match parsed(sources[from].checksum) {
            Err(e) => Some(e),
            Ok(_) => first_bad_checksum(sources, from + 1),
        }
    }
}

/// The steps that `raw[from..]` describe, in order, or why the first of them
/// that describes none does not.
pub open spec fn resolved_from(raw: Seq<RawStepView>, from: int) -> Result<Seq<StepView>, ErrorView>
    decreases raw.len() - from,
{
    if from < 0 || from >= raw.len() {
        Ok(Seq::empty())
    } else {
        match resolved(raw[from]) {
            Err(e) => Err(e),
            Ok(step) => match resolved_from(raw, from + 1) {
                Err(e) => Err(e),
                Ok(rest) => Ok(seq![step] + rest),
            },
        }
    }
}

/// Whether the name of `directories[at]` is also that of an earlier entry.
pub open spec fn repeats(directories: Seq<DirectoryView>, at: int) -> bool {
    exists|earlier: int| 0 <= earlier < at && directories[earlier].name == directories[at].name
}

/// The name of the first entry at or after `from` that repeats an earlier
/// name.
pub open spec fn first_repeated(directories: Seq<DirectoryView>, from: int) -> Option<Seq<char>>
    decreases directories.len() - from,
{
    if from < 0 || from >= directories.len() {
        None
    } else if repeats(directories, from) {
        Some(directories[from].name)
    } else {
        first_repeated(directories, from + 1)
    }
}

/// Whether `package` is what a loaded manifest holds: sound metadata, a
/// readable checksum on every source, and no directory name twice.
pub open spec fn sound(package: PackageView) -> bool {
    &&& info_fault(package.info) is None
    &&& forall|i: int| 0 <= i < package.sources.len() ==> parsed(package.sources[i].checksum) is Ok
    &&& forall|i: int, j: int|
        0 <= i < j < package.directories.len() ==> package.directories[i].name
            != package.directories[j].name
}

/// The package that `raw` describes, or the first thing wrong with it: the
/// metadata, then the checksums of the sources in order, then the steps in
/// order, then a directory name that occurs twice.
pub open spec fn loaded(raw: RawPackageView) -> Result<PackageView, ErrorView> {
    if info_fault(raw.info) is Some {
        Err(info_fault(raw.info)->0)
    } else if first_bad_checksum(raw.sources, 0) is Some {
        Err(first_bad_checksum(raw.sources, 0)->0)
    } else {
        match resolved_from(raw.steps, 0) {
            Err(e) => Err(e),
            Ok(steps) => match first_repeated(raw.directories, 0) {
                Some(name) => Err(fault(ErrorKind::ManifestParseError, name)),
                None => Ok(
                    PackageView {
                        info: raw.info,
                        dependencies: raw.dependencies,
                        sources: raw.sources,
                        steps,
                        directories: raw.directories,
                    },
                ),
            },
        }
    }
}

/// Where no source from `from` on has a bad checksum, each of them has a
/// readable one.
pub proof fn lemma_good_checksums(sources: Seq<SourceView>, from: int)
    requires
        0 <= from,
        first_bad_checksum(sources, from) is None,
    ensures
        forall|i: int| from <= i < sources.len() ==> parsed(sources[i].checksum) is Ok,
    decreases sources.len() - from,
{
    if from < sources.len() {
        lemma_good_checksums(sources, from + 1);
    }
}

/// Where no entry from `from` on repeats an earlier name, no name of an
/// entry from `from` on is that of an earlier entry.
pub proof fn lemma_distinct_names(directories: Seq<DirectoryView>, from: int)
    requires
        0 <= from,
        first_repeated(directories, from) is None,
    ensures
        forall|i: int, j: int|
            0 <= i < j < directories.len() && from <= j ==> directories[i].name
                != directories[j].name,
    decreases directories.len() - from,
{
    if from < directories.len() {
        lemma_distinct_names(directories, from + 1);
        assert forall|i: int| 0 <= i < from implies directories[i].name
            != directories[from].name by {
            if directories[i].name == directories[from].name {
                assert(repeats(directories, from));
            }
        }
    }
}

/// Checks the checksums of `sources`.
fn check_sources(sources: &Vec<Source>) -> (result: Result<(), BuildError>)
    ensures
        match result {
            Ok(_) => first_bad_checksum(views(sources@), 0) is None && forall|i: int|
                0 <= i < sources@.len() ==> parsed(#[trigger] sources@[i]@.checksum) is Ok,
            Err(e) => first_bad_checksum(views(sources@), 0) == Some(e@),
        },
{
    let mut i: usize = 0;
    while i < sources.len()
        invariant
            i <= sources@.len(),
            first_bad_checksum(views(sources@), 0) == first_bad_checksum(views(sources@), i as int),
            forall|k: int| 0 <= k < i ==> parsed(#[trigger] sources@[k]@.checksum) is Ok,
        decreases sources@.len() - i,
    {
        match Checksum::parse(sources[i].checksum.as_str()) {
            Ok(_) => {},
            Err(e) => {
                return Err(e);
            },
        }
        i += 1;
    }
    Ok(())
}

/// Resolves `raw`, step by step.
fn resolve_steps(raw: &Vec<RawStep>) -> (result: Result<Vec<Step>, BuildError>)
    ensures
        match result {
            Ok(steps) => resolved_from(views(raw@), 0) == Ok::<Seq<StepView>, ErrorView>(
                views(steps@),
            ),
            Err(e) => resolved_from(views(raw@), 0) == Err::<Seq<StepView>, ErrorView>(e@),
        },
{
    let mut steps: Vec<Step> = Vec::new();
    let mut i: usize = 0;
    assert(views(steps@) =~= Seq::<StepView>::empty());
    while i < raw.len()
        invariant
            i <= raw@.len(),
            resolved_from(views(raw@), 0) == match resolved_from(views(raw@), i as int) {
                Ok(rest) => Ok::<Seq<StepView>, ErrorView>(views(steps@) + rest),
                Err(e) => Err(e),
            },
        decreases raw@.len() - i,
    {
        let ghost before = views(steps@);
        match Step::resolve(&raw[i]) {
            Ok(step) => {
                steps.push(step);
                proof {
                    assert(views(steps@) =~= before.push(step@));
                    match resolved_from(views(raw@), i + 1) {
                        Ok(rest) => {
                            assert(before.push(step@) + rest =~= before + (seq![step@] + rest));
                        },
                        Err(_) => {},
                    }
                }
            },
            Err(e) => {
                return Err(e);
            },
        }
        i += 1;
    }
    assert(views(steps@) + Seq::<StepView>::empty() =~= views(steps@));
    Ok(steps)
}

/// Looks for a directory name that occurs twice.
fn check_directories(directories: &Vec<Directory>) -> (result: Result<(), BuildError>)
    ensures
        match result {
            Ok(_) => first_repeated(views(directories@), 0) is None && forall|i: int, j: int|
                0 <= i < j < directories@.len() ==> directories@[i]@.name != directories@[j]@.name,
            Err(e) => first_repeated(views(directories@), 0) is Some && e@ == fault(
                ErrorKind::ManifestParseError,
                first_repeated(views(directories@), 0)->0,
            ),
        },
{
    let mut i: usize = 0;
    while i < directories.len()
        invariant
            i <= directories@.len(),
            first_repeated(views(directories@), 0) == first_repeated(
                views(directories@),
                i as int,
            ),
            forall|a: int, b: int|
                0 <= a < b < i ==> directories@[a]@.name != directories@[b]@.name,
        decreases directories@.len() - i,
    {
        let mut j: usize = 0;
        while j < i
            invariant
                j <= i < directories@.len(),
                first_repeated(views(directories@), 0) == first_repeated(
                    views(directories@),
                    i as int,
                ),
                forall|a: int| 0 <= a < j ==> directories@[a]@.name != directories@[i as int]@.name,
            decreases i - j,
        {
            if directories[j].name == directories[i].name {
                assert(views(directories@)[j as int].name == views(directories@)[i as int].name);
                assert(repeats(views(directories@), i as int));
                return Err(
                    BuildError::new(ErrorKind::ManifestParseError, directories[i].name.clone()),
                );
            }
            j += 1;
        }
        assert(!repeats(views(directories@), i as int)) by {
            if repeats(views(directories@), i as int) {
                let earlier = choose|earlier: int|
                    0 <= earlier < i && views(directories@)[earlier].name == views(
                        directories@,
                    )[i as int].name;
                assert(directories@[earlier]@.name == directories@[i as int]@.name);
            }
        }
        i += 1;
    }
    Ok(())
}

/// The path declared under the logical name `name` by the first entry at or
/// after `from` that has this name.
pub open spec fn directory_path(
    directories: Seq<DirectoryView>,
    name: Seq<char>,
    from: int,
) -> Option<Seq<char>>
    decreases directories.len() - from,
{
    if from < 0 || from >= directories.len() {
        None
    } else if directories[from].name == name {
        Some(directories[from].path)
    } else {
        directory_path(directories, name, from + 1)
    }
}

/// Where a move step puts what it relocates: the directory that the manifest
/// declares under the logical name `output`, or `output` in the working
/// directory if it declares none.
pub open spec fn output_directory(directories: Seq<DirectoryView>) -> Seq<char> {
    match directory_path(directories, "output"@, 0) {
        Some(path) => path,
        None => "output"@,
    }
}

impl Package {
    /// The directory into which move steps relocate their paths.
    pub fn output_directory(&self) -> (path: String)
        ensures
            path@ == output_directory(self@.directories),
    {
        let wanted = String::from_str("output");
        let mut i: usize = 0;
        while i < self.directories.len()
            invariant
                i <= self.directories@.len(),
                wanted@ == "output"@,
                directory_path(views(self.directories@), "output"@, 0) == directory_path(
                    views(self.directories@),
                    "output"@,
                    i as int,
                ),
            decreases self.directories@.len() - i,
        {
            if self.directories[i].name == wanted {
                return self.directories[i].path.clone();
            }
            i += 1;
        }
        wanted
    }

    /// Whether the package is what a loaded manifest holds.
    pub open spec fn wf(&self) -> bool {
        sound(self@)
    }

    /// Checks the rules of a manifest and resolves its steps.
    pub fn load(raw: RawPackage) -> (result: Result<Package, BuildError>)
        ensures
            match result {
                Ok(package) => loaded(raw@) == Ok::<PackageView, ErrorView>(package@)
                    && package.wf(),
                Err(e) => loaded(raw@) == Err::<PackageView, ErrorView>(e@),
            },
    {
        match raw.info.validate() {
            Ok(_) => {},
            Err(e) => {
                return Err(e);
            },
        }
        match check_sources(&raw.sources) {
            Ok(_) => {},
            Err(e) => {
                return Err(e);
            },
        }
        let steps = match resolve_steps(&raw.steps) {
            Ok(steps) => steps,
            Err(e) => {
                return Err(e);
            },
        };
        match check_directories(&raw.directories) {
            Ok(_) => {},
            Err(e) => {
                return Err(e);
            },
        }
        let package = Package {
            info: raw.info,
            dependencies: raw.dependencies,
            sources: raw.sources,
            steps,
            directories: raw.directories,
        };
        Ok(package)
    }
}

} // verus!
