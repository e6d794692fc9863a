//! Invocations of the node's two companion programs: where the programs are
//! found, what an invocation is made of, and what its end means.

use crate::error::{CommandError, ExecutionError, LocationError};
use crate::path::{parent_of, path_parent};
use crate::text::{join_path, joined, str_eq};
use vstd::prelude::*;
use vstd::string::*;

pub mod provider;
pub mod yagna;

pub use provider::{ProviderConfig, RuntimeInfo, YaProviderCommand};
pub use yagna::{Id, YagnaCommand};

verus! {

/// The largest number of symbolic links followed from the running binary to the
/// file it stands for.
pub const MAX_LINK_HOPS: usize = 5;

/// A program to run, its arguments in order, and the environment variables set
/// for it beyond those it inherits.
#[derive(Debug, PartialEq, Eq)]
pub struct CommandSpec {
    pub program: String,
    pub args: Vec<String>,
    pub env: Vec<(String, String)>,
}

/// A `CommandSpec` as characters.
pub struct CommandSpecView {
    pub program: Seq<char>,
    pub args: Seq<Seq<char>>,
    pub env: Seq<(Seq<char>, Seq<char>)>,
}

impl View for CommandSpec {
    type V = CommandSpecView;

    open spec fn view(&self) -> CommandSpecView {
        CommandSpecView {
            program: self.program@,
            args: self.args.deep_view(),
            env: self.env.deep_view(),
        }
    }
}

/// The place of the first setting of `key` in `env`, or the length of `env`
/// where `key` is not set.
pub open spec fn position(env: Seq<(Seq<char>, Seq<char>)>, key: Seq<char>) -> int
    decreases env.len(),
{
    if env.len() == 0 {
        0
    } else if env[0].0 == key {
        0
    } else {
        1 + position(env.drop_first(), key)
    }
}

/// `position` is the place before which `key` is not set and at which it is,
/// if it is set at all.
pub proof fn lemma_position(env: Seq<(Seq<char>, Seq<char>)>, key: Seq<char>, at: int)
    requires
        0 <= at <= env.len(),
        forall|k: int| 0 <= k < at ==> (#[trigger] env[k]).0 != key,
        at < env.len() ==> env[at].0 == key,
    ensures
        position(env, key) == at,
    decreases env.len(),
{
    if at > 0 {
        let rest = env.drop_first();
        assert(env[0].0 != key);
        assert forall|k: int| 0 <= k < at - 1 implies (#[trigger] rest[k]).0 != key by {
            assert(rest[k] == env[k + 1]);
        }
        if at < env.len() {
            assert(rest[at - 1] == env[at]);
        }
        lemma_position(rest, key, at - 1);
    }
}

/// `position` lies within `env` or at its end; the variable is set at it, if
/// within, and nowhere, if at the end.
pub proof fn lemma_position_in_range(env: Seq<(Seq<char>, Seq<char>)>, key: Seq<char>)
    ensures
        0 <= position(env, key) <= env.len(),
        position(env, key) < env.len() ==> env[position(env, key)].0 == key,
        position(env, key) == env.len() ==> forall|k: int|
            0 <= k < env.len() ==> (#[trigger] env[k]).0 != key,
    decreases env.len(),
{
    if env.len() > 0 && env[0].0 != key {
        let rest = env.drop_first();
        lemma_position_in_range(rest, key);
        if position(env, key) == env.len() {
            assert forall|k: int| 0 <= k < env.len() implies (#[trigger] env[k]).0 != key by {
                if k > 0 {
                    assert(rest[k - 1] == env[k]);
                }
            }
        } else {
            assert(rest[position(rest, key)] == env[position(env, key)]);
        }
    }
}

/// Setting a variable leaves no variable set twice, and the variable set to
/// the value given.
pub proof fn lemma_with_env_keeps_wf(spec: CommandSpecView, key: Seq<char>, value: Seq<char>)
    requires
        spec.wf(),
    ensures
        spec.with_env(key, value).wf(),
        ({
            let env = spec.with_env(key, value).env;
            let at = position(spec.env, key);
            0 <= at < env.len() && env[at] == (key, value)
        }),
        spec.with_env(key, value).env.len() == spec.env.len() + if position(spec.env, key)
            < spec.env.len() {
            0int
        } else {
            1int
        },
{
    lemma_position_in_range(spec.env, key);
    let at = position(spec.env, key);
    let after = spec.with_env(key, value).env;
    assert forall|i: int, j: int| 0 <= i < j < after.len() implies (#[trigger] after[i]).0 != (
    #[trigger] after[j]).0 by {
        if at < spec.env.len() {
            assert(after[i].0 == spec.env[i].0);
            assert(after[j].0 == spec.env[j].0);
        } else if j == spec.env.len() {
            assert(after[i] == spec.env[i]);
        } else {
            assert(after[i] == spec.env[i]);
            assert(after[j] == spec.env[j]);
        }
    }
}

impl CommandSpecView {
    /// No environment variable is set twice.
    pub open spec fn wf(self) -> bool {
        forall|i: int, j: int|
            0 <= i < j < self.env.len() ==> (#[trigger] self.env[i]).0 != (
            #[trigger] self.env[j]).0
    }

    /// This invocation with the variable `key` set to `value`: in the place
    /// where `key` was set before, or after all others where it was not.
    pub open spec fn with_env(self, key: Seq<char>, value: Seq<char>) -> CommandSpecView {
        let at = position(self.env, key);
        if at < self.env.len() {
            CommandSpecView { env: self.env.update(at, (key, value)), ..self }
        } else {
            CommandSpecView { env: self.env.push((key, value)), ..self }
        }
    }

    /// This invocation with `arg` as one more argument.
    pub open spec fn with_arg(self, arg: Seq<char>) -> CommandSpecView {
        CommandSpecView { args: self.args.push(arg), ..self }
    }

    /// This invocation with the arguments `more` after its own.
    pub open spec fn with_args(self, more: Seq<Seq<char>>) -> CommandSpecView {
        CommandSpecView { args: self.args + more, ..self }
    }
}

/// How a child process ended, as the caller saw it.
#[derive(Debug, PartialEq, Eq)]
pub enum Completion {
    /// The process ran and exited; `success` tells whether its status was zero.
    Exited { success: bool, stdout: Vec<u8>, stderr: Vec<u8> },
    /// No process was started.
    NotStarted { reason: String },
}

/// What running a command came to.
#[derive(Debug, PartialEq, Eq)]
pub enum ProcessResult {
    Success { stdout: Vec<u8> },
    Failure(ExecutionError),
}

/// The arguments as they are written after the program: each after one space.
pub open spec fn rendered_args(args: Seq<Seq<char>>) -> Seq<char>
    decreases args.len(),
{
    if args.len() == 0 {
        Seq::<char>::empty()
    } else {
        rendered_args(args.drop_last()) + seq![' '] + args.last()
    }
}

impl CommandSpec {
    /// The command as one line: the program, then its arguments, with single
    /// spaces between them.
    pub open spec fn rendered(&self) -> Seq<char> {
        self.program@ + rendered_args(self.args.deep_view())
    }

    pub fn render(&self) -> (line: String)
        ensures
            line@ == self.rendered(),
    {
        let ghost args = self.args.deep_view();
        let mut line = self.program.clone();
        let mut i: usize = 0;
        assert(args.take(0) =~= Seq::<Seq<char>>::empty());
        assert(line@ =~= self.program@ + rendered_args(args.take(0)));
        while i < self.args.len()
            invariant
                args == self.args.deep_view(),
                i <= self.args@.len(),
                line@ == self.program@ + rendered_args(args.take(i as int)),
            decreases self.args@.len() - i,
        {
            proof {
                reveal_strlit(" ");
                assert(" "@ =~= seq![' ']);
                let next = args.take(i + 1);
                assert(next.drop_last() =~= args.take(i as int));
                assert(next.last() == self.args@[i as int]@);
            }
            line.append(" ");
            line.append(self.args[i].as_str());
            assert(line@ =~= self.program@ + rendered_args(args.take(i + 1)));
            i += 1;
        }
        assert(args.take(i as int) =~= args);
        line
    }

    /// The invocation of `program` with no arguments and nothing set.
    pub fn new(program: String) -> (spec: CommandSpec)
        ensures
            spec.program == program,
            spec@.args.len() == 0,
            spec@.env.len() == 0,
            spec@.wf(),
    {
        CommandSpec { program, args: Vec::new(), env: Vec::new() }
    }

    /// Appends one argument.
    pub fn arg(&mut self, arg: &str)
        ensures
            final(self)@ == old(self)@.with_arg(arg@),
    {
        let ghost before = self.args.deep_view();
        self.args.push(String::from_str(arg));
        assert(self.args.deep_view() =~= before.push(arg@));
    }

    /// Sets the environment variable `key` to `value` for the program,
    /// whatever it was set to before.
    pub fn set_env(&mut self, key: &str, value: &str)
        ensures
            final(self)@ == old(self)@.with_env(key@, value@),
            old(self)@.wf() ==> final(self)@.wf(),
    {
        let ghost env = self.env.deep_view();
        proof {
            if old(self)@.wf() {
                lemma_with_env_keeps_wf(old(self)@, key@, value@);
            }
        }
        let mut i: usize = 0;
        while i < self.env.len()
            invariant
                *self == *old(self),
                env == self.env.deep_view(),
                i <= self.env@.len(),
                forall|k: int| 0 <= k < i ==> (#[trigger] env[k]).0 != key@,
            decreases self.env@.len() - i,
        {
            assert(env[i as int].0 == self.env@[i as int].0@);
            if str_eq(self.env[i].0.as_str(), key) {
                proof {
                    lemma_position(env, key@, i as int);
                }
                self.env.set(i, (String::from_str(key), String::from_str(value)));
                assert(self.env.deep_view() =~= env.update(i as int, (key@, value@)));
                return ;
            }
            i += 1;
        }
        proof {
            lemma_position(env, key@, i as int);
        }
        self.env.push((String::from_str(key), String::from_str(value)));
        assert(self.env.deep_view() =~= env.push((key@, value@)));
    }

    /// What the end of this command's process means: its output where it
    /// exited with success, and a failure that keeps the command and all that
    /// was captured otherwise.
    pub open spec fn result_of(self, completion: Completion) -> ProcessResult {
        match completion {
            Completion::Exited { success, stdout, stderr } => if success {
                ProcessResult::Success { stdout }
            } else {
                ProcessResult::Failure(ExecutionError::Exit { command: self, stdout, stderr })
            },
            Completion::NotStarted { reason } => ProcessResult::Failure(
                ExecutionError::Spawn { command: self, reason },
            ),
        }
    }

    pub fn result(self, completion: Completion) -> (result: ProcessResult)
        ensures
            result == self.result_of(completion),
    {
        match completion {
            Completion::Exited { success, stdout, stderr } => if success {
                ProcessResult::Success { stdout }
            } else {
                ProcessResult::Failure(ExecutionError::Exit { command: self, stdout, stderr })
            },
            Completion::NotStarted { reason } => ProcessResult::Failure(
                ExecutionError::Spawn { command: self, reason },
            ),
        }
    }
}

/// A process that exited with failure gives a failure that holds the command
/// and both streams as they were captured, so that what the child wrote to its
/// standard error is in it; and such a result gives an error, and no output to
/// decode.
pub proof fn lemma_failed_exit_gives_no_output(
    command: CommandSpec,
    stdout: Vec<u8>,
    stderr: Vec<u8>,
)
    ensures
        ({
            let result = command.result_of(Completion::Exited { success: false, stdout, stderr });
            let failure = ExecutionError::Exit { command, stdout, stderr };
            &&& result == ProcessResult::Failure(failure)
            &&& result matches ProcessResult::Failure(ExecutionError::Exit { stderr: kept, .. })
                && kept@ == stderr@ && (stderr@.len() > 0 ==> kept@.len() > 0)
            &&& result.output_of() == Err::<Vec<u8>, CommandError>(
                CommandError::Execution(failure),
            )
        }),
{
}

impl ProcessResult {
    /// The captured standard output, or the failure as an error.
    pub open spec fn output_of(self) -> Result<Vec<u8>, CommandError> {
        match self {
            ProcessResult::Success { stdout } => Ok(stdout),
            ProcessResult::Failure(failure) => Err(CommandError::Execution(failure)),
        }
    }

    pub fn output(self) -> (output: Result<Vec<u8>, CommandError>)
        ensures
            output == self.output_of(),
    {
        match self {
            ProcessResult::Success { stdout } => Ok(stdout),
            ProcessResult::Failure(failure) => Err(CommandError::Execution(failure)),
        }
    }
}

/// The search for the file that the running binary stands for: the path
/// reached so far and the number of links followed to reach it.
#[derive(Debug, PartialEq, Eq)]
pub struct LinkWalk {
    pub path: String,
    pub hops: usize,
}

/// What to do next in a `LinkWalk`.
#[derive(Debug, PartialEq, Eq)]
pub enum WalkStep {
    /// Read the link at the walk's path and hand its target to `advance`.
    Follow(LinkWalk),
    /// The search has ended at this path.
    Settled(String),
}

/// A `LinkWalk` as characters.
pub struct LinkWalkView {
    pub path: Seq<char>,
    pub hops: nat,
}

/// A `WalkStep` as characters.
pub enum WalkStepView {
    Follow(LinkWalkView),
    Settled(Seq<char>),
}

impl View for LinkWalk {
    type V = LinkWalkView;

    open spec fn view(&self) -> LinkWalkView {
        LinkWalkView { path: self.path@, hops: self.hops as nat }
    }
}

impl View for WalkStep {
    type V = WalkStepView;

    open spec fn view(&self) -> WalkStepView {
        match self {
            WalkStep::Follow(walk) => WalkStepView::Follow(walk@),
            WalkStep::Settled(path) => WalkStepView::Settled(path@),
        }
    }
}

impl LinkWalkView {
    /// The step taken when reading the link at `self.path` gave `target`:
    /// none where the path is no link. The walk goes on to the target unless
    /// that was the last link allowed.
    pub open spec fn next(self, target: Option<Seq<char>>) -> WalkStepView {
        match target {
            None => WalkStepView::Settled(self.path),
            Some(to) => if self.hops + 1 < MAX_LINK_HOPS {
                WalkStepView::Follow(LinkWalkView { path: to, hops: self.hops + 1 })
            } else {
                WalkStepView::Settled(to)
            },
        }
    }

    /// The path at which the walk ends when every link is read from `links`.
    pub open spec fn end(self, links: Map<Seq<char>, Seq<char>>) -> Seq<char>
        decreases MAX_LINK_HOPS - self.hops,
    {
        if !links.contains_key(self.path) {
            self.path
        } else if self.hops + 1 < MAX_LINK_HOPS {
            (LinkWalkView { path: links[self.path], hops: self.hops + 1 }).end(links)
        } else {
            links[self.path]
        }
    }
}

/// The path at which following links from `path` ends, when `links` gives the
/// target of each link and at most `budget` links are followed.
pub open spec fn resolved(links: Map<Seq<char>, Seq<char>>, path: Seq<char>, budget: nat) -> Seq<
    char,
>
    decreases budget,
{
    if budget == 0 || !links.contains_key(path) {
        path
    } else {
        resolved(links, links[path], (budget - 1) as nat)
    }
}

/// What reading the link at `path` gives, by `links`.
pub open spec fn link_at(links: Map<Seq<char>, Seq<char>>, path: Seq<char>) -> Option<Seq<char>> {
    if links.contains_key(path) {
        Some(links[path])
    } else {
        None
    }
}

/// A walk whose every step is answered from the same links goes on as `end`
/// says, and ends where following at most `MAX_LINK_HOPS` links from its
/// start ends. So the place found depends on the links alone: two walks from
/// one path over unchanged links end at one path.
pub proof fn lemma_walk_follows_links(links: Map<Seq<char>, Seq<char>>, walk: LinkWalkView)
    requires
        walk.hops < MAX_LINK_HOPS,
    ensures
        walk.end(links) == match walk.next(link_at(links, walk.path)) {
            WalkStepView::Settled(path) => path,
            WalkStepView::Follow(further) => further.end(links),
        },
        walk.end(links) == resolved(links, walk.path, (MAX_LINK_HOPS - walk.hops) as nat),
    decreases MAX_LINK_HOPS - walk.hops,
{
    if links.contains_key(walk.path) {
        if walk.hops + 1 < MAX_LINK_HOPS {
            lemma_walk_follows_links(
                links,
                LinkWalkView { path: links[walk.path], hops: walk.hops + 1 },
            );
        } else {
            assert(resolved(links, links[walk.path], 0) == links[walk.path]);
        }
    }
}

impl LinkWalk {
    /// Begins at the path of the running binary; `None` says that the path
    /// could not be had.
    pub fn start(exe: Option<String>) -> (walk: Result<LinkWalk, LocationError>)
        ensures
            walk == match exe {
                Some(path) => Ok::<LinkWalk, LocationError>(LinkWalk { path, hops: 0 }),
                None => Err(LocationError::NoExecutable),
            },
    {
        match exe {
            Some(path) => Ok(LinkWalk { path, hops: 0 }),
            None => Err(LocationError::NoExecutable),
        }
    }

    /// Takes what reading the link at `self.path` gave: its target, or `None`
    /// where the path is no link.
    pub fn advance(self, target: Option<String>) -> (step: WalkStep)
        ensures
            step@ == self@.next(
                match target {
                    Some(to) => Some(to@),
                    None => None,
                },
            ),
            step == match target {
                None => WalkStep::Settled(self.path),
                Some(to) => if self.hops + 1 < MAX_LINK_HOPS {
                    WalkStep::Follow(LinkWalk { path: to, hops: (self.hops + 1) as usize })
                } else {
                    WalkStep::Settled(to)
                },
            },
    {
        match target {
            None => WalkStep::Settled(self.path),
            Some(to) => if self.hops < MAX_LINK_HOPS - 1 {
                WalkStep::Follow(LinkWalk { path: to, hops: self.hops + 1 })
            } else {
                WalkStep::Settled(to)
            },
        }
    }
}

/// The directory in which the running binary lies, and the paths at which the
/// two companions are looked for in it.
#[derive(Debug, PartialEq, Eq)]
pub struct Candidate {
    pub dir: String,
    pub yagna: String,
    pub provider: String,
}

/// Where the companion programs are: in a directory of their own, or wherever
/// the search path of the shell has them.
#[derive(Debug, PartialEq, Eq)]
pub struct YaCommand {
    base_path: Option<String>,
}

/// The name of the core daemon's program.
pub open spec fn yagna_program() -> Seq<char> {
    "yagna"@
}

/// The name of the provider agent's program.
pub open spec fn provider_program() -> Seq<char> {
    "ya-provider"@
}

/// The environment variable that tells the provider agent where its plugins
/// are described.
pub open spec fn plugins_variable() -> Seq<char> {
    "EXE_UNIT_PATH"@
}

impl YaCommand {
    /// The directory of the companion programs, if they have one.
    pub closed spec fn base(&self) -> Option<Seq<char>> {
        match self.base_path {
            Some(path) => Some(path@),
            None => None,
        }
    }

    /// The path under which `program` is run.
    pub open spec fn program_path(&self, program: Seq<char>) -> Seq<char> {
        match self.base() {
            Some(base) => joined(base, program),
            None => program,
        }
    }

    /// The pattern for the plugin descriptions under a plugin directory.
    pub open spec fn plugins_pattern(plugins_dir: Seq<char>) -> Seq<char> {
        joined(plugins_dir, "ya-*.json"@)
    }

    /// The directory from which the companions are run, when the running
    /// binary lies in `dir`: `dir` itself where both companions were found in
    /// it, and none, which leaves both to the shell's search path, where either
    /// is missing.
    pub open spec fn base_for(dir: Seq<char>, yagna_found: bool, provider_found: bool) -> Option<
        Seq<char>,
    > {
        if yagna_found && provider_found {
            Some(dir)
        } else {
            None
        }
    }

    /// The paths at which the two companions are looked for when the running
    /// binary lies in `dir`: the core daemon's first, the provider agent's second.
    pub fn companions(dir: &str) -> (paths: (String, String))
        ensures
            paths.0@ == joined(dir@, yagna_program()),
            paths.1@ == joined(dir@, provider_program()),
    {
        (join_path(dir, "yagna"), join_path(dir, "ya-provider"))
    }

    /// The directory above `settled`, the path at which the walk from the
    /// running binary ended, with the paths of the companions in it. A path
    /// with no directory above it is an error.
    pub fn candidate(settled: &str) -> (found: Result<Candidate, LocationError>)
        ensures
            match parent_of(settled@) {
                Some(dir) => found is Ok && found->Ok_0.dir@ == dir && found->Ok_0.yagna@
                    == joined(dir, yagna_program()) && found->Ok_0.provider@ == joined(
                    dir,
                    provider_program(),
                ),
                None => found == Err::<Candidate, LocationError>(LocationError::NoParent),
            },
    {
        match path_parent(settled) {
            Some(dir) => {
                let (yagna, provider) = Self::companions(dir.as_str());
                Ok(Candidate { dir, yagna, provider })
            },
            None => Err(LocationError::NoParent),
        }
    }

    /// Decides where the companion programs are. `parent` is the directory of
    /// the running binary once its links are followed; the two flags say whether
    /// each companion was found directly under it.
    pub fn new(parent: Option<String>, yagna_found: bool, provider_found: bool) -> (located: Result<
        YaCommand,
        LocationError,
    >)
        ensures
            match parent {
                None => located == Err::<YaCommand, LocationError>(LocationError::NoParent),
                Some(dir) => located is Ok && located->Ok_0.base() == Self::base_for(
                    dir@,
                    yagna_found,
                    provider_found,
                ),
            },
    {
        match parent {
            None => Err(LocationError::NoParent),
            Some(dir) => if yagna_found && provider_found {
                Ok(YaCommand { base_path: Some(dir) })
            } else {
                Ok(YaCommand { base_path: None })
            },
        }
    }

    /// The directory of the companion programs, if they have one.
    pub fn base_path(&self) -> (base: Option<&str>)
        ensures
            match base {
                Some(path) => self.base() == Some(path@),
                None => self.base() is None,
            },
    {
        match &self.base_path {
            Some(path) => Some(path.as_str()),
            None => None,
        }
    }

    /// The invocation of `program`, with no arguments yet.
    pub fn cmd(&self, program: &str) -> (spec: CommandSpec)
        ensures
            spec@.program == self.program_path(program@),
            spec@.args.len() == 0,
            spec@.env.len() == 0,
    {
        match &self.base_path {
            Some(path) => CommandSpec::new(join_path(path.as_str(), program)),
            None => CommandSpec::new(String::from_str(program)),
        }
    }

    /// The directory in which the provider agent's plugins are looked for,
    /// under the home directory `home`.
    pub fn plugins_dir(home: &str) -> (dir: String)
        ensures
            dir@ == joined(home@, ".local/lib/yagna/plugins"@),
    {
        join_path(home, ".local/lib/yagna/plugins")
    }

    /// The invocation of the provider agent. `plugins_dir` is the plugin
    /// directory where it exists; the agent is then told where the plugin
    /// descriptions are.
    pub fn ya_provider(&self, plugins_dir: Option<&str>) -> (made: Result<
        YaProviderCommand,
        CommandError,
    >)
        ensures
            made is Ok,
            made->Ok_0.cmd@.program == self.program_path(provider_program()),
            made->Ok_0.cmd@.args.len() == 0,
            made->Ok_0.cmd@.env == match plugins_dir {
                Some(dir) => seq![(plugins_variable(), Self::plugins_pattern(dir@))],
                None => Seq::<(Seq<char>, Seq<char>)>::empty(),
            },
            made->Ok_0.cmd@.wf(),
    {
        let mut cmd = self.cmd("ya-provider");
        match plugins_dir {
            Some(dir) => {
                let pattern = join_path(dir, "ya-*.json");
                cmd.set_env("EXE_UNIT_PATH", pattern.as_str());
                assert(cmd@.env =~= seq![(plugins_variable(), Self::plugins_pattern(dir@))]);
            },
            None => {
                assert(cmd@.env =~= Seq::<(Seq<char>, Seq<char>)>::empty());
            },
        }
        Ok(YaProviderCommand { cmd })
    }

    /// The invocation of the core daemon.
    pub fn yagna(&self) -> (made: Result<YagnaCommand, CommandError>)
        ensures
            made is Ok,
            made->Ok_0.cmd@.program == self.program_path(yagna_program()),
            made->Ok_0.cmd@.args.len() == 0,
            made->Ok_0.cmd@.env.len() == 0,
    {
        Ok(YagnaCommand { cmd: self.cmd("yagna") })
    }
}

} // verus!
