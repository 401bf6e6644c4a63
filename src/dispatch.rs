use vstd::prelude::*;

use crate::command::{command_of, is_special, parse_command, words, Command, CommandView};
use crate::session::{Config, ConfigView, ShellError};
use crate::text::{has_prefix, trimmed};

verus! {

/// A `rustup run` command: the program, its arguments and its working directory.
pub struct Invocation {
    pub program: String,
    pub args: Vec<String>,
    pub cwd: String,
}

pub struct InvocationView {
    pub program: Seq<char>,
    pub args: Seq<Seq<char>>,
    pub cwd: Seq<char>,
}

impl View for Invocation {
    type V = InvocationView;

    open spec fn view(&self) -> InvocationView {
        InvocationView { program: self.program@, args: self.args.deep_view(), cwd: self.cwd@ }
    }
}

/// The arguments of `rustup` that run `cargo` with `cmd` under `toolchain`.
pub open spec fn run_args(toolchain: Seq<char>, cmd: Seq<Seq<char>>) -> Seq<Seq<char>> {
    seq!["run"@, toolchain, "cargo"@] + cmd
}

/// The command that runs `cargo` with `cmd` under the active toolchain.
pub open spec fn invocation(c: ConfigView, cmd: Seq<Seq<char>>) -> InvocationView {
    InvocationView { program: c.rustup, args: run_args(c.current_toolchain, cmd), cwd: c.cwd }
}

/// What a command still waits for once its first step is handed out.
pub enum Pending {
    /// Nothing.
    Idle,
    /// The answer whether `cargo watch` is there, then it runs these arguments.
    Watch(Vec<String>),
    /// The end of a run.
    Await,
    /// The end of a run, after which the saved toolchain is active again.
    Restore(String),
    /// The end of a run under `toolchains[next - 1]`; the remaining toolchains
    /// follow, then the saved toolchain is active again.
    FanOut { args: Vec<String>, next: usize, saved: String },
}

pub enum PendingView {
    Idle,
    Watch(Seq<Seq<char>>),
    Await,
    Restore(Seq<char>),
    FanOut { args: Seq<Seq<char>>, next: nat, saved: Seq<char> },
}

impl View for Pending {
    type V = PendingView;

    open spec fn view(&self) -> PendingView {
        match self {
            Pending::Idle => PendingView::Idle,
            Pending::Watch(a) => PendingView::Watch(a.deep_view()),
            Pending::Await => PendingView::Await,
            Pending::Restore(s) => PendingView::Restore(s@),
            Pending::FanOut { args, next, saved } => PendingView::FanOut {
                args: args.deep_view(),
                next: *next as nat,
                saved: saved@,
            },
        }
    }
}

/// What the caller is to do next.
pub enum Action {
    /// End the process with success.
    Exit,
    /// Print the usage text.
    ShowHelp,
    /// The command is done.
    Done,
    /// The command failed; report the error and read the next line.
    Failed(ShellError),
    /// Find out whether `cargo watch` is installed, and report it.
    ProbeWatch,
    /// Warn that `cargo watch` is missing; the command is done.
    WarnNoWatch,
    /// Read the command file at this path, line by line.
    ReadBatch(String),
    /// Run this command and report whether it succeeded; where the flag is set,
    /// first announce the toolchain it runs under.
    Run(Invocation, bool),
}

pub enum ActionView {
    Exit,
    ShowHelp,
    Done,
    Failed(ShellError),
    ProbeWatch,
    WarnNoWatch,
    ReadBatch(Seq<char>),
    Run(InvocationView, bool),
}

impl View for Action {
    type V = ActionView;

    open spec fn view(&self) -> ActionView {
        match self {
            Action::Exit => ActionView::Exit,
            Action::ShowHelp => ActionView::ShowHelp,
            Action::Done => ActionView::Done,
            Action::Failed(e) => ActionView::Failed(*e),
            Action::ProbeWatch => ActionView::ProbeWatch,
            Action::WarnNoWatch => ActionView::WarnNoWatch,
            Action::ReadBatch(p) => ActionView::ReadBatch(p@),
            Action::Run(i, a) => ActionView::Run(i@, *a),
        }
    }
}

/// The session, and what the command in progress waits for.
pub struct Shell {
    pub config: Config,
    pub pending: Pending,
}

pub struct ShellView {
    pub config: ConfigView,
    pub pending: PendingView,
}

impl View for Shell {
    type V = ShellView;

    open spec fn view(&self) -> ShellView {
        ShellView { config: self.config@, pending: self.pending@ }
    }
}

impl ShellView {
    pub open spec fn wf(&self) -> bool {
        &&& self.config.wf()
        &&& match self.pending {
            PendingView::Restore(saved) => saved.len() > 0,
            PendingView::FanOut { args, next, saved } => saved.len() > 0 && 1 <= next
                <= self.config.toolchains.len(),
            _ => true,
        }
    }
}

/// `c` with `toolchain` active.
pub open spec fn switched(c: ConfigView, toolchain: Seq<char>) -> ConfigView {
    ConfigView {
        prompt: c.prompt,
        rustup: c.rustup,
        name: c.name,
        version: c.version,
        default_toolchain: c.default_toolchain,
        toolchains: c.toolchains,
        current_toolchain: toolchain,
        cwd: c.cwd,
    }
}

/// `c` with a new prompt template.
pub open spec fn reprompted(c: ConfigView, prompt: Seq<char>) -> ConfigView {
    ConfigView {
        prompt,
        rustup: c.rustup,
        name: c.name,
        version: c.version,
        default_toolchain: c.default_toolchain,
        toolchains: c.toolchains,
        current_toolchain: c.current_toolchain,
        cwd: c.cwd,
    }
}

pub open spec fn waiting(c: ConfigView, p: PendingView) -> ShellView {
    ShellView { config: c, pending: p }
}

/// Done where the run succeeded, else a failed execution.
pub open spec fn outcome(ok: bool) -> ActionView {
    if ok {
        ActionView::Done
    } else {
        ActionView::Failed(ShellError::Exec)
    }
}

/// The state and first action once a command is handed in.
pub open spec fn on_command(s: ShellView, cmd: CommandView) -> (ShellView, ActionView) {
    let c = s.config;
    match cmd {
        CommandView::Exit => (waiting(c, PendingView::Idle), ActionView::Exit),
        CommandView::Help => (waiting(c, PendingView::Idle), ActionView::ShowHelp),
        CommandView::SetPrompt(p) => (waiting(reprompted(c, p), PendingView::Idle), ActionView::Done),
        CommandView::WatchRun(a) => (waiting(c, PendingView::Watch(a)), ActionView::ProbeWatch),
        CommandView::RunFromFile(f) => (waiting(c, PendingView::Idle), ActionView::ReadBatch(f)),
        CommandView::TemporaryToolchainRun(t, a) => {
            if t.len() == 0 {
                (waiting(c, PendingView::Idle), ActionView::Done)
            } else if a.len() == 0 {
                (waiting(switched(c, t), PendingView::Idle), ActionView::Done)
            } else {
                (
                    waiting(switched(c, t), PendingView::Restore(c.current_toolchain)),
                    ActionView::Run(invocation(switched(c, t), a), false),
                )
            }
        },
        CommandView::FanOutRun(a) => {
            if c.toolchains.len() == 0 {
                (waiting(c, PendingView::Idle), ActionView::Done)
            } else {
                let first = switched(c, c.toolchains[0]);
                (
                    waiting(
                        first,
                        PendingView::FanOut { args: a, next: 1, saved: c.current_toolchain },
                    ),
                    ActionView::Run(invocation(first, a), true),
                )
            }
        },
        CommandView::PlainRun(a) => (waiting(c, PendingView::Await), ActionView::Run(
            invocation(c, a),
            false,
        )),
    }
}

/// The state and first action once a line of input is handed in.
pub open spec fn on_line(s: ShellView, line: Seq<char>) -> (ShellView, ActionView) {
    on_command(s, command_of(line))
}

/// The state and next action once a run has ended, successfully where `ok`.
pub open spec fn on_run_end(s: ShellView, ok: bool) -> (ShellView, ActionView) {
    let c = s.config;
    match s.pending {
        PendingView::Restore(saved) => (waiting(switched(c, saved), PendingView::Idle), outcome(ok)),
        PendingView::FanOut { args, next, saved } => {
            if ok && next < c.toolchains.len() {
                let following = switched(c, c.toolchains[next as int]);
                (
                    waiting(following, PendingView::FanOut { args, next: next + 1, saved }),
                    ActionView::Run(invocation(following, args), true),
                )
            } else {
                (waiting(switched(c, saved), PendingView::Idle), outcome(ok))
            }
        },
        _ => (waiting(c, PendingView::Idle), outcome(ok)),
    }
}

/// The state and next action once it is known whether `cargo watch` is there.
pub open spec fn on_watch_probed(s: ShellView, found: bool) -> (ShellView, ActionView) {
    let c = s.config;
    match s.pending {
        PendingView::Watch(a) => {
            if found {
                (waiting(c, PendingView::Await), ActionView::Run(
                    invocation(c, seq!["watch"@] + a),
                    false,
                ))
            } else {
                (waiting(c, PendingView::Idle), ActionView::WarnNoWatch)
            }
        },
        _ => (waiting(c, PendingView::Idle), ActionView::Done),
    }
}

fn copy_words(v: &Vec<String>) -> (r: Vec<String>)
    ensures
        r.deep_view() == v.deep_view(),
{
    let mut r: Vec<String> = Vec::new();
    let mut i: usize = 0;
    while i < v.len()
        invariant
            i <= v.len(),
            r.deep_view() == v.deep_view().subrange(0, i as int),
        decreases v.len() - i,
    {
        let ghost prev = r.deep_view();
        r.push(v[i].clone());
        assert(r.deep_view() =~= v.deep_view().subrange(0, i + 1)) by {
            assert(r.deep_view() =~= prev.push(v.deep_view()[i as int]));
        }
        i = i + 1;
    }
    assert(v.deep_view().subrange(0, v.len() as int) =~= v.deep_view());
    r
}

/// The command that runs `cargo` with the arguments `cmd` under the active
/// toolchain, through `rustup run`, in the session's working directory.
pub fn run(config: &Config, cmd: &Vec<String>) -> (r: Invocation)
    ensures
        r@ == invocation(config@, cmd.deep_view()),
{
    let mut args: Vec<String> = vec![
        String::from_str("run"),
        config.current_toolchain.clone(),
        String::from_str("cargo"),
    ];
    let ghost head = args.deep_view();
    let mut rest = copy_words(cmd);
    args.append(&mut rest);
    assert(args.deep_view() =~= head + cmd.deep_view());
    assert(head =~= seq!["run"@, config.current_toolchain@, "cargo"@]);
    Invocation { program: config.rustup.clone(), args, cwd: config.cwd.clone() }
}

fn outcome_of(ok: bool) -> (r: Action)
    ensures
        r@ == outcome(ok),
{
    if ok {
        Action::Done
    } else {
        Action::Failed(ShellError::Exec)
    }
}

impl Shell {
    /// A session with no command in progress.
    pub fn new(config: Config) -> (r: Shell)
        ensures
            r@ == waiting(config@, PendingView::Idle),
    {
        Shell { config, pending: Pending::Idle }
    }

    fn take_pending(&mut self) -> (r: Pending)
        ensures
            r@ == old(self)@.pending,
            final(self)@ == waiting(old(self)@.config, PendingView::Idle),
    {
        let mut p = Pending::Idle;
        core::mem::swap(&mut self.pending, &mut p);
        p
    }

    /// Makes `toolchain` the active one.
    fn switch_to(&mut self, toolchain: String)
        ensures
            final(self)@ == waiting(switched(old(self)@.config, toolchain@), old(self)@.pending),
    {
        self.config.current_toolchain = toolchain;
    }

    /// Takes in a classified command and gives its first step.
    pub fn start(&mut self, cmd: Command) -> (r: Action)
        requires
            old(self)@.wf(),
        ensures
            (final(self)@, r@) == on_command(old(self)@, cmd@),
            final(self)@.wf(),
    {
        let _ = self.take_pending();
        match cmd {
            Command::Exit => Action::Exit,
            Command::Help => Action::ShowHelp,
            Command::SetPrompt(p) => {
                self.config.prompt = p;
                Action::Done
            },
            Command::WatchRun(a) => {
                self.pending = Pending::Watch(a);
                Action::ProbeWatch
            },
            Command::RunFromFile(f) => Action::ReadBatch(f),
            Command::TemporaryToolchainRun(t, a) => {
                if t.as_str().unicode_len() == 0 {
                    Action::Done
                } else if a.len() == 0 {
                    self.switch_to(t);
                    Action::Done
                } else {
                    let saved = self.config.current_toolchain.clone();
                    self.switch_to(t);
                    self.pending = Pending::Restore(saved);
                    Action::Run(run(&self.config, &a), false)
                }
            },
            Command::FanOutRun(a) => {
                if self.config.toolchains.len() == 0 {
                    Action::Done
                } else {
                    let saved = self.config.current_toolchain.clone();
                    let first = self.config.toolchains[0].clone();
                    self.switch_to(first);
                    let inv = run(&self.config, &a);
                    self.pending = Pending::FanOut { args: a, next: 1, saved };
                    Action::Run(inv, true)
                }
            },
            Command::PlainRun(a) => {
                self.pending = Pending::Await;
                Action::Run(run(&self.config, &a), false)
            },
        }
    }

    /// Reports the end of a run, successful where `ok`, and gives the next step.
    /// A temporary toolchain switch is undone whatever the outcome; a fan-out
    /// goes on to the next toolchain only after a success.
    pub fn run_finished(&mut self, ok: bool) -> (r: Action)
        requires
            old(self)@.wf(),
        ensures
            (final(self)@, r@) == on_run_end(old(self)@, ok),
            final(self)@.wf(),
    {
        let p = self.take_pending();
        match p {
            Pending::Restore(saved) => {
                self.switch_to(saved);
                outcome_of(ok)
            },
            Pending::FanOut { args, next, saved } => {
                if ok && next < self.config.toolchains.len() {
                    let following = self.config.toolchains[next].clone();
                    self.switch_to(following);
                    let inv = run(&self.config, &args);
                    self.pending = Pending::FanOut { args, next: next + 1, saved };
                    Action::Run(inv, true)
                } else {
                    self.switch_to(saved);
                    outcome_of(ok)
                }
            },
            _ => outcome_of(ok),
        }
    }

    /// Reports whether `cargo watch` was found, and gives the next step.
    pub fn watch_probed(&mut self, found: bool) -> (r: Action)
        requires
            old(self)@.wf(),
        ensures
            (final(self)@, r@) == on_watch_probed(old(self)@, found),
            final(self)@.wf(),
    {
        let p = self.take_pending();
        match p {
            Pending::Watch(a) => {
                if found {
                    let ghost av = a.deep_view();
                    let mut args: Vec<String> = vec![String::from_str("watch")];
                    let mut rest = a;
                    args.append(&mut rest);
                    assert(args.deep_view() =~= seq!["watch"@] + av);
                    self.pending = Pending::Await;
                    Action::Run(run(&self.config, &args), false)
                } else {
                    Action::WarnNoWatch
                }
            },
            _ => Action::Done,
        }
    }
}

/// Takes in one line of input and gives the first step of the command it holds.
pub fn dispatch_cmd(shell: &mut Shell, cmd: &str) -> (r: Action)
    requires
        old(shell)@.wf(),
    ensures
        (final(shell)@, r@) == on_line(old(shell)@, cmd@),
        final(shell)@.wf(),
{
    let c = parse_command(cmd);
    shell.start(c)
}

proof fn lemma_double_plus_is_plus(t: Seq<char>)
    ensures
        has_prefix(t, "++"@) ==> has_prefix(t, "+"@),
{
    reveal_strlit("++");
    reveal_strlit("+");
    if has_prefix(t, "++"@) {
        assert(t[0] == t.subrange(0, 2)[0]);
        assert(t.subrange(0, 1) =~= "+"@);
    }
}

/// A line that starts with none of the special forms runs cargo with the whole
/// trimmed line, split on single spaces, under the active toolchain.
pub proof fn lemma_plain_line_runs_cargo(s: ShellView, line: Seq<char>)
    requires
        !is_special(trimmed(line)),
    ensures
        on_line(s, line) == (
            waiting(s.config, PendingView::Await),
            ActionView::Run(invocation(s.config, words(trimmed(line))), false),
        ),
{
    lemma_double_plus_is_plus(trimmed(line));
}

/// `++ <toolchain>` with no command makes the toolchain active for good: a later
/// plain command runs under it, and it is still active once that run is over.
pub proof fn lemma_switch_persists(
    s: ShellView,
    switch: Seq<char>,
    toolchain: Seq<char>,
    later: Seq<char>,
    ok: bool,
)
    requires
        s.wf(),
        toolchain.len() > 0,
        command_of(switch) == CommandView::TemporaryToolchainRun(toolchain, Seq::empty()),
        !is_special(trimmed(later)),
    ensures
        on_line(s, switch).1 == ActionView::Done,
        on_line(s, switch).0.config.current_toolchain == toolchain,
        on_line(on_line(s, switch).0, later).1 == ActionView::Run(
            invocation(on_line(s, switch).0.config, words(trimmed(later))),
            false,
        ),
        on_line(on_line(s, switch).0, later).1->Run_0.args[1] == toolchain,
        on_run_end(on_line(on_line(s, switch).0, later).0, ok).0.config.current_toolchain
            == toolchain,
{
    lemma_plain_line_runs_cargo(on_line(s, switch).0, later);
}

/// `++ <toolchain> <command>` runs the command under that toolchain, and
/// afterwards, whether the run succeeded or not, the toolchain that was active
/// before is active again.
pub proof fn lemma_switch_for_one_command(
    s: ShellView,
    line: Seq<char>,
    toolchain: Seq<char>,
    cmd: Seq<Seq<char>>,
    ok: bool,
)
    requires
        s.wf(),
        toolchain.len() > 0,
        cmd.len() > 0,
        command_of(line) == CommandView::TemporaryToolchainRun(toolchain, cmd),
    ensures
        on_line(s, line).1 == ActionView::Run(invocation(switched(s.config, toolchain), cmd), false),
        on_line(s, line).1->Run_0.args == run_args(toolchain, cmd),
        on_run_end(on_line(s, line).0, ok).0.config == s.config,
        on_run_end(on_line(s, line).0, ok).0.pending == PendingView::Idle,
        on_run_end(on_line(s, line).0, ok).1 == outcome(ok),
{
    assert(switched(switched(s.config, toolchain), s.config.current_toolchain) == s.config);
}

/// `+ <command>` over two configured toolchains runs the command under the
/// first, then, only if that run succeeded, under the second; whatever the
/// outcomes, the toolchain active before is active again at the end, and the
/// first failure is reported.
pub proof fn lemma_fan_out_two(s: ShellView, line: Seq<char>, cmd: Seq<Seq<char>>, ok1: bool, ok2: bool)
    requires
        s.wf(),
        s.config.toolchains.len() == 2,
        command_of(line) == CommandView::FanOutRun(cmd),
    ensures
        ({
            let (s1, a1) = on_line(s, line);
            let (s2, a2) = on_run_end(s1, ok1);
            &&& a1 == ActionView::Run(invocation(switched(s.config, s.config.toolchains[0]), cmd), true)
            &&& a1->Run_0.args == run_args(s.config.toolchains[0], cmd)
            &&& !ok1 ==> s2.config == s.config && s2.pending == PendingView::Idle && a2 == outcome(false)
            &&& ok1 ==> a2 == ActionView::Run(invocation(switched(s.config, s.config.toolchains[1]), cmd), true)
            &&& ok1 ==> a2->Run_0.args == run_args(s.config.toolchains[1], cmd)
            &&& ok1 ==> on_run_end(s2, ok2).0.config == s.config
            &&& ok1 ==> on_run_end(s2, ok2).0.pending == PendingView::Idle
            &&& ok1 ==> on_run_end(s2, ok2).1 == outcome(ok2)
        }),
{
    assert(switched(switched(s.config, s.config.toolchains[0]), s.config.current_toolchain) == s.config);
    assert(switched(switched(s.config, s.config.toolchains[1]), s.config.current_toolchain) == s.config);
}

/// One step of `+ <command>`: after a success the next configured toolchain
/// runs the same command; after a failure, or after the last toolchain, the
/// saved toolchain is active again and nothing more runs.
pub proof fn lemma_fan_out_step(s: ShellView, ok: bool)
    requires
        s.wf(),
        s.pending is FanOut,
    ensures
        ({
            let (s1, a) = on_run_end(s, ok);
            let args = s.pending->FanOut_args;
            let next = s.pending->FanOut_next;
            let saved = s.pending->FanOut_saved;
            &&& s1.wf()
            &&& (ok && next < s.config.toolchains.len()) ==> a == ActionView::Run(
                invocation(switched(s.config, s.config.toolchains[next as int]), args),
                true,
            ) && s1.pending == (PendingView::FanOut { args, next: next + 1, saved })
            &&& !(ok && next < s.config.toolchains.len()) ==> s1.config.current_toolchain == saved
                && s1.pending == PendingView::Idle && a == outcome(ok)
        }),
{
}

/// A failed run is reported as a failed execution, and the session is left
/// well formed with no command in progress, ready for the next line.
pub proof fn lemma_failure_is_reported(s: ShellView, line: Seq<char>)
    requires
        s.wf(),
    ensures
        on_run_end(s, false).1 == ActionView::Failed(ShellError::Exec),
        on_run_end(s, false).0.pending == PendingView::Idle,
        on_run_end(s, false).0.wf(),
        on_line(on_run_end(s, false).0, line) == on_command(
            waiting(on_run_end(s, false).0.config, PendingView::Idle),
            command_of(line),
        ),
{
}

} // verus!
