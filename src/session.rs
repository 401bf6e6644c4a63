use vstd::prelude::*;

use crate::text::{replace, replace_all};

verus! {

/// Why a session could not start, or a command failed.
#[derive(Debug, PartialEq, Eq, Clone)]
pub enum ShellError {
    /// A configuration value could not be read, or is not usable.
    Config,
    /// No `rustup` binary was found.
    RustupNotFound,
    /// A command file could not be opened or read.
    Io,
    /// A `rustup run` command could not be started, or did not succeed.
    Exec,
}

/// The session state of the shell.
pub struct Config {
    /// Prompt template, with `{project}`, `{version}` and `{toolchain}` placeholders.
    pub prompt: String,
    /// Where the `rustup` binary is.
    pub rustup: String,
    /// Name of the package in the working directory.
    pub name: String,
    /// Version of that package.
    pub version: String,
    /// The toolchain the session starts with.
    pub default_toolchain: String,
    /// The toolchains that `+` runs a command under, in order.
    pub toolchains: Vec<String>,
    /// The toolchain commands run under now.
    pub current_toolchain: String,
    /// Working directory of every command.
    pub cwd: String,
}

/// What a `Config` holds, as sequences of characters.
pub struct ConfigView {
    pub prompt: Seq<char>,
    pub rustup: Seq<char>,
    pub name: Seq<char>,
    pub version: Seq<char>,
    pub default_toolchain: Seq<char>,
    pub toolchains: Seq<Seq<char>>,
    pub current_toolchain: Seq<char>,
    pub cwd: Seq<char>,
}

impl View for Config {
    type V = ConfigView;

    open spec fn view(&self) -> ConfigView {
        ConfigView {
            prompt: self.prompt@,
            rustup: self.rustup@,
            name: self.name@,
            version: self.version@,
            default_toolchain: self.default_toolchain@,
            toolchains: self.toolchains.deep_view(),
            current_toolchain: self.current_toolchain@,
            cwd: self.cwd@,
        }
    }
}

/// Every toolchain name the session can switch to is non-empty.
pub open spec fn names_nonempty(names: Seq<Seq<char>>) -> bool {
    forall|i: int| 0 <= i < names.len() ==> #[trigger] names[i].len() > 0
}

impl ConfigView {
    /// The active toolchain is never empty, nor is any the session may switch to.
    pub open spec fn wf(&self) -> bool {
        &&& self.current_toolchain.len() > 0
        &&& self.default_toolchain.len() > 0
        &&& names_nonempty(self.toolchains)
    }

    /// The prompt with its placeholders filled in.
    pub open spec fn rendered_prompt(&self) -> Seq<char> {
        replace_all(
            replace_all(
                replace_all(self.prompt, "{project}"@, self.name),
                "{version}"@,
                self.version,
            ),
            "{toolchain}"@,
            self.current_toolchain,
        )
    }
}

pub open spec fn default_prompt() -> Seq<char> {
    ">> "@
}

pub open spec fn fallback_toolchain() -> Seq<char> {
    "stable"@
}

pub open spec fn fallback_toolchains() -> Seq<Seq<char>> {
    seq!["stable"@, "beta"@, "nightly"@]
}

fn all_nonempty(names: &Vec<String>) -> (r: bool)
    ensures
        r == names_nonempty(names.deep_view()),
{
    let mut i: usize = 0;
    while i < names.len()
        invariant
            i <= names.len(),
            forall|k: int| 0 <= k < i ==> #[trigger] names.deep_view()[k].len() > 0,
        decreases names.len() - i,
    {
        if names[i].as_str().unicode_len() == 0 {
            assert(names.deep_view()[i as int].len() == 0);
            return false;
        }
        i = i + 1;
    }
    true
}

impl Config {
    /// The configured prompt template, or `">> "` where none is configured.
    pub fn prompt(configured: Option<String>) -> (r: String)
        ensures
            configured is Some ==> r@ == configured->0@,
            configured is None ==> r@ == default_prompt(),
    {
        match configured {
            Some(p) => p,
            None => String::from_str(">> "),
        }
    }

    /// The configured default toolchain, or `"stable"` where none is configured.
    pub fn default_toolchain(configured: Option<String>) -> (r: String)
        ensures
            configured is Some ==> r@ == configured->0@,
            configured is None ==> r@ == fallback_toolchain(),
    {
        match configured {
            Some(t) => t,
            None => String::from_str("stable"),
        }
    }

    /// The configured toolchain list, or stable, beta and nightly where none is configured.
    pub fn get_toolchains(configured: Option<Vec<String>>) -> (r: Vec<String>)
        ensures
            configured is Some ==> r.deep_view() == configured->0.deep_view(),
            configured is None ==> r.deep_view() == fallback_toolchains(),
    {
        match configured {
            Some(t) => t,
            None => {
                let v = vec![
                    String::from_str("stable"),
                    String::from_str("beta"),
                    String::from_str("nightly"),
                ];
                assert(v.deep_view() =~= fallback_toolchains());
                v
            },
        }
    }

    /// The session state at startup: the active toolchain is the default one.
    /// Fails with `Config` where the default toolchain or a listed one is empty.
    pub fn new(
        prompt: String,
        rustup: String,
        name: String,
        version: String,
        default_toolchain: String,
        toolchains: Vec<String>,
        cwd: String,
    ) -> (r: Result<Config, ShellError>)
        ensures
            r is Ok <==> (default_toolchain@.len() > 0 && names_nonempty(toolchains.deep_view())),
            r is Err ==> r->Err_0 == ShellError::Config,
            r matches Ok(c) ==> c@ == (ConfigView {
                prompt: prompt@,
                rustup: rustup@,
                name: name@,
                version: version@,
                default_toolchain: default_toolchain@,
                toolchains: toolchains.deep_view(),
                current_toolchain: default_toolchain@,
                cwd: cwd@,
            }),
            r matches Ok(c) ==> c@.wf(),
    {
        if default_toolchain.as_str().unicode_len() == 0 || !all_nonempty(&toolchains) {
            return Err(ShellError::Config);
        }
        let current_toolchain = default_toolchain.clone();
        Ok(Config {
            prompt,
            rustup,
            name,
            version,
            default_toolchain,
            toolchains,
            current_toolchain,
            cwd,
        })
    }

    /// The prompt, with `{project}`, `{version}` and `{toolchain}` replaced by
    /// the package name, its version and the active toolchain.
    pub fn get_prompt(&self) -> (r: String)
        ensures
            r@ == self@.rendered_prompt(),
    {
        let p = replace(self.prompt.as_str(), "{project}", self.name.as_str());
        let p = replace(p.as_str(), "{version}", self.version.as_str());
        replace(p.as_str(), "{toolchain}", self.current_toolchain.as_str())
    }
}

} // verus!
