//! Fetching and compiling the chess engine: where its files go, which steps a build takes, and
//! how a command line is written out.
use vstd::prelude::*;

use crate::text::{decimal, push_decimal, str_chars, string_from_chars};

verus! {

/// The working directory of the build.
pub const WORKING_DIR: &'static str = "target/stockfish";

/// The log file of the build.
pub const LOG_FILE_PATH: &'static str = "target/stockfish.log";

/// The base URL the source archive is downloaded from; the archive's name completes it.
pub const STOCKFISH_ZIP_URL: &'static str = "https://github.com/official-stockfish/Stockfish/archive/refs/tags/";

/// The name of the source archive.
pub const STOCKFISH_ZIP_NAME: &'static str = "sf_15.zip";

/// The name of the source directory the archive holds.
pub const STOCKFISH_REPO_DIR_NAME: &'static str = "Stockfish-sf_15";

/// The name of the engine's executable.
pub const STOCKFISH_BIN_NAME: &'static str = "stockfish";

/// The architecture the engine is compiled for.
#[derive(Clone, Copy, Debug, PartialEq, Eq, Structural)]
pub enum StockfishArch {
    AppleSilicon,
    X86_64,
}

/// The `make` argument that selects the architecture.
pub open spec fn spec_arch_arg(arch: StockfishArch) -> Seq<char> {
    match arch {
        StockfishArch::AppleSilicon => "ARCH=apple-silicon"@,
        StockfishArch::X86_64 => "ARCH=x86-x64"@,
    }
}

impl StockfishArch {
    /// The `make` argument that selects the architecture.
    pub fn make_arg(self) -> (s: &'static str)
        ensures
            s@ == spec_arch_arg(self),
    {
        match self {
            StockfishArch::AppleSilicon => "ARCH=apple-silicon",
            StockfishArch::X86_64 => "ARCH=x86-x64",
        }
    }
}

/// `base`, then a path separator, then `name`: the path of `name` inside the directory `base`.
pub open spec fn spec_join(base: Seq<char>, name: Seq<char>) -> Seq<char> {
    base + "/"@ + name
}

/// Appends the characters of `s`.
fn push_str(v: &mut Vec<char>, s: &str)
    ensures
        final(v)@ == old(v)@ + s@,
{
    let cs = str_chars(s);
    let mut i: usize = 0;
    while i < cs.len()
        invariant
            i <= cs@.len(),
            cs@ == s@,
            v@ == old(v)@ + cs@.take(i as int),
        decreases cs@.len() - i,
    {
        v.push(cs[i]);
        i = i + 1;
        assert(v@ =~= old(v)@ + cs@.take(i as int));
    }
    assert(cs@.take(cs@.len() as int) =~= cs@);
}

/// The path of `name` inside the directory `base`.
fn join(base: &str, name: &str) -> (p: String)
    ensures
        p@ == spec_join(base@, name@),
{
    let mut v: Vec<char> = Vec::new();
    push_str(&mut v, base);
    push_str(&mut v, "/");
    push_str(&mut v, name);
    assert(v@ =~= spec_join(base@, name@));
    string_from_chars(v.as_slice())
}

/// The paths a build works with: the source archive, the source directory it unpacks to, and
/// the executable compiled inside that directory.
pub struct StockfishBuilder {
    pub zip_p: String,
    pub repo_dir_p: String,
    pub bin_p: String,
}

/// The path of the source archive.
pub open spec fn spec_zip_path() -> Seq<char> {
    spec_join(WORKING_DIR@, STOCKFISH_ZIP_NAME@)
}

/// The path of the source directory.
pub open spec fn spec_repo_path() -> Seq<char> {
    spec_join(WORKING_DIR@, STOCKFISH_REPO_DIR_NAME@)
}

/// The directory `make` runs in: the `src` directory of the sources.
pub open spec fn spec_make_dir() -> Seq<char> {
    spec_join(spec_repo_path(), "src"@)
}

/// The path of the executable.
pub open spec fn spec_bin_path() -> Seq<char> {
    spec_join(spec_make_dir(), STOCKFISH_BIN_NAME@)
}

/// A step of a build.
#[derive(Debug)]
pub enum BuildStep {
    /// Read the source archive at this path.
    ReadZip { path: String },
    /// Download the source archive from this URL and save it at this path.
    DownloadZip { url: String, path: String },
    /// Unpack the archive into this directory; when that fails, remove the partly unpacked
    /// source directory, if it exists.
    ExtractZip { into_dir: String, repo_dir: String },
    /// Run this program with these arguments; the build fails unless it succeeds.
    Run { program: String, args: Vec<String> },
}

/// A step as plain values: its kind (0 to 3, in the order of the variants) and its texts in
/// order (for a program run, the program, then its arguments).
pub open spec fn spec_step_view(step: BuildStep) -> (int, Seq<Seq<char>>) {
    match step {
        BuildStep::ReadZip { path } => (0, seq![path@]),
        BuildStep::DownloadZip { url, path } => (1, seq![url@, path@]),
        BuildStep::ExtractZip { into_dir, repo_dir } => (2, seq![into_dir@, repo_dir@]),
        BuildStep::Run { program, args } => (3, seq![program@] + args@.map_values(|a: String| a@)),
    }
}

/// The number of parallel jobs a compilation asks for: half the available parallelism, and at
/// least one.
pub open spec fn spec_jobs(parallelism: usize) -> nat {
    if parallelism / 2 >= 1 {
        (parallelism / 2) as nat
    } else {
        1
    }
}

/// The `make` arguments of the compilation.
pub open spec fn spec_compile_args(arch: StockfishArch, parallelism: Option<usize>) -> Seq<Seq<char>> {
    let base = seq!["-C"@, spec_make_dir(), "net"@, "build"@, spec_arch_arg(arch)];
    match parallelism {
        Some(p) => base + seq!["-j"@, decimal(spec_jobs(p))],
        None => base,
    }
}

/// The steps of a build, given what exists already: nothing when the executable exists;
/// otherwise the sources are unpacked first when their directory is missing (from the archive
/// on disk, or from a download when that is missing too), then compiled and stripped.
pub open spec fn spec_build_plan(
    bin_exists: bool,
    repo_exists: bool,
    zip_exists: bool,
    arch: StockfishArch,
    parallelism: Option<usize>,
) -> Seq<(int, Seq<Seq<char>>)> {
    if bin_exists {
        Seq::empty()
    } else {
        let fetch = if repo_exists {
            Seq::empty()
        } else if zip_exists {
            seq![(0, seq![spec_zip_path()]), (2, seq![WORKING_DIR@, spec_repo_path()])]
        } else {
            seq![
                (1, seq![STOCKFISH_ZIP_URL@ + STOCKFISH_ZIP_NAME@, spec_zip_path()]),
                (2, seq![WORKING_DIR@, spec_repo_path()]),
            ]
        };
        fetch + seq![
            (3, seq!["make"@] + spec_compile_args(arch, parallelism)),
            (3, seq!["make"@, "-C"@, spec_make_dir(), "strip"@]),
        ]
    }
}

/// Strings of the given texts.
fn strings_of(parts: &[&str]) -> (v: Vec<String>)
    ensures
        v@.len() == parts@.len(),
        forall|i: int| 0 <= i < parts@.len() ==> #[trigger] v@[i]@ == parts@[i]@,
{
    let mut v: Vec<String> = Vec::new();
    let mut i: usize = 0;
    while i < parts.len()
        invariant
            i <= parts@.len(),
            v@.len() == i,
            forall|j: int| 0 <= j < i ==> #[trigger] v@[j]@ == parts@[j]@,
        decreases parts@.len() - i,
    {
        v.push(parts[i].to_string());
        i = i + 1;
    }
    v
}

impl StockfishBuilder {
    /// The builder for the engine's sources under the working directory.
    pub fn new() -> (b: StockfishBuilder)
        ensures
            b.zip_p@ == spec_zip_path(),
            b.repo_dir_p@ == spec_repo_path(),
            b.bin_p@ == spec_bin_path(),
    {
        let zip_p = join(WORKING_DIR, STOCKFISH_ZIP_NAME);
        let repo_dir_p = join(WORKING_DIR, STOCKFISH_REPO_DIR_NAME);
        let make_dir_p = join(repo_dir_p.as_str(), "src");
        let bin_p = join(make_dir_p.as_str(), STOCKFISH_BIN_NAME);
        StockfishBuilder { zip_p, repo_dir_p, bin_p }
    }

    /// The steps of a build, given whether the executable, the source directory and the source
    /// archive exist, the architecture, and the available parallelism, if known.
    pub fn run(
        &self,
        bin_exists: bool,
        repo_exists: bool,
        zip_exists: bool,
        arch: StockfishArch,
        parallelism: Option<usize>,
    ) -> (plan: Vec<BuildStep>)
        requires
            self.zip_p@ == spec_zip_path(),
            self.repo_dir_p@ == spec_repo_path(),
            self.bin_p@ == spec_bin_path(),
        ensures
            plan@.map_values(|s: BuildStep| spec_step_view(s)) == spec_build_plan(
                bin_exists,
                repo_exists,
                zip_exists,
                arch,
                parallelism,
            ),
    {
        let mut plan: Vec<BuildStep> = Vec::new();
        if bin_exists {
            assert(plan@.map_values(|s: BuildStep| spec_step_view(s)) =~= Seq::empty());
            return plan;
        }
        let ghost expected = spec_build_plan(bin_exists, repo_exists, zip_exists, arch, parallelism);
        if !repo_exists {
            if zip_exists {
                plan.push(BuildStep::ReadZip { path: self.zip_p.clone() });
                assert(spec_step_view(plan@[0]) == expected[0]);
            } else {
                let mut url: Vec<char> = Vec::new();
                push_str(&mut url, STOCKFISH_ZIP_URL);
                push_str(&mut url, STOCKFISH_ZIP_NAME);
                plan.push(
                    BuildStep::DownloadZip {
                        url: string_from_chars(url.as_slice()),
                        path: self.zip_p.clone(),
                    },
                );
                assert(spec_step_view(plan@[0]).1 =~= expected[0].1);
            }
            plan.push(
                BuildStep::ExtractZip {
                    into_dir: WORKING_DIR.to_string(),
                    repo_dir: self.repo_dir_p.clone(),
                },
            );
            assert(spec_step_view(plan@[1]).1 =~= expected[1].1);
        }
        let ghost n = plan@.len() as int;
        assert(forall|k: int| 0 <= k < n ==> spec_step_view(#[trigger] plan@[k]) == expected[k]);
        let make_dir_p = join(self.repo_dir_p.as_str(), "src");
        let make_dir = make_dir_p.as_str();
        let mut compile = strings_of(&["-C", make_dir, "net", "build", arch.make_arg()]);
        let ghost base = compile@;
        match parallelism {
            Some(p) => {
                let jobs: usize = if p / 2 >= 1 { p / 2 } else { 1 };
                let mut digits: Vec<char> = Vec::new();
                push_decimal(&mut digits, jobs as u64);
                compile.push("-j".to_string());
                compile.push(string_from_chars(digits.as_slice()));
            },
            None => {},
        }
        assert(compile@.map_values(|a: String| a@) =~= spec_compile_args(arch, parallelism));
        plan.push(BuildStep::Run { program: "make".to_string(), args: compile });
        assert(spec_step_view(plan@[n]) == expected[n]);
        let strip = strings_of(&["-C", make_dir, "strip"]);
        assert(strip@.map_values(|a: String| a@) =~= seq!["-C"@, spec_make_dir(), "strip"@]);
        plan.push(BuildStep::Run { program: "make".to_string(), args: strip });
        assert(spec_step_view(plan@[n + 1]).1 =~= expected[n + 1].1);
        assert(plan@.map_values(|s: BuildStep| spec_step_view(s)) =~= expected);
        plan
    }
}

/// A character a shell reads as itself: a letter, a digit, or one of `-_=/,.+`.
pub open spec fn shell_plain(c: char) -> bool {
    ('a' <= c <= 'z') || ('A' <= c <= 'Z') || ('0' <= c <= '9') || c == '-' || c == '_' || c
        == '=' || c == '/' || c == ',' || c == '.' || c == '+'
}

/// The text inside the single quotes of an escaped word: each `'` and `!` becomes `'\` and
/// itself and `'`; every other character stays.
pub open spec fn spec_quoted_body(s: Seq<char>) -> Seq<char>
    decreases s.len(),
{
    if s.len() == 0 {
        Seq::empty()
    } else {
        let c = s.last();
        spec_quoted_body(s.drop_last()) + if c == '\'' || c == '!' {
            seq!['\'', '\\', c, '\'']
        } else {
            seq![c]
        }
    }
}

/// A word as a Unix shell reads it back: itself when it is not empty and all its characters are
/// plain; otherwise quoted.
pub open spec fn spec_shell_escape(s: Seq<char>) -> Seq<char> {
    if s.len() > 0 && (forall|i: int| 0 <= i < s.len() ==> shell_plain(#[trigger] s[i])) {
        s
    } else {
        seq!['\''] + spec_quoted_body(s) + seq!['\'']
    }
}

/// `shell_escape::unix::escape`, which `shell_escape::escape` calls on every Unix system. Its
/// source returns the word itself when it is not empty and holds only letters, digits and
/// `-_=/,.+`; otherwise the word between single quotes, each `'` and `!` written as `'\`, the
/// character and `'`.
#[verifier::external_body]
fn shell_escape_word(s: &str) -> (r: String)
    ensures
        r@ == spec_shell_escape(s@),
{
    shell_escape::unix::escape(std::borrow::Cow::Borrowed(s)).into_owned()
}

/// What `shell_escape::windows::escape` writes for a word: the word itself when it is not empty
/// and holds no space, tab, line break or `"`; otherwise the word between double quotes, with
/// backslashes doubled before a `"` (which is written `\"`) and at the end.
pub uninterp spec fn windows_escaped(word: Seq<char>) -> Seq<char>;

/// `shell_escape::windows::escape`, which `shell_escape::escape` calls on Windows outside MSYS
/// (see `windows_escaped`).
#[verifier::external_body]
fn shell_escape_windows_word(s: &str) -> (r: String)
    ensures
        r@ == windows_escaped(s@),
        s@.len() > 0 && (forall|i: int|
            0 <= i < s@.len() ==> #[trigger] s@[i] != ' ' && s@[i] != '\t' && s@[i] != '\n' && s@[i] != '"')
            ==> r@ == s@,
{
    shell_escape::windows::escape(std::borrow::Cow::Borrowed(s)).into_owned()
}

/// A word escaped for the shell: the Unix way (`shell_escape::escape` on Unix systems and under
/// MSYS), else the Windows way.
pub open spec fn spec_escape_for(unix_shell: bool, word: Seq<char>) -> Seq<char> {
    if unix_shell {
        spec_shell_escape(word)
    } else {
        windows_escaped(word)
    }
}

/// A command line: the program, then each argument escaped for the shell, each after a space.
pub open spec fn spec_command_line(program: Seq<char>, args: Seq<Seq<char>>, unix_shell: bool) -> Seq<char>
    decreases args.len(),
{
    if args.len() == 0 {
        program
    } else {
        spec_command_line(program, args.drop_last(), unix_shell) + " "@ + spec_escape_for(unix_shell, args.last())
    }
}

/// Writes out a command line, as the build reports the commands it runs, each argument escaped
/// the way `shell_escape::escape` does it: the Unix way when `unix_shell` (a Unix system, or the
/// `MSYSTEM` variable set), else the Windows way.
pub fn command_display(program: &str, args: &Vec<String>, unix_shell: bool) -> (s: String)
    ensures
        s@ == spec_command_line(program@, args@.map_values(|a: String| a@), unix_shell),
{
    let ghost views = args@.map_values(|a: String| a@);
    let mut v: Vec<char> = Vec::new();
    push_str(&mut v, program);
    let mut i: usize = 0;
    while i < args.len()
        invariant
            i <= args@.len(),
            views == args@.map_values(|a: String| a@),
            v@ == spec_command_line(program@, views.take(i as int), unix_shell),
        decreases args@.len() - i,
    {
        proof {
            assert(views.take(i + 1).drop_last() =~= views.take(i as int));
            assert(views.take(i + 1).last() == args@[i as int]@);
        }
        push_str(&mut v, " ");
        let escaped = if unix_shell {
            shell_escape_word(args[i].as_str())
        } else {
            shell_escape_windows_word(args[i].as_str())
        };
        push_str(&mut v, escaped.as_str());
        i = i + 1;
        assert(v@ =~= spec_command_line(program@, views.take(i as int), unix_shell));
    }
    assert(views.take(args@.len() as int) =~= views);
    string_from_chars(v.as_slice())
}

} // verus!
