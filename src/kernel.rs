//! Compiling a Halide kernel and running the program that comes out.
use vstd::prelude::*;
use crate::invocation::{Invocation, opt_str_view, opt_view, pair_views, push_all, push_strs, str_views};
use crate::paths::{join_path, joined};
use crate::text::{decimal, decimal_text, pieces, split_spaces, views};

verus! {

/// What a C++ compiler is called when neither the caller nor the
/// environment names one.
pub open spec fn fallback_compiler() -> Seq<char> {
    "c++"@
}

/// The compiler to start: the one named, else the one the environment
/// names, else `c++`.
pub open spec fn compiler_of(named: Option<Seq<char>>, env: Option<Seq<char>>) -> Seq<char> {
    match named {
        Some(c) => c,
        None => match env {
            Some(e) => e,
            None => fallback_compiler(),
        },
    }
}

/// The words of an optional flag string, cut at spaces; none when absent.
pub open spec fn flag_words(flags: Option<Seq<char>>) -> Seq<Seq<char>> {
    match flags {
        Some(f) => pieces(f),
        None => Seq::<Seq<char>>::empty(),
    }
}

/// Picks the compiler to start, as `compiler_of` says.
pub fn pick_compiler(named: Option<&str>, env: Option<&str>) -> (r: String)
    ensures
        r@ == compiler_of(opt_str_view(named), opt_str_view(env)),
{
    match named {
        Some(c) => c.to_owned(),
        None => match env {
            Some(e) => e.to_owned(),
            None => "c++".to_owned(),
        },
    }
}

/// The command that compiles the sources `args` into the shared library
/// `output`.
pub open spec fn shared_library_args(output: Seq<char>, args: Seq<Seq<char>>) -> Seq<Seq<char>> {
    seq!["-std=c++11"@, "-shared"@, "-o"@, output] + args
}

/// Describes the compiler run that builds the shared library `output` from
/// `args`; `cxx_env` is what the environment names as the C++ compiler.
pub fn shared_library_command(
    compiler: Option<&str>,
    cxx_env: Option<&str>,
    output: &str,
    args: &[&str],
) -> (r: Invocation)
    ensures
        r.program@ == compiler_of(opt_str_view(compiler), opt_str_view(cxx_env)),
        views(r.args@) == shared_library_args(output@, str_views(args@)),
        r.dir is None,
        r.env@.len() == 0,
{
    let program = pick_compiler(compiler, cxx_env);
    let mut a: Vec<String> = Vec::new();
    a.push("-std=c++11".to_owned());
    a.push("-shared".to_owned());
    a.push("-o".to_owned());
    a.push(output.to_owned());
    let ghost head = views(a@);
    push_strs(&mut a, args);
    assert(head =~= seq!["-std=c++11"@, "-shared"@, "-o"@, output@]);
    Invocation { program, args: a, dir: None, env: Vec::new() }
}

/// The context for building one Halide kernel.
pub struct Build {
    /// Path to the Halide source tree.
    pub halide_path: String,
    /// Input files.
    pub src: Vec<String>,
    /// Output file.
    pub output: String,
    /// C++ compiler.
    pub cxx: Option<String>,
    /// C++ compile time flags, separated by spaces.
    pub cxxflags: Option<String>,
    /// C++ link time flags, separated by spaces.
    pub ldflags: Option<String>,
    /// Extra arguments to the build step.
    pub build_args: Vec<String>,
    /// Extra arguments to the run step.
    pub run_args: Vec<String>,
    /// Keep the executable when it has finished running.
    pub keep: bool,
    /// Compile in the Halide generator harness.
    pub generator: bool,
}

/// The compiler arguments that build `b`; `terminfo` is the terminal library
/// that the environment names, `-lncurses` when it names none.
pub open spec fn compile_args(b: Build, terminfo: Option<Seq<char>>) -> Seq<Seq<char>> {
    let hp = b.halide_path@;
    let term = match terminfo {
        Some(t) => t,
        None => "-lncurses"@,
    };
    seq!["-std=c++11"@, "-I"@, joined(hp, "include"@), "-I"@, joined(hp, "tools"@)]
        + flag_words(opt_view(b.cxxflags))
        + (if b.generator {
            seq![joined(joined(hp, "tools"@), "GenGen.cpp"@)]
        } else {
            Seq::<Seq<char>>::empty()
        })
        + views(b.build_args@)
        + views(b.src@)
        + seq![
            "-o"@,
            b.output@,
            "-L"@,
            joined(hp, "lib"@),
            "-lHalide"@,
            "-lpng"@,
            "-ljpeg"@,
            "-lpthread"@,
            term,
            "-ldl"@,
            "-lz"@,
        ]
        + flag_words(opt_view(b.ldflags))
}

/// Appends the words of an optional flag string to `args`.
fn push_flags(args: &mut Vec<String>, flags: &Option<String>)
    ensures
        views(final(args)@) == views(old(args)@) + flag_words(opt_view(*flags)),
{
    match flags {
        Some(f) => {
            let words = split_spaces(f.as_str());
            push_all(args, &words);
        },
        None => {
            assert(views(args@) + flag_words(opt_view(*flags)) =~= views(args@));
        },
    }
}

impl Build {
    /// A build of nothing yet, from the Halide tree at `halide_path` to the
    /// executable `output`.
    pub fn new(halide_path: &str, output: &str) -> (r: Build)
        ensures
            r.halide_path@ == halide_path@,
            r.src@.len() == 0,
            r.output@ == output@,
            r.cxx is None,
            r.cxxflags is None,
            r.ldflags is None,
            r.build_args@.len() == 0,
            r.run_args@.len() == 0,
            !r.keep,
            !r.generator,
    {
        Build {
            halide_path: halide_path.to_owned(),
            src: Vec::new(),
            output: output.to_owned(),
            cxx: None,
            cxxflags: None,
            ldflags: None,
            build_args: Vec::new(),
            run_args: Vec::new(),
            keep: false,
            generator: false,
        }
    }

    /// Describes the compiler run that builds this kernel. `cxx_env` and
    /// `terminfo` are what the environment holds under `CXX` and `TERMINFO`.
    pub fn build_command(&self, cxx_env: Option<&str>, terminfo: Option<&str>) -> (r: Invocation)
        ensures
            r.program@ == compiler_of(opt_view(self.cxx), opt_str_view(cxx_env)),
            views(r.args@) == compile_args(*self, opt_str_view(terminfo)),
            r.dir is None,
            r.env@.len() == 0,
    {
        let program = match &self.cxx {
            Some(c) => pick_compiler(Some(c.as_str()), cxx_env),
            None => pick_compiler(None, cxx_env),
        };
        let hp = self.halide_path.as_str();
        let mut a: Vec<String> = Vec::new();
        a.push("-std=c++11".to_owned());
        a.push("-I".to_owned());
        a.push(join_path(hp, "include"));
        a.push("-I".to_owned());
        let tools = join_path(hp, "tools");
        a.push(tools.clone());
        let ghost v0 = views(a@);
        push_flags(&mut a, &self.cxxflags);
        let ghost v1 = views(a@);
        if self.generator {
            a.push(join_path(tools.as_str(), "GenGen.cpp"));
        }
        let ghost v2 = views(a@);
        push_all(&mut a, &self.build_args);
        push_all(&mut a, &self.src);
        let ghost v3 = views(a@);
        a.push("-o".to_owned());
        a.push(self.output.clone());
        a.push("-L".to_owned());
        a.push(join_path(hp, "lib"));
        a.push("-lHalide".to_owned());
        a.push("-lpng".to_owned());
        a.push("-ljpeg".to_owned());
        a.push("-lpthread".to_owned());
        match terminfo {
            Some(t) => a.push(t.to_owned()),
            None => a.push("-lncurses".to_owned()),
        }
        a.push("-ldl".to_owned());
        a.push("-lz".to_owned());
        let ghost v4 = views(a@);
        push_flags(&mut a, &self.ldflags);
        proof {
            let hpv = self.halide_path@;
            assert(v0 =~= seq!["-std=c++11"@, "-I"@, joined(hpv, "include"@), "-I"@, joined(hpv, "tools"@)]);
            let gen = if self.generator {
                seq![joined(joined(hpv, "tools"@), "GenGen.cpp"@)]
            } else {
                Seq::<Seq<char>>::empty()
            };
            assert(v2 =~= v1 + gen);
            let term = match opt_str_view(terminfo) {
                Some(t) => t,
                None => "-lncurses"@,
            };
            assert(v4 =~= v3 + seq![
                "-o"@, self.output@, "-L"@, joined(hpv, "lib"@), "-lHalide"@, "-lpng"@,
                "-ljpeg"@, "-lpthread"@, term, "-ldl"@, "-lz"@,
            ]);
            assert(views(a@) =~= compile_args(*self, opt_str_view(terminfo)));
        }
        Invocation { program, args: a, dir: None, env: Vec::new() }
    }
    /// Describes the run of the built executable: its run arguments, with the
    /// Halide libraries on the library path.
    pub fn run_command(&self) -> (r: Invocation)
        ensures
            r.program@ == self.output@,
            views(r.args@) == views(self.run_args@),
            r.dir is None,
            pair_views(r.env@) == seq![("LD_LIBRARY_PATH"@, joined(self.halide_path@, "lib"@))],
    {
        let mut a: Vec<String> = Vec::new();
        push_all(&mut a, &self.run_args);
        assert(views(a@) =~= views(self.run_args@));
        let mut env: Vec<(String, String)> = Vec::new();
        env.push(("LD_LIBRARY_PATH".to_owned(), join_path(self.halide_path.as_str(), "lib")));
        assert(pair_views(env@) =~= seq![("LD_LIBRARY_PATH"@, joined(self.halide_path@, "lib"@))]);
        Invocation { program: self.output.clone(), args: a, dir: None, env }
    }

    /// Adds an input file.
    pub fn source_file(self, src: &str) -> (r: Build)
        ensures
            views(r.src@) == views(self.src@).push(src@),
            r == (Build { src: r.src, ..self }),
    {
        let mut b = self;
        let ghost before = b.src@;
        b.src.push(src.to_owned());
        assert(views(b.src@) =~= views(before).push(src@));
        b
    }

    /// Adds an argument to the build step.
    pub fn build_arg(self, arg: &str) -> (r: Build)
        ensures
            views(r.build_args@) == views(self.build_args@).push(arg@),
            r == (Build { build_args: r.build_args, ..self }),
    {
        let mut b = self;
        let ghost before = b.build_args@;
        b.build_args.push(arg.to_owned());
        assert(views(b.build_args@) =~= views(before).push(arg@));
        b
    }

    /// Adds arguments to the build step, in order.
    pub fn build_args(self, args: &[&str]) -> (r: Build)
        ensures
            views(r.build_args@) == views(self.build_args@) + str_views(args@),
            r == (Build { build_args: r.build_args, ..self }),
    {
        let mut b = self;
        push_strs(&mut b.build_args, args);
        b
    }

    /// Adds an argument to the run step.
    pub fn run_arg(self, arg: &str) -> (r: Build)
        ensures
            views(r.run_args@) == views(self.run_args@).push(arg@),
            r == (Build { run_args: r.run_args, ..self }),
    {
        let mut b = self;
        let ghost before = b.run_args@;
        b.run_args.push(arg.to_owned());
        assert(views(b.run_args@) =~= views(before).push(arg@));
        b
    }

    /// Adds arguments to the run step, in order.
    pub fn run_args(self, args: &[&str]) -> (r: Build)
        ensures
            views(r.run_args@) == views(self.run_args@) + str_views(args@),
            r == (Build { run_args: r.run_args, ..self }),
    {
        let mut b = self;
        push_strs(&mut b.run_args, args);
        b
    }

    /// Sets the link time flags.
    pub fn ldflags(self, flags: &str) -> (r: Build)
        ensures
            opt_view(r.ldflags) == Some(flags@),
            r == (Build { ldflags: r.ldflags, ..self }),
    {
        let mut b = self;
        b.ldflags = Some(flags.to_owned());
        b
    }

    /// Sets the compile time flags.
    pub fn cxxflags(self, flags: &str) -> (r: Build)
        ensures
            opt_view(r.cxxflags) == Some(flags@),
            r == (Build { cxxflags: r.cxxflags, ..self }),
    {
        let mut b = self;
        b.cxxflags = Some(flags.to_owned());
        b
    }

    /// Sets the C++ compiler.
    pub fn compiler(self, name: &str) -> (r: Build)
        ensures
            opt_view(r.cxx) == Some(name@),
            r == (Build { cxx: r.cxx, ..self }),
    {
        let mut b = self;
        b.cxx = Some(name.to_owned());
        b
    }

    /// Sets whether the executable is kept after it has run.
    pub fn keep(self, x: bool) -> (r: Build)
        ensures
            r == (Build { keep: x, ..self }),
    {
        let mut b = self;
        b.keep = x;
        b
    }

    /// Sets whether the generator harness is compiled in.
    pub fn generator(self, x: bool) -> (r: Build)
        ensures
            r == (Build { generator: x, ..self }),
    {
        let mut b = self;
        b.generator = x;
        b
    }
}

/// The name of the executable that a run started at `millis` milliseconds
/// after the epoch builds.
pub open spec fn run_output(millis: nat) -> Seq<char> {
    "./halide-"@ + decimal(millis)
}

/// Names the executable of a run started at `millis` milliseconds after the
/// epoch.
pub fn run_output_name(millis: u64) -> (r: String)
    ensures
        r@ == run_output(millis as nat),
{
    let mut r = "./halide-".to_owned();
    let digits = decimal_text(millis);
    r.append(digits.as_str());
    r
}

/// Whole milliseconds in a time of `secs` seconds and `subsec_nanos`
/// nanoseconds.
pub fn millis(secs: u64, subsec_nanos: u32) -> (r: u64)
    requires
        secs * 1000 + subsec_nanos / 1000000 <= u64::MAX,
    ensures
        r == secs * 1000 + subsec_nanos / 1000000,
{
    secs * 1000 + (subsec_nanos as u64) / 1000000
}

} // verus!
