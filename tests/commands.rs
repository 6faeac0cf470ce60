use halide_build::invocation::Invocation;
use halide_build::kernel::{millis, run_output_name, shared_library_command, Build};
use halide_build::linking::{library_name_of, link, link_lib, shared_library_path};
use halide_build::paths::join_path;
use halide_build::source::Source;
use halide_build::text::{decimal_text, split_spaces};

fn strings(v: &[&str]) -> Vec<String> {
    v.iter().map(|s| s.to_string()).collect()
}

fn no_env(inv: &Invocation) -> bool {
    inv.env.is_empty()
}

#[test]
fn join_adds_one_separator() {
    assert_eq!(join_path("/opt/halide", "include"), "/opt/halide/include");
    assert_eq!(join_path("/opt/halide/", "lib"), "/opt/halide/lib");
}

#[test]
fn join_onto_empty_and_absolute() {
    assert_eq!(join_path("", "tools"), "tools");
    assert_eq!(join_path("/opt/halide", "/usr/lib"), "/usr/lib");
}

#[test]
fn split_matches_std_split() {
    for s in ["-O2 -g", "", "a  b", " lead", "trail ", "single", "é ü"] {
        let expected: Vec<String> = s.split(" ").map(|x| x.to_string()).collect();
        assert_eq!(split_spaces(s), expected);
    }
}

#[test]
fn split_keeps_empty_pieces() {
    assert_eq!(split_spaces("a  b"), strings(&["a", "", "b"]));
    assert_eq!(split_spaces(""), strings(&[""]));
}

#[test]
fn decimal_digits() {
    assert_eq!(decimal_text(0), "0");
    assert_eq!(decimal_text(7), "7");
    assert_eq!(decimal_text(10), "10");
    assert_eq!(decimal_text(1234567), "1234567");
    assert_eq!(decimal_text(u64::MAX), u64::MAX.to_string());
}

#[test]
fn run_output_is_named_by_time() {
    assert_eq!(run_output_name(1500), "./halide-1500");
    assert_eq!(millis(2, 345_678_901), 2345);
    assert_eq!(run_output_name(millis(0, 999_999)), "./halide-0");
}

#[test]
fn new_build_is_empty() {
    let b = Build::new("/h", "out");
    assert_eq!(b.halide_path, "/h");
    assert_eq!(b.output, "out");
    assert!(b.src.is_empty());
    assert!(b.build_args.is_empty() && b.run_args.is_empty());
    assert!(b.cxx.is_none() && b.cxxflags.is_none() && b.ldflags.is_none());
    assert!(!b.keep && !b.generator);
}

#[test]
fn builders_set_fields() {
    let b = Build::new("/h", "out")
        .source_file("a.cpp")
        .source_file("b.cpp")
        .build_arg("-DX")
        .build_args(&["-DY", "-DZ"])
        .run_arg("1")
        .run_args(&["2", "3"])
        .ldflags("-lm")
        .cxxflags("-O2")
        .compiler("clang++")
        .keep(true)
        .generator(true);
    assert_eq!(b.src, strings(&["a.cpp", "b.cpp"]));
    assert_eq!(b.build_args, strings(&["-DX", "-DY", "-DZ"]));
    assert_eq!(b.run_args, strings(&["1", "2", "3"]));
    assert_eq!(b.ldflags.as_deref(), Some("-lm"));
    assert_eq!(b.cxxflags.as_deref(), Some("-O2"));
    assert_eq!(b.cxx.as_deref(), Some("clang++"));
    assert!(b.keep && b.generator);
    assert_eq!(b.halide_path, "/h");
    assert_eq!(b.output, "out");
}

#[test]
fn build_command_plain() {
    let b = Build::new("/h", "prog").source_file("k.cpp");
    let inv = b.build_command(None, None);
    assert_eq!(inv.program, "c++");
    assert_eq!(
        inv.args,
        strings(&[
            "-std=c++11", "-I", "/h/include", "-I", "/h/tools", "k.cpp", "-o", "prog", "-L",
            "/h/lib", "-lHalide", "-lpng", "-ljpeg", "-lpthread", "-lncurses", "-ldl", "-lz",
        ])
    );
    assert!(inv.dir.is_none());
    assert!(no_env(&inv));
}

#[test]
fn build_command_with_everything() {
    let b = Build::new("/h/", "prog")
        .source_file("k.cpp")
        .build_arg("-DX")
        .cxxflags("-O2 -g")
        .ldflags("-lm -lrt")
        .generator(true);
    let inv = b.build_command(Some("g++"), Some("-ltinfo"));
    assert_eq!(inv.program, "g++");
    assert_eq!(
        inv.args,
        strings(&[
            "-std=c++11", "-I", "/h/include", "-I", "/h/tools", "-O2", "-g",
            "/h/tools/GenGen.cpp", "-DX", "k.cpp", "-o", "prog", "-L", "/h/lib", "-lHalide",
            "-lpng", "-ljpeg", "-lpthread", "-ltinfo", "-ldl", "-lz", "-lm", "-lrt",
        ])
    );
}

#[test]
fn build_command_prefers_named_compiler() {
    let b = Build::new("/h", "prog").compiler("clang++");
    assert_eq!(b.build_command(Some("g++"), None).program, "clang++");
}

#[test]
fn run_command_sets_library_path() {
    let b = Build::new("/h", "./prog").run_args(&["x", "y"]);
    let inv = b.run_command();
    assert_eq!(inv.program, "./prog");
    assert_eq!(inv.args, strings(&["x", "y"]));
    assert!(inv.dir.is_none());
    assert_eq!(inv.env, vec![("LD_LIBRARY_PATH".to_string(), "/h/lib".to_string())]);
}

#[test]
fn shared_library_command_args() {
    let inv = shared_library_command(None, Some("g++"), "libk.so", &["k.cpp", "-fPIC"]);
    assert_eq!(inv.program, "g++");
    assert_eq!(inv.args, strings(&["-std=c++11", "-shared", "-o", "libk.so", "k.cpp", "-fPIC"]));
    assert_eq!(shared_library_command(Some("cc"), Some("g++"), "o", &[]).program, "cc");
    assert_eq!(shared_library_command(None, None, "o", &[]).program, "c++");
}

#[test]
fn source_commands() {
    let s = Source {
        halide_path: "/h".to_string(),
        repo: "https://example.org/halide".to_string(),
        branch: "main".to_string(),
        make: "gmake".to_string(),
        make_flags: strings(&["-j4"]),
    };
    let d = s.download_command();
    assert_eq!(d.program, "git");
    assert_eq!(d.args, strings(&["clone", "-b", "main", "https://example.org/halide", "/h"]));
    assert!(d.dir.is_none());
    let u = s.update_command();
    assert_eq!(u.program, "git");
    assert_eq!(u.args, strings(&["pull", "origin", "main"]));
    assert_eq!(u.dir.as_deref(), Some("/h"));
    let m = s.build_command();
    assert_eq!(m.program, "gmake");
    assert_eq!(m.args, strings(&["-j4"]));
    assert_eq!(m.dir.as_deref(), Some("/h"));
}

#[test]
fn library_names() {
    assert_eq!(library_name_of("libfoo"), "foo");
    assert_eq!(library_name_of("libfoo.so"), "foo");
    assert_eq!(library_name_of("libfoo.a"), "foo");
    assert_eq!(library_name_of("libfoo.dylib"), "foo");
    assert_eq!(library_name_of("bar.so"), "bar");
    assert_eq!(library_name_of("bar"), "bar");
    assert_eq!(library_name_of("lib.a"), "");
    assert_eq!(library_name_of("lib"), "");
}

#[test]
fn link_lib_lines() {
    assert_eq!(link_lib(None, "z"), strings(&["cargo:rustc-link-lib=z"]));
    assert_eq!(
        link_lib(Some("/usr/lib"), "z"),
        strings(&["cargo:rustc-link-search=native=/usr/lib", "cargo:rustc-link-lib=z"])
    );
}

#[test]
fn link_by_filename() {
    assert_eq!(
        link("/usr/lib/libfoo.so.1"),
        Some(strings(&["cargo:rustc-link-search=native=/usr/lib", "cargo:rustc-link-lib=foo"]))
    );
    assert_eq!(
        link("/opt/halide/lib/libHalide.a"),
        Some(strings(&[
            "cargo:rustc-link-search=native=/opt/halide/lib",
            "cargo:rustc-link-lib=Halide",
        ]))
    );
    assert_eq!(
        link("libbar.a"),
        Some(strings(&["cargo:rustc-link-search=native=", "cargo:rustc-link-lib=bar"]))
    );
}

#[test]
fn link_without_file_name() {
    assert_eq!(link(""), None);
    assert_eq!(link("/"), None);
}

#[test]
fn shared_library_paths() {
    assert_eq!(shared_library_path("kernels/blur.cpp").as_deref(), Some("kernels/libblur.so"));
    assert_eq!(shared_library_path("blur").as_deref(), Some("libblur.so"));
    assert_eq!(shared_library_path(".."), None);
}
