use vstd::prelude::*;
use vstd::string::StringExecFns;
use crate::text::{str_concat, join, joined, views};

verus! {

/// The build profile of a package.
#[derive(Clone, Debug)]
pub enum Profile {
    Debug,
    Release,
    Named(String),
}

/// The server package: a binary target.
#[derive(Clone, Debug)]
pub struct BinPackage {
    pub name: String,
    pub target: String,
    pub target_triple: Option<String>,
    pub default_features: bool,
    pub features: Vec<String>,
    pub profile: Profile,
}

/// The front-end package: a library compiled to WebAssembly.
#[derive(Clone, Debug)]
pub struct LibPackage {
    pub name: String,
    pub default_features: bool,
    pub features: Vec<String>,
    pub profile: Profile,
}

/// A toolchain invocation: its arguments, and the line shown to the user.
#[derive(Clone, Debug)]
pub struct ToolCommand {
    pub args: Vec<String>,
    pub line: String,
}

/// The arguments that select a profile.
pub open spec fn profile_args(p: Profile) -> Seq<Seq<char>> {
    match p {
        Profile::Debug => seq![],
        Profile::Release => seq!["--release"@],
        Profile::Named(n) => seq!["--profile="@ + n@],
    }
}

/// The arguments that select features.
pub open spec fn feature_args(default_features: bool, features: Seq<String>) -> Seq<Seq<char>> {
    (if !default_features {
        seq!["--no-default-features"@]
    } else {
        seq![]
    }) + (if features.len() > 0 {
        seq!["--features="@ + joined(views(features), ","@)]
    } else {
        seq![]
    })
}

/// The compiler arguments for the server package.
pub open spec fn server_args(cmd: Seq<char>, bin: BinPackage) -> Seq<Seq<char>> {
    seq![cmd, "--package="@ + bin.name@] + (if cmd != "test"@ {
        seq!["--bin="@ + bin.target@]
    } else {
        seq![]
    }) + seq!["--target-dir=target/server"@] + (match bin.target_triple {
        Option::Some(t) => seq!["--target="@ + t@],
        Option::None => seq![],
    }) + feature_args(bin.default_features, bin.features@) + profile_args(bin.profile)
}

/// The compiler arguments for the front-end package.
pub open spec fn front_args(cmd: Seq<char>, wasm: bool, lib: LibPackage) -> Seq<Seq<char>> {
    seq![cmd, "--package="@ + lib.name@, "--lib"@, "--target-dir=target/front"@] + (if wasm {
        seq!["--target=wasm32-unknown-unknown"@]
    } else {
        seq![]
    }) + feature_args(lib.default_features, lib.features@) + profile_args(lib.profile)
}

/// The line shown for a program and its arguments.
pub open spec fn command_line(program: Seq<char>, args: Seq<Seq<char>>) -> Seq<char> {
    program + " "@ + joined(args, " "@)
}

fn push_arg(args: &mut Vec<String>, s: String)
    ensures
        views(final(args)@) == views(old(args)@).push(s@),
{
    args.push(s);
    assert(views(final(args)@) =~= views(old(args)@).push(s@));
}

fn push_literal(args: &mut Vec<String>, s: &str)
    ensures
        views(final(args)@) == views(old(args)@).push(s@),
{
    push_arg(args, String::from_str(s));
}

impl Profile {
    /// Appends the arguments that select this profile.
    pub fn add_to_args(&self, args: &mut Vec<String>)
        ensures
            views(final(args)@) == views(old(args)@) + profile_args(*self),
    {
        match self {
            Profile::Debug => {
                assert(views(args@) =~= views(args@) + profile_args(*self));
            },
            Profile::Release => {
                push_literal(args, "--release");
                assert(profile_args(*self) =~= seq!["--release"@]);
            },
            Profile::Named(n) => {
                push_arg(args, str_concat("--profile=", n.as_str()));
                assert(profile_args(*self) =~= seq!["--profile="@ + n@]);
            },
        }
    }
}

fn add_feature_args(default_features: bool, features: &Vec<String>, args: &mut Vec<String>)
    ensures
        views(final(args)@) == views(old(args)@) + feature_args(default_features, features@),
{
    let ghost start = views(args@);
    if !default_features {
        push_literal(args, "--no-default-features");
    }
    if features.len() > 0 {
        let list = join(features, ",");
        push_arg(args, str_concat("--features=", list.as_str()));
    }
    assert(views(args@) =~= start + feature_args(default_features, features@));
}

fn finish(program: &str, args: Vec<String>) -> (r: ToolCommand)
    ensures
        r.args@ == args@,
        r.line@ == command_line(program@, views(args@)),
{
    let joined_args = join(&args, " ");
    let mut line = str_concat(program, " ");
    line.append(joined_args.as_str());
    ToolCommand { args, line }
}

/// The compiler invocation that runs `cmd` (build, test) on the server
/// package, with a target directory of its own.
pub fn build_cargo_server_cmd(cmd: &String, bin: &BinPackage) -> (r: ToolCommand)
    ensures
        views(r.args@) == server_args(cmd@, *bin),
        r.line@ == command_line("cargo"@, server_args(cmd@, *bin)),
{
    let mut args: Vec<String> = Vec::new();
    push_arg(&mut args, cmd.clone());
    push_arg(&mut args, str_concat("--package=", bin.name.as_str()));
    let test = String::from_str("test");
    if !(*cmd == test) {
        push_arg(&mut args, str_concat("--bin=", bin.target.as_str()));
    }
    push_literal(&mut args, "--target-dir=target/server");
    match &bin.target_triple {
        Option::Some(triple) => {
            push_arg(&mut args, str_concat("--target=", triple.as_str()));
        },
        Option::None => {},
    }
    add_feature_args(bin.default_features, &bin.features, &mut args);
    bin.profile.add_to_args(&mut args);
    assert(views(args@) =~= server_args(cmd@, *bin));
    finish("cargo", args)
}

/// The compiler invocation that runs `cmd` on the front-end package, with a
/// target directory of its own, for WebAssembly when `wasm` holds.
pub fn build_cargo_front_cmd(cmd: &String, wasm: bool, lib: &LibPackage) -> (r: ToolCommand)
    ensures
        views(r.args@) == front_args(cmd@, wasm, *lib),
        r.line@ == command_line("cargo"@, front_args(cmd@, wasm, *lib)),
{
    let mut args: Vec<String> = Vec::new();
    push_arg(&mut args, cmd.clone());
    push_arg(&mut args, str_concat("--package=", lib.name.as_str()));
    push_literal(&mut args, "--lib");
    push_literal(&mut args, "--target-dir=target/front");
    if wasm {
        push_literal(&mut args, "--target=wasm32-unknown-unknown");
    }
    add_feature_args(lib.default_features, &lib.features, &mut args);
    lib.profile.add_to_args(&mut args);
    assert(views(args@) =~= front_args(cmd@, wasm, *lib));
    finish("cargo", args)
}

/// The CSS bundler's invocation on absolute input and config paths; the
/// line shows it under the name `cmd`.
pub fn tailwind_cmd(cmd: &str, input_file: &String, config_file: &String) -> (r: ToolCommand)
    ensures
        views(r.args@) == seq!["--input"@, input_file@, "--config"@, config_file@],
        r.line@ == command_line(cmd@, seq!["--input"@, input_file@, "--config"@, config_file@]),
{
    let mut args: Vec<String> = Vec::new();
    push_literal(&mut args, "--input");
    push_arg(&mut args, input_file.clone());
    push_literal(&mut args, "--config");
    push_arg(&mut args, config_file.clone());
    assert(views(args@) =~= seq!["--input"@, input_file@, "--config"@, config_file@]);
    finish(cmd, args)
}

/// The size optimiser's arguments: the module is rewritten in place.
pub fn optimize_args(file: &String) -> (r: Vec<String>)
    ensures
        views(r@) == seq![file@, "-Os"@, "-o"@, file@],
{
    let mut args: Vec<String> = Vec::new();
    push_arg(&mut args, file.clone());
    push_literal(&mut args, "-Os");
    push_literal(&mut args, "-o");
    push_arg(&mut args, file.clone());
    assert(views(args@) =~= seq![file@, "-Os"@, "-o"@, file@]);
    args
}

} // verus!
