use leptos_build::cargo::{
    build_cargo_front_cmd, build_cargo_server_cmd, optimize_args, tailwind_cmd, BinPackage,
    LibPackage, Profile,
};
use leptos_build::config::{names, Config, ConfigError, RootPackage};
use leptos_build::text::{join, str_concat};

fn bin(profile: Profile) -> BinPackage {
    BinPackage {
        name: "app".into(),
        target: "server".into(),
        target_triple: None,
        default_features: false,
        features: vec!["ssr".into()],
        profile,
    }
}

#[test]
fn server_build_command() {
    let c = build_cargo_server_cmd(&"build".to_string(), &bin(Profile::Release));
    assert_eq!(
        c.args,
        vec!["build", "--package=app", "--bin=server", "--target-dir=target/server", "--no-default-features", "--features=ssr", "--release"]
    );
    assert_eq!(
        c.line,
        "cargo build --package=app --bin=server --target-dir=target/server --no-default-features --features=ssr --release"
    );
}

#[test]
fn server_test_command_has_no_bin() {
    let mut b = bin(Profile::Named("ci".into()));
    b.target_triple = Some("x86_64-unknown-linux-gnu".into());
    b.default_features = true;
    b.features = vec!["a".into(), "b".into()];
    let c = build_cargo_server_cmd(&"test".to_string(), &b);
    assert_eq!(
        c.args,
        vec!["test", "--package=app", "--target-dir=target/server", "--target=x86_64-unknown-linux-gnu", "--features=a,b", "--profile=ci"]
    );
}

#[test]
fn front_build_command() {
    let lib = LibPackage { name: "front".into(), default_features: true, features: vec![], profile: Profile::Debug };
    let c = build_cargo_front_cmd(&"build".to_string(), true, &lib);
    assert_eq!(c.args, vec!["build", "--package=front", "--lib", "--target-dir=target/front", "--target=wasm32-unknown-unknown"]);
    assert_eq!(c.line, "cargo build --package=front --lib --target-dir=target/front --target=wasm32-unknown-unknown");
    let c = build_cargo_front_cmd(&"test".to_string(), false, &lib);
    assert_eq!(c.args, vec!["test", "--package=front", "--lib", "--target-dir=target/front"]);
}

#[test]
fn tailwind_and_optimizer_commands() {
    let c = tailwind_cmd("tailwind", &"/p/in.css".to_string(), &"/p/tailwind.config.js".to_string());
    assert_eq!(c.args, vec!["--input", "/p/in.css", "--config", "/p/tailwind.config.js"]);
    assert_eq!(c.line, "tailwind --input /p/in.css --config /p/tailwind.config.js");
    assert_eq!(optimize_args(&"a.wasm".to_string()), vec!["a.wasm", "-Os", "-o", "a.wasm"]);
}

#[test]
fn text_helpers() {
    assert_eq!(join(&vec![], ","), "");
    assert_eq!(join(&vec!["a".to_string()], ","), "a");
    assert_eq!(str_concat("--x=", "y"), "--x=y");
    assert_eq!(names(&vec!["a".into(), "b".into(), "c".into()]), "a, b, c");
}

fn projects() -> Vec<String> {
    vec!["alpha".into(), "beta".into(), "beta".into()]
}

#[test]
fn load_without_projects_fails() {
    let r = Config::load("/w".into(), vec![], None, None, false);
    assert!(matches!(r, Err(ConfigError::NoProjects)));
}

#[test]
fn load_with_cli_project_keeps_only_it() {
    let c = Config::load("/w".into(), projects(), Some("beta".into()), None, true).unwrap();
    assert_eq!(c.projects, vec!["beta".to_string()]);
    assert_eq!(c.default_run, Some(0));
    assert!(c.watch);
    assert_eq!(c.current_project().unwrap(), 0);
}

#[test]
fn load_with_unknown_cli_project_fails() {
    match Config::load("/w".into(), projects(), Some("gamma".into()), None, false) {
        Err(ConfigError::ProjectNotFound { name, available }) => {
            assert_eq!(name, "gamma");
            assert_eq!(available, "alpha, beta, beta");
        }
        other => panic!("unexpected {:?}", other),
    }
}

#[test]
fn load_uses_root_package() {
    let root = RootPackage { name: "alpha".into(), default_run: Some("beta".into()) };
    let c = Config::load("/w".into(), projects(), None, Some(root), false).unwrap();
    assert_eq!(c.projects.len(), 3);
    assert_eq!(c.default_run, Some(1));
    let root = RootPackage { name: "alpha".into(), default_run: None };
    let c = Config::load("/w".into(), projects(), None, Some(root), false).unwrap();
    assert_eq!(c.default_run, Some(0));
    let root = RootPackage { name: "zeta".into(), default_run: None };
    assert!(matches!(
        Config::load("/w".into(), projects(), None, Some(root), false),
        Err(ConfigError::ProjectNotFound { .. })
    ));
}

#[test]
fn no_selection_means_several_projects() {
    let c = Config::load("/w".into(), projects(), None, None, false).unwrap();
    assert_eq!(c.default_run, None);
    match c.current_project() {
        Err(ConfigError::SeveralProjects { available }) => assert_eq!(available, "alpha, beta, beta"),
        other => panic!("unexpected {:?}", other),
    }
}
