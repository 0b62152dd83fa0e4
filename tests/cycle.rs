use leptos_build::change::ChangeSet;
use leptos_build::interrupt::InterruptBus;
use leptos_build::outcome::{reduce, Outcome, Product, ProductSet};
use leptos_build::runner::{settle, CommandOutput, CommandResult, RaceStep};
use leptos_build::store::OutputStore;
use leptos_build::tasks::{
    front_after_bindgen, front_after_compile, front_after_optimize, front_finish, front_start,
    has_done_marker, server_after_compile, server_finish, server_start, style_after_tool,
    style_finish, style_start, TaskStep,
};

fn output(stdout: &str, stderr: &str) -> CommandOutput {
    CommandOutput { stdout: stdout.as_bytes().to_vec(), stderr: stderr.as_bytes().to_vec() }
}

fn products(o: &Outcome<ProductSet>) -> Option<ProductSet> {
    match o {
        Outcome::Success(p) => Some(*p),
        _ => None,
    }
}

#[test]
fn nothing_flagged_spawns_nothing_and_succeeds_empty() {
    let c = ChangeSet::none();
    let steps = [server_start(true, &c), front_start(true, &c), style_start(true, &c)];
    let mut outcomes = Vec::new();
    for s in steps {
        match s {
            TaskStep::Done(o) => outcomes.push(o),
            other => panic!("unexpected step {:?}", other),
        }
    }
    let r = reduce(&outcomes);
    let p = products(&r).expect("success");
    assert!(p.is_empty());
}

#[test]
fn only_server_flagged_runs_only_the_server() {
    let c = ChangeSet { server: true, front: false, style: false };
    assert!(matches!(server_start(true, &c), TaskStep::Compile));
    assert!(matches!(front_start(true, &c), TaskStep::Done(Outcome::Success(Product::Nothing))));
    assert!(matches!(style_start(true, &c), TaskStep::Done(Outcome::Success(Product::Nothing))));
}

#[test]
fn unconfigured_task_is_skipped() {
    let c = ChangeSet::all();
    assert!(matches!(server_start(false, &c), TaskStep::Done(Outcome::Success(Product::Nothing))));
    assert!(matches!(front_start(false, &c), TaskStep::Done(Outcome::Success(Product::Nothing))));
    assert!(matches!(style_start(false, &c), TaskStep::Done(Outcome::Success(Product::Nothing))));
}

#[test]
fn stopped_beats_failed_beats_success() {
    let r = reduce(&vec![Outcome::Failed, Outcome::Stopped, Outcome::Success(Product::Server)]);
    assert!(matches!(r, Outcome::Stopped));
    let r = reduce(&vec![Outcome::Success(Product::Server), Outcome::Failed, Outcome::Success(Product::Style)]);
    assert!(matches!(r, Outcome::Failed));
    let r = reduce(&vec![
        Outcome::Success(Product::Server),
        Outcome::Success(Product::Nothing),
        Outcome::Success(Product::Style),
    ]);
    let p = products(&r).expect("success");
    assert!(p.contains(Product::Server));
    assert!(!p.contains(Product::Front));
    assert!(p.contains(Product::Style));
    assert!(!p.contains(Product::Nothing));
}

#[test]
fn all_three_products_reported() {
    let r = reduce(&vec![
        Outcome::Success(Product::Server),
        Outcome::Success(Product::Front),
        Outcome::Success(Product::Style),
    ]);
    let p = products(&r).expect("success");
    assert_eq!(p, ProductSet { server: true, front: true, style: true });
}

#[test]
fn empty_cycle_succeeds() {
    let r = reduce(&Vec::new());
    assert!(products(&r).expect("success").is_empty());
}

#[test]
fn interrupt_before_completion_stops_the_cycle() {
    let mut bus = InterruptBus::new();
    let mut server_receipt = bus.subscribe();
    let mut front_receipt = bus.subscribe();
    assert!(!bus.take(&mut server_receipt));
    bus.raise();
    assert!(bus.is_pending());
    let mut outcomes = Vec::new();
    for receipt in [&mut server_receipt, &mut front_receipt] {
        let fired = bus.take(receipt);
        assert!(fired);
        let step = settle(fired, None, output("", ""));
        let result = match step {
            RaceStep::Kill(r) => r,
            other => panic!("expected a kill, got {:?}", other),
        };
        match server_after_compile(&result) {
            TaskStep::Done(o) => outcomes.push(o),
            other => panic!("unexpected step {:?}", other),
        }
    }
    outcomes.push(Outcome::Success(Product::Nothing));
    assert!(matches!(reduce(&outcomes), Outcome::Stopped));
}

#[test]
fn receipt_fires_once_and_late_receipt_does_not_fire() {
    let mut bus = InterruptBus::new();
    let mut early = bus.subscribe();
    bus.raise();
    let mut late = bus.subscribe();
    assert!(bus.take(&mut early));
    assert!(!bus.take(&mut early));
    assert!(!bus.take(&mut late));
    bus.reset();
    assert!(!bus.is_pending());
    bus.raise();
    assert!(bus.take(&mut late));
}

#[test]
fn race_decisions() {
    assert!(matches!(settle(false, None, output("", "")), RaceStep::Wait));
    assert!(matches!(
        settle(false, Some(true), output("a", "")),
        RaceStep::Finished(CommandResult::Success(_))
    ));
    assert!(matches!(
        settle(false, Some(false), output("", "e")),
        RaceStep::Finished(CommandResult::Failure(_))
    ));
    assert!(matches!(settle(true, Some(true), output("", "")), RaceStep::Kill(CommandResult::Interrupted)));
}

#[test]
fn one_failure_fails_cycle_and_keeps_written_outputs() {
    let mut store = OutputStore::new();
    let site = "pkg/app.js".to_string();
    assert!(store.updated_with(&site, b"console.log(1)"));
    let front = front_finish(true, false);
    let server = server_after_compile(&CommandResult::Failure(output("", "error[E0308]")));
    let server = match server {
        TaskStep::Done(o) => o,
        other => panic!("unexpected step {:?}", other),
    };
    let r = reduce(&vec![server, front, Outcome::Success(Product::Nothing)]);
    assert!(matches!(r, Outcome::Failed));
    assert_eq!(store.stored_hash(&site), Some(seahash::hash(b"console.log(1)")));
}

#[test]
fn style_zero_exit_without_marker_fails() {
    let r = style_after_tool(CommandResult::Success(output("body{}", "Rebuilding...\nwarn: no utility classes")));
    assert!(matches!(r, Outcome::Failed));
}

#[test]
fn style_zero_exit_with_marker_succeeds_with_stdout() {
    let r = style_after_tool(CommandResult::Success(output("body{}", "Rebuilding...\nDone in 120ms.\n")));
    match r {
        Outcome::Success(out) => assert_eq!(out, b"body{}".to_vec()),
        _ => panic!("expected success"),
    }
}

#[test]
fn style_failure_and_interrupt() {
    assert!(matches!(style_after_tool(CommandResult::Failure(output("", "Done"))), Outcome::Failed));
    assert!(matches!(style_after_tool(CommandResult::Interrupted), Outcome::Stopped));
}

#[test]
fn done_marker_only_counts_on_last_line() {
    assert!(!has_done_marker(&Vec::new()));
    assert!(!has_done_marker(&b"Done\nfailed".to_vec()));
    assert!(has_done_marker(&b"x\nDone in 3ms\r\n".to_vec()));
    assert!(has_done_marker(&b"Done".to_vec()));
    assert!(!has_done_marker(&b"Done\n\n".to_vec()));
    assert!(!has_done_marker(&b"Don".to_vec()));
}

#[test]
fn front_unchanged_outputs_report_nothing() {
    let mut store = OutputStore::new();
    let js = "pkg/app.js".to_string();
    let wasm = "pkg/app.wasm".to_string();
    assert!(store.updated_with(&js, b"import x;"));
    assert!(store.did_external_file_change(&wasm, &[0, 97, 115, 109]));
    let c = ChangeSet::all();
    assert!(matches!(front_start(true, &c), TaskStep::Compile));
    let ok = CommandResult::Success(output("", ""));
    assert!(matches!(front_after_compile(&ok), TaskStep::Bindgen));
    assert!(matches!(front_after_bindgen(false), TaskStep::WriteOutputs));
    let js_changed = store.updated_with(&js, b"import x;");
    let wasm_changed = store.did_external_file_change(&wasm, &[0, 97, 115, 109]);
    assert!(!js_changed);
    assert!(!wasm_changed);
    assert!(matches!(front_finish(js_changed, wasm_changed), Outcome::Success(Product::Nothing)));
}

#[test]
fn front_release_runs_optimizer() {
    assert!(matches!(front_after_bindgen(true), TaskStep::Optimize));
    assert!(matches!(front_after_optimize(&CommandResult::Interrupted), TaskStep::Done(Outcome::Stopped)));
    assert!(matches!(
        front_after_optimize(&CommandResult::Failure(output("", ""))),
        TaskStep::Done(Outcome::Failed)
    ));
    assert!(matches!(
        front_after_optimize(&CommandResult::Success(output("", ""))),
        TaskStep::WriteOutputs
    ));
    assert!(matches!(front_finish(false, true), Outcome::Success(Product::Front)));
}

#[test]
fn server_binary_change_decides_product() {
    assert!(matches!(
        server_after_compile(&CommandResult::Success(output("", ""))),
        TaskStep::CheckBinary
    ));
    assert!(matches!(server_after_compile(&CommandResult::Interrupted), TaskStep::Done(Outcome::Stopped)));
    assert!(matches!(server_finish(true), Outcome::Success(Product::Server)));
    assert!(matches!(server_finish(false), Outcome::Success(Product::Nothing)));
    assert!(matches!(style_finish(true), Outcome::Success(Product::Style)));
    assert!(matches!(style_finish(false), Outcome::Success(Product::Nothing)));
}
