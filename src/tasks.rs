use vstd::prelude::*;
use crate::change::ChangeSet;
use crate::outcome::{Outcome, Product};
use crate::runner::{CommandOutput, CommandResult};

verus! {

/// What a build task does next.
#[derive(Clone, Debug)]
pub enum TaskStep {
    /// Launch the task's compiler (front end: after creating its output
    /// package directory).
    Compile,
    /// Server: hash the binary that the compiler wrote.
    CheckBinary,
    /// Front end: generate the JavaScript bindings of the compiled module.
    Bindgen,
    /// Front end: run the size optimiser on the module.
    Optimize,
    /// Write the generated outputs through the output store.
    WriteOutputs,
    /// The task is over.
    Done(Outcome<Product>),
}

/// Whether a task's process was spawned at all: a step other than `Done`.
pub open spec fn spawns(s: TaskStep) -> bool {
    !(s is Done)
}

/// How a process result ends a step that launched it: cancellation stops
/// the task, a failure fails it, a success leads to `next`.
pub open spec fn after_process(r: CommandResult, next: TaskStep) -> TaskStep {
    match r {
        CommandResult::Success(_) => next,
        CommandResult::Failure(_) => TaskStep::Done(Outcome::Failed),
        CommandResult::Interrupted => TaskStep::Done(Outcome::Stopped),
    }
}

fn step_after_process(r: &CommandResult, next: TaskStep) -> (s: TaskStep)
    ensures
        s == after_process(*r, next),
{
    match r {
        CommandResult::Success(_) => next,
        CommandResult::Failure(_) => TaskStep::Done(Outcome::Failed),
        CommandResult::Interrupted => TaskStep::Done(Outcome::Stopped),
    }
}

/// A task starts its toolchain only if it has something configured to
/// build and the change set asks for it.
pub open spec fn start_step(configured: bool, needed: bool) -> TaskStep {
    if configured && needed {
        TaskStep::Compile
    } else {
        TaskStep::Done(Outcome::Success(Product::Nothing))
    }
}

/// The server task's first step.
pub fn server_start(has_bin: bool, changes: &ChangeSet) -> (s: TaskStep)
    ensures
        s == start_step(has_bin, changes.server),
{
    if has_bin && changes.need_server_build() {
        TaskStep::Compile
    } else {
        TaskStep::Done(Outcome::Success(Product::Nothing))
    }
}

/// The server task's step once the compiler has finished.
pub fn server_after_compile(r: &CommandResult) -> (s: TaskStep)
    ensures
        s == after_process(*r, TaskStep::CheckBinary),
{
    step_after_process(r, TaskStep::CheckBinary)
}

/// The server task's outcome once the binary has been checked: the server is
/// reported only if its bytes changed.
pub fn server_finish(bin_changed: bool) -> (o: Outcome<Product>)
    ensures
        o == Outcome::Success(if bin_changed {
            Product::Server
        } else {
            Product::Nothing
        }),
{
    if bin_changed {
        Outcome::Success(Product::Server)
    } else {
        Outcome::Success(Product::Nothing)
    }
}

/// The front-end task's first step.
pub fn front_start(has_lib: bool, changes: &ChangeSet) -> (s: TaskStep)
    ensures
        s == start_step(has_lib, changes.front),
{
    if has_lib && changes.need_front_build() {
        TaskStep::Compile
    } else {
        TaskStep::Done(Outcome::Success(Product::Nothing))
    }
}

/// The front-end task's step once the compiler has finished.
pub fn front_after_compile(r: &CommandResult) -> (s: TaskStep)
    ensures
        s == after_process(*r, TaskStep::Bindgen),
{
    step_after_process(r, TaskStep::Bindgen)
}

/// The step after the bindings were generated: a release build is optimised
/// first.
pub fn front_after_bindgen(release: bool) -> (s: TaskStep)
    ensures
        s == (if release {
            TaskStep::Optimize
        } else {
            TaskStep::WriteOutputs
        }),
{
    if release {
        TaskStep::Optimize
    } else {
        TaskStep::WriteOutputs
    }
}

/// The front-end task's step once the optimiser has finished.
pub fn front_after_optimize(r: &CommandResult) -> (s: TaskStep)
    ensures
        s == after_process(*r, TaskStep::WriteOutputs),
{
    step_after_process(r, TaskStep::WriteOutputs)
}

/// The front-end task's outcome once its outputs went through the store:
/// the front end is reported if the module or any script changed.
pub fn front_finish(js_changed: bool, wasm_changed: bool) -> (o: Outcome<Product>)
    ensures
        o == Outcome::Success(if js_changed || wasm_changed {
            Product::Front
        } else {
            Product::Nothing
        }),
{
    if js_changed || wasm_changed {
        Outcome::Success(Product::Front)
    } else {
        Outcome::Success(Product::Nothing)
    }
}

/// The style task's first step.
pub fn style_start(has_style: bool, changes: &ChangeSet) -> (s: TaskStep)
    ensures
        s == start_step(has_style, changes.style),
{
    if has_style && changes.need_style_build() {
        TaskStep::Compile
    } else {
        TaskStep::Done(Outcome::Success(Product::Nothing))
    }
}

/// The style task's outcome once the stylesheet went through the store.
pub fn style_finish(css_changed: bool) -> (o: Outcome<Product>)
    ensures
        o == Outcome::Success(if css_changed {
            Product::Style
        } else {
            Product::Nothing
        }),
{
    if css_changed {
        Outcome::Success(Product::Style)
    } else {
        Outcome::Success(Product::Nothing)
    }
}

/// The bytes of the CSS bundler's completion marker, `Done`.
pub open spec fn done_marker() -> Seq<u8> {
    seq![68u8, 111u8, 110u8, 101u8]
}

/// Where the line that ends at `end` begins: just after the last newline
/// before `end`, or at 0.
pub open spec fn line_start(s: Seq<u8>, end: int) -> int
    decreases end,
{
    if end <= 0 {
        0
    } else if s[end - 1] == 10u8 {
        end
    } else {
        line_start(s, end - 1)
    }
}

/// The last line of `s`, as a line iterator yields it: a final newline ends
/// the last line rather than starting an empty one; empty text has none.
pub open spec fn last_line(s: Seq<u8>) -> Option<Seq<u8>> {
    if s.len() == 0 {
        Option::None
    } else {
        let end = if s.last() == 10u8 {
            s.len() - 1
        } else {
            s.len() as int
        };
        Option::Some(s.subrange(line_start(s, end), end))
    }
}

/// `needle` occurs in `hay` at `i`.
pub open spec fn occurs_at(hay: Seq<u8>, needle: Seq<u8>, i: int) -> bool {
    0 <= i && i + needle.len() <= hay.len() && hay.subrange(i, i + needle.len()) == needle
}

/// `l` holds the completion marker.
pub open spec fn holds_marker(l: Seq<u8>) -> bool {
    exists|i: int| occurs_at(l, done_marker(), i)
}

/// The last line of the bundler's diagnostics holds the completion marker.
pub open spec fn reports_done(stderr: Seq<u8>) -> bool {
    match last_line(stderr) {
        Option::Some(l) => holds_marker(l),
        Option::None => false,
    }
}

fn find_line_start(s: &Vec<u8>, end: usize) -> (k: usize)
    requires
        end <= s@.len(),
    ensures
        k as int == line_start(s@, end as int),
        k <= end,
{
    let mut k: usize = end;
    while k > 0 && s[k - 1] != 10u8
        invariant
            k <= end <= s@.len(),
            line_start(s@, k as int) == line_start(s@, end as int),
        decreases k,
    {
        k = k - 1;
    }
    k
}

/// Whether the last line of `stderr` holds the completion marker.
pub fn has_done_marker(stderr: &Vec<u8>) -> (r: bool)
    ensures
        r == reports_done(stderr@),
{
    let n = stderr.len();
    if n == 0 {
        return false;
    }
    let end: usize = if stderr[n - 1] == 10u8 {
        n - 1
    } else {
        n
    };
    let start = find_line_start(stderr, end);
    let ghost l = stderr@.subrange(start as int, end as int);
    assert(last_line(stderr@) == Option::Some(l));
    let mut i: usize = start;
    while i < end && end - i >= 4
        invariant
            start <= i <= end,
            end <= n == stderr@.len(),
            l == stderr@.subrange(start as int, end as int),
            last_line(stderr@) == Option::Some(l),
            forall|j: int| 0 <= j < i - start ==> !occurs_at(l, done_marker(), j),
        decreases end - i,
    {
        if stderr[i] == 68u8 && stderr[i + 1] == 111u8 && stderr[i + 2] == 110u8 && stderr[i
            + 3] == 101u8 {
            assert(done_marker().len() == 4);
            assert(l.subrange(i - start, i - start + 4) =~= done_marker());
            assert(occurs_at(l, done_marker(), i - start));
            return true;
        }
        proof {
            if occurs_at(l, done_marker(), i - start) {
                assert(l.subrange(i - start, i - start + 4)[0] == stderr@[i as int]);
                assert(l.subrange(i - start, i - start + 4)[1] == stderr@[i + 1]);
                assert(l.subrange(i - start, i - start + 4)[2] == stderr@[i + 2]);
                assert(l.subrange(i - start, i - start + 4)[3] == stderr@[i + 3]);
            }
        }
        i = i + 1;
    }
    false
}

/// The style task's outcome from the bundler's result: a zero exit counts
/// only if the last diagnostic line holds the completion marker; the
/// payload is what the bundler printed on its standard output.
pub open spec fn style_result(r: CommandResult) -> Outcome<Seq<u8>> {
    match r {
        CommandResult::Success(out) => if reports_done(out.stderr@) {
            Outcome::Success(out.stdout@)
        } else {
            Outcome::Failed
        },
        CommandResult::Failure(_) => Outcome::Failed,
        CommandResult::Interrupted => Outcome::Stopped,
    }
}

/// The view of a task outcome that carries bytes.
pub open spec fn bytes_outcome(o: Outcome<Vec<u8>>) -> Outcome<Seq<u8>> {
    match o {
        Outcome::Success(b) => Outcome::Success(b@),
        Outcome::Stopped => Outcome::Stopped,
        Outcome::Failed => Outcome::Failed,
    }
}

/// Decides the style task from the bundler's result.
pub fn style_after_tool(r: CommandResult) -> (o: Outcome<Vec<u8>>)
    ensures
        bytes_outcome(o) == style_result(r),
{
    match r {
        CommandResult::Success(out) => {
            if has_done_marker(&out.stderr) {
                Outcome::Success(out.stdout)
            } else {
                Outcome::Failed
            }
        },
        CommandResult::Failure(_) => Outcome::Failed,
        CommandResult::Interrupted => Outcome::Stopped,
    }
}

} // verus!
