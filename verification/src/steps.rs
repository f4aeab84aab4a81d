//! The steps that applying a theme takes on the machine.
//!
//! A loader does not act: it returns the steps, in the order in which they
//! are to be taken. Whoever takes them keeps one buffer of text, empty at the
//! start of each loader: `Read` adds a file's contents to its end, `Write`
//! stores it.
use crate::paths::{cat, temp_sibling, temp_sibling_path};
use crate::text::texts;
use vstd::prelude::*;

verus! {

/// One step of a loader.
#[derive(Debug, Clone, PartialEq, Eq)]
pub enum Step {
    /// Create the directory `path`.
    CreateDir { path: String },
    /// Copy the file `from` over the file `to`.
    Copy { from: String, to: String },
    /// Add the contents of the file `path` to the end of the buffer.
    Read { path: String },
    /// Remove the file `path`.
    Remove { path: String },
    /// Remove the directory `path` with all that is in it.
    RemoveTree { path: String },
    /// Pack the directory `dir` with all that is in it into the new archive
    /// `archive`, under the name `root`.
    Pack { dir: String, archive: String, root: String },
    /// Unpack the archive `archive` into the directory `into`.
    Unpack { archive: String, into: String },
    /// Create the file `path` if it is missing, with the permission bits
    /// `mode` if some are given, and write the buffer to it.
    Write { path: String, mode: Option<u32> },
    /// Start `program` with `args`, and wait for its end if `wait` is set.
    Run { program: String, args: Vec<String>, wait: bool },
    /// Set the key `pattern` to `value` in the settings file `file`.
    Patch { file: String, pattern: String, value: String },
}

/// A step with its texts as character sequences.
pub enum StepView {
    CreateDir { path: Seq<char> },
    Copy { from: Seq<char>, to: Seq<char> },
    Read { path: Seq<char> },
    Remove { path: Seq<char> },
    RemoveTree { path: Seq<char> },
    Pack { dir: Seq<char>, archive: Seq<char>, root: Seq<char> },
    Unpack { archive: Seq<char>, into: Seq<char> },
    Write { path: Seq<char>, mode: Option<u32> },
    Run { program: Seq<char>, args: Seq<Seq<char>>, wait: bool },
    Patch { file: Seq<char>, pattern: Seq<char>, value: Seq<char> },
}

impl View for Step {
    type V = StepView;

    open spec fn view(&self) -> StepView {
        match self {
            Step::CreateDir { path } => StepView::CreateDir { path: path@ },
            Step::Copy { from, to } => StepView::Copy { from: from@, to: to@ },
            Step::Read { path } => StepView::Read { path: path@ },
            Step::Remove { path } => StepView::Remove { path: path@ },
            Step::RemoveTree { path } => StepView::RemoveTree { path: path@ },
            Step::Pack { dir, archive, root } => StepView::Pack {
                dir: dir@,
                archive: archive@,
                root: root@,
            },
            Step::Unpack { archive, into } => StepView::Unpack { archive: archive@, into: into@ },
            Step::Write { path, mode } => StepView::Write { path: path@, mode: *mode },
            Step::Run { program, args, wait } => StepView::Run {
                program: program@,
                args: texts(args@),
                wait: *wait,
            },
            Step::Patch { file, pattern, value } => StepView::Patch {
                file: file@,
                pattern: pattern@,
                value: value@,
            },
        }
    }
}

/// The steps of a plan, each by its view.
pub open spec fn steps_view(plan: Seq<Step>) -> Seq<StepView> {
    Seq::new(plan.len(), |i: int| plan[i]@)
}

/// The step that starts `program` with `args`.
pub fn run(program: &str, args: Vec<String>, wait: bool) -> (step: Step)
    ensures
        step@ == (StepView::Run { program: program@, args: texts(args@), wait }),
{
    Step::Run { program: program.to_owned(), args, wait }
}

/// One argument.
pub fn args1(a: String) -> (args: Vec<String>)
    ensures
        texts(args@) == seq![a@],
{
    let mut args: Vec<String> = Vec::new();
    args.push(a);
    assert(texts(args@) =~= seq![a@]);
    args
}

/// Two arguments.
pub fn args2(a: String, b: String) -> (args: Vec<String>)
    ensures
        texts(args@) == seq![a@, b@],
{
    let mut args: Vec<String> = Vec::new();
    args.push(a);
    args.push(b);
    assert(texts(args@) =~= seq![a@, b@]);
    args
}

/// Three arguments.
pub fn args3(a: String, b: String, c: String) -> (args: Vec<String>)
    ensures
        texts(args@) == seq![a@, b@, c@],
{
    let mut args: Vec<String> = Vec::new();
    args.push(a);
    args.push(b);
    args.push(c);
    assert(texts(args@) =~= seq![a@, b@, c@]);
    args
}

/// Adds `step` to the end of `plan`.
pub fn append_step(plan: &mut Vec<Step>, step: Step)
    ensures
        steps_view(final(plan)@) == steps_view(old(plan)@).push(step@),
{
    plan.push(step);
    assert(steps_view(plan@) =~= steps_view(old(plan)@).push(step@));
}

/// Adds the steps of `more` to the end of `plan`.
pub fn append_steps(plan: &mut Vec<Step>, more: Vec<Step>)
    ensures
        steps_view(final(plan)@) == steps_view(old(plan)@) + steps_view(more@),
{
    let ghost added = more@;
    let mut rest = more;
    plan.append(&mut rest);
    assert(steps_view(plan@) =~= steps_view(old(plan)@) + steps_view(added));
}

/// A plan without steps.
pub fn no_steps() -> (plan: Vec<Step>)
    ensures
        steps_view(plan@) == Seq::<StepView>::empty(),
{
    let plan: Vec<Step> = Vec::new();
    assert(steps_view(plan@) =~= Seq::<StepView>::empty());
    plan
}

/// The steps that replace the file `file` of the directory `dir` by what
/// the buffer holds, so that nobody ever reads a file that is half
/// written: the new contents go to a sibling of the file, the sibling is
/// copied over the file, and the sibling is removed.
pub open spec fn save_steps(dir: Seq<char>, file: Seq<char>) -> Seq<StepView> {
    seq![
        StepView::Write { path: temp_sibling(dir, file), mode: None },
        StepView::Copy { from: temp_sibling(dir, file), to: dir + "/"@ + file },
        StepView::Remove { path: temp_sibling(dir, file) },
    ]
}

/// The steps that replace the file `file` of the directory `dir` by what
/// the buffer holds.
pub fn save(dir: &str, file: &str) -> (plan: Vec<Step>)
    ensures
        steps_view(plan@) == save_steps(dir@, file@),
{
    let mut plan = no_steps();
    append_step(&mut plan, Step::Write { path: temp_sibling_path(dir, file), mode: None });
    append_step(
        &mut plan,
        Step::Copy { from: temp_sibling_path(dir, file), to: cat(dir, "/").concat(file) },
    );
    append_step(&mut plan, Step::Remove { path: temp_sibling_path(dir, file) });
    assert(steps_view(plan@) =~= save_steps(dir@, file@));
    plan
}

} // verus!
