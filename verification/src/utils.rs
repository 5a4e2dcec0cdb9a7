//! The process that owns the focused window, and a name for a process.
//!
//! Naming a process takes several questions to the operating system, each of
//! which may fail. The questions are asked by the caller; this module decides
//! which one comes next and what the name is in the end.

use crate::text::{decimal, push_decimal};
use vstd::prelude::*;

verus! {

/// The pid that stands for "no process": reported as foreground when no
/// window has the focus, and never looked up.
pub const NO_PROCESS: u32 = 0;

/// The separator between the components of an image path.
pub const PATH_SEPARATOR: char = '\\';

/// The foreground pid that the answer of the focused-window query stands
/// for: the owner when a window has the focus, `NO_PROCESS` otherwise.
pub open spec fn foreground_of(owner: Option<u32>) -> u32 {
    match owner {
        Some(pid) => pid,
        None => NO_PROCESS,
    }
}

/// Turns the answer of the focused-window query into the foreground pid.
/// `owner` is the process that owns the focused window, `None` when no
/// window has the focus.
pub fn get_foreground_pid(owner: Option<u32>) -> (pid: u32)
    ensures
        pid == foreground_of(owner),
{
    match owner {
        Some(pid) => pid,
        None => NO_PROCESS,
    }
}

/// The file name of an image path: what follows the last separator, or the
/// whole path when it holds none. Empty when the path ends in a separator.
pub open spec fn base_name(path: Seq<char>) -> Seq<char>
    decreases path.len(),
{
    if path.len() == 0 {
        path
    } else if path.last() == PATH_SEPARATOR {
        Seq::empty()
    } else {
        base_name(path.drop_last()).push(path.last())
    }
}

/// The name of the process that is never looked up.
pub open spec fn system_name() -> Seq<char> {
    seq!['S', 'y', 's', 't', 'e', 'm']
}

/// The name given to a process about which nothing could be learnt:
/// `"Process (<pid>)"`.
pub open spec fn placeholder_name(pid: u32) -> Seq<char> {
    seq!['P', 'r', 'o', 'c', 'e', 's', 's', ' ', '('] + decimal(pid as nat) + seq![')']
}

/// The rights with which a process is opened.
#[derive(Clone, Copy, Debug, PartialEq, Eq, Structural)]
pub enum Access {
    /// The least that allows a query: tried first.
    Limited,
    /// Query and read rights: tried when the first yields no name.
    Full,
}

/// A question to the operating system about the process.
#[derive(Clone, Copy, Debug, PartialEq, Eq, Structural)]
pub enum Query {
    /// Open the process with these rights.
    Open(Access),
    /// Ask for the full path of the image of the process opened last.
    ImagePath(Access),
    /// Ask for the base name of the main module of the process opened last.
    BaseName(Access),
}

/// What the operating system answered.
#[derive(Clone, Debug)]
pub enum Answer {
    /// The call failed.
    Failed,
    /// The process was opened.
    Opened,
    /// The query returned this text.
    Text(String),
}

/// Where the naming of a process stands, in the terms of contracts.
pub enum Resolution {
    /// This question is to be asked next.
    Ask(Query),
    /// This is the name.
    Name(Seq<char>),
}

/// Where the naming of a process stands.
#[derive(Clone, Debug)]
pub enum Step {
    /// This question is to be asked next.
    Ask(Query),
    /// This is the name.
    Done(String),
}

impl View for Step {
    type V = Resolution;

    open spec fn view(&self) -> Resolution {
        match self {
            Step::Ask(query) => Resolution::Ask(*query),
            Step::Done(name) => Resolution::Name(name@),
        }
    }
}

/// How naming starts: pid 0 is "System" without a question; any other
/// process is first opened with the least rights.
pub open spec fn resolution_start(pid: u32) -> Resolution {
    if pid == NO_PROCESS {
        Resolution::Name(system_name())
    } else {
        Resolution::Ask(Query::Open(Access::Limited))
    }
}

/// What follows when the rights `access` have yielded no name: the broader
/// rights after the least, the placeholder after the broader.
pub open spec fn resolution_after_miss(pid: u32, access: Access) -> Resolution {
    match access {
        Access::Limited => Resolution::Ask(Query::Open(Access::Full)),
        Access::Full => Resolution::Name(placeholder_name(pid)),
    }
}

/// What follows the answer to a question. An opened process is asked for its
/// image path; a path with a file name gives the name; without one the base
/// name is asked for, and a base name that is not empty is the name. A failed
/// open, or a process that has neither, is a miss.
pub open spec fn resolution_next(pid: u32, asked: Query, answer: Answer) -> Resolution {
    match asked {
        Query::Open(access) => match answer {
            Answer::Opened => Resolution::Ask(Query::ImagePath(access)),
            _ => resolution_after_miss(pid, access),
        },
        Query::ImagePath(access) => match answer {
            Answer::Text(path) if base_name(path@).len() > 0 => Resolution::Name(base_name(path@)),
            _ => Resolution::Ask(Query::BaseName(access)),
        },
        Query::BaseName(access) => match answer {
            Answer::Text(name) if name@.len() > 0 => Resolution::Name(name@),
            _ => resolution_after_miss(pid, access),
        },
    }
}

/// How many questions may still follow.
pub open spec fn questions_left(resolution: Resolution) -> nat {
    match resolution {
        Resolution::Name(_) => 0,
        Resolution::Ask(Query::BaseName(Access::Full)) => 1,
        Resolution::Ask(Query::ImagePath(Access::Full)) => 2,
        Resolution::Ask(Query::Open(Access::Full)) => 3,
        Resolution::Ask(Query::BaseName(Access::Limited)) => 4,
        Resolution::Ask(Query::ImagePath(Access::Limited)) => 5,
        Resolution::Ask(Query::Open(Access::Limited)) => 6,
    }
}

/// The answer to the question number `k`: the one given, or a failure when
/// fewer answers were given.
pub open spec fn answer_at(answers: Seq<Answer>, k: int) -> Answer {
    if 0 <= k < answers.len() {
        answers[k]
    } else {
        Answer::Failed
    }
}

/// The name reached from `resolution` when the questions from number `k` on
/// are answered by `answers`.
pub open spec fn resolve_from(pid: u32, resolution: Resolution, answers: Seq<Answer>, k: int) -> Seq<
    char,
>
    decreases questions_left(resolution),
{
    match resolution {
        Resolution::Name(name) => name,
        Resolution::Ask(query) => resolve_from(
            pid,
            resolution_next(pid, query, answer_at(answers, k)),
            answers,
            k + 1,
        ),
    }
}

/// The name of process `pid` when the questions are answered by `answers`,
/// in the order in which they are asked.
pub open spec fn resolved_name(pid: u32, answers: Seq<Answer>) -> Seq<char> {
    resolve_from(pid, resolution_start(pid), answers, 0)
}

/// Derives the file name from an image path.
pub fn file_name_of(path: &str) -> (name: String)
    ensures
        name@ == base_name(path@),
{
    let mut name = String::new();
    let chars = path.chars();
    for c in it: chars
        invariant
            it.seq() == path@,
            name@ == base_name(path@.take(it.index())),
    {
        proof {
            let read = path@.take(it.index() + 1);
            assert(read.drop_last() == path@.take(it.index()));
            assert(read.last() == c);
        }
        if c == PATH_SEPARATOR {
            name = String::new();
        } else {
            name.push(c);
        }
    }
    proof {
        assert(path@.take(path@.len() as int) == path@);
    }
    name
}

/// Writes the name of the process that is never looked up.
pub fn system_process_name() -> (name: String)
    ensures
        name@ == system_name(),
{
    let mut name = String::new();
    name.push('S');
    name.push('y');
    name.push('s');
    name.push('t');
    name.push('e');
    name.push('m');
    name
}

/// Writes the name of a process about which nothing could be learnt.
pub fn placeholder_for(pid: u32) -> (name: String)
    ensures
        name@ == placeholder_name(pid),
{
    let mut name = String::new();
    name.push('P');
    name.push('r');
    name.push('o');
    name.push('c');
    name.push('e');
    name.push('s');
    name.push('s');
    name.push(' ');
    name.push('(');
    push_decimal(&mut name, pid as u64);
    name.push(')');
    name
}

/// The first step of naming process `pid`.
pub fn resolve_start(pid: u32) -> (step: Step)
    ensures
        step@ == resolution_start(pid),
{
    if pid == NO_PROCESS {
        Step::Done(system_process_name())
    } else {
        Step::Ask(Query::Open(Access::Limited))
    }
}

/// The step after the rights `access` have yielded no name.
fn resolve_after_miss(pid: u32, access: Access) -> (step: Step)
    ensures
        step@ == resolution_after_miss(pid, access),
{
    match access {
        Access::Limited => Step::Ask(Query::Open(Access::Full)),
        Access::Full => Step::Done(placeholder_for(pid)),
    }
}

/// The step that follows the answer to the question `asked`.
pub fn resolve_next(pid: u32, asked: Query, answer: &Answer) -> (step: Step)
    ensures
        step@ == resolution_next(pid, asked, *answer),
{
    match asked {
        Query::Open(access) => match answer {
            Answer::Opened => Step::Ask(Query::ImagePath(access)),
            _ => resolve_after_miss(pid, access),
        },
        Query::ImagePath(access) => match answer {
            Answer::Text(path) => {
                let name = file_name_of(path.as_str());
                if !name.as_str().is_empty() {
                    Step::Done(name)
                } else {
                    Step::Ask(Query::BaseName(access))
                }
            },
            _ => Step::Ask(Query::BaseName(access)),
        },
        Query::BaseName(access) => match answer {
            Answer::Text(name) => {
                if !name.as_str().is_empty() {
                    Step::Done(name.clone())
                } else {
                    resolve_after_miss(pid, access)
                }
            },
            _ => resolve_after_miss(pid, access),
        },
    }
}

/// Names process `pid` from the answers of the operating system, given in
/// the order in which the questions are asked. A question that has no answer
/// in `answers` counts as failed; answers beyond the last question asked are
/// not read.
pub fn get_process_name_by_pid(pid: u32, answers: &Vec<Answer>) -> (name: String)
    ensures
        name@ == resolved_name(pid, answers@),
        name@.len() > 0,
{
    let failed = Answer::Failed;
    let mut step = resolve_start(pid);
    let mut k: usize = 0;
    loop
        invariant
            failed == Answer::Failed,
            k + questions_left(step@) <= 6,
            resolve_from(pid, step@, answers@, k as int) == resolved_name(pid, answers@),
        decreases questions_left(step@),
    {
        match step {
            Step::Done(name) => {
                proof {
                    lemma_resolved_name_is_not_empty(pid, answers@);
                }
                return name;
            },
            Step::Ask(query) => {
                let answer = if k < answers.len() {
                    &answers[k]
                } else {
                    &failed
                };
                step = resolve_next(pid, query, answer);
                k += 1;
            },
        }
    }
}

/// The file name is the last component of the path: it is the end of the
/// path, holds no separator, and is the whole path or stands right behind a
/// separator.
pub proof fn lemma_base_name_is_last_component(path: Seq<char>)
    ensures
        base_name(path).len() <= path.len(),
        base_name(path) == path.subrange(path.len() - base_name(path).len(), path.len() as int),
        forall|i: int| 0 <= i < base_name(path).len() ==> base_name(path)[i] != PATH_SEPARATOR,
        base_name(path).len() < path.len() ==> path[path.len() - base_name(path).len() - 1]
            == PATH_SEPARATOR,
    decreases path.len(),
{
    if path.len() > 0 && path.last() != PATH_SEPARATOR {
        let front = path.drop_last();
        lemma_base_name_is_last_component(front);
        let name = base_name(front);
        assert(name.push(path.last()) =~= path.subrange(
            path.len() - name.len() - 1,
            path.len() as int,
        ));
        if name.len() < front.len() {
            assert(front[front.len() - name.len() - 1] == path[path.len() - name.len() - 2]);
        }
    }
}

/// Whatever the answers, naming ends with a name that is not empty.
pub proof fn lemma_resolve_from_is_not_empty(
    pid: u32,
    resolution: Resolution,
    answers: Seq<Answer>,
    k: int,
)
    requires
        resolution matches Resolution::Name(name) ==> name.len() > 0,
    ensures
        resolve_from(pid, resolution, answers, k).len() > 0,
    decreases questions_left(resolution),
{
    match resolution {
        Resolution::Name(_) => {},
        Resolution::Ask(query) => {
            lemma_resolve_from_is_not_empty(
                pid,
                resolution_next(pid, query, answer_at(answers, k)),
                answers,
                k + 1,
            );
        },
    }
}

/// Every process gets a usable name: the resolved name is never empty.
pub proof fn lemma_resolved_name_is_not_empty(pid: u32, answers: Seq<Answer>)
    ensures
        resolved_name(pid, answers).len() > 0,
{
    lemma_resolve_from_is_not_empty(pid, resolution_start(pid), answers, 0);
}

/// Pid 0 is "System" whatever the answers.
pub proof fn lemma_no_process_is_system(answers: Seq<Answer>)
    ensures
        resolved_name(NO_PROCESS, answers) == system_name(),
{
}

/// When every question fails, the name is the placeholder.
pub proof fn lemma_all_failed_gives_placeholder(pid: u32)
    requires
        pid != NO_PROCESS,
    ensures
        resolved_name(pid, Seq::<Answer>::empty()) == placeholder_name(pid),
{
    reveal_with_fuel(resolve_from, 4);
}

} // verus!
