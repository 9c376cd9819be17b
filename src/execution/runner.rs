//! The decisions of the process streamer: which command actually runs, what
//! each read from an output stream produces, and what the end of the
//! process means. Spawning, reading and waiting happen outside the library.
use crate::models::run::{EventView, TestRunEvent};
use crate::parsing::text::{push_text, same_text, texts};
use vstd::prelude::*;

verus! {

/// Programs that buffer their output fully when it goes to a pipe: they are
/// run under `script -q /dev/null --`, which gives them a terminal.
pub open spec fn needs_terminal(program: Seq<char>) -> bool {
    program == "xcodebuild"@ || program == "swift"@
}

/// The program and arguments that actually run for `program args`.
pub open spec fn resolved_command(program: Seq<char>, args: Seq<Seq<char>>) -> (
    Seq<char>,
    Seq<Seq<char>>,
) {
    if needs_terminal(program) {
        ("script"@, seq!["-q"@, "/dev/null"@, "--"@, program] + args)
    } else {
        (program, args)
    }
}

/// The command to spawn for `program` with `args`.
pub fn resolve_command(program: &str, args: &[String]) -> (r: (String, Vec<String>))
    ensures
        (r.0@, texts(r.1@)) == resolved_command(program@, texts(args@)),
{
    let wrapped = same_text(program, "xcodebuild") || same_text(program, "swift");
    let mut out: Vec<String> = Vec::new();
    if wrapped {
        push_text(&mut out, String::from_str("-q"));
        push_text(&mut out, String::from_str("/dev/null"));
        push_text(&mut out, String::from_str("--"));
        push_text(&mut out, String::from_str(program));
    }
    let ghost head = texts(out@);
    let mut i: usize = 0;
    while i < args.len()
        invariant
            i <= args@.len(),
            texts(out@) == head + texts(args@).subrange(0, i as int),
        decreases args@.len() - i,
    {
        push_text(&mut out, args[i].clone());
        i = i + 1;
        assert(texts(out@) =~= head + texts(args@).subrange(0, i as int));
    }
    assert(texts(args@).subrange(0, i as int) =~= texts(args@));
    if wrapped {
        (String::from_str("script"), out)
    } else {
        assert(head =~= Seq::<Seq<char>>::empty());
        assert(texts(out@) =~= texts(args@));
        (String::from_str(program), out)
    }
}

/// Which output stream of the child a line came from.
#[derive(Debug, Clone, Copy, PartialEq, Eq, Structural)]
pub enum StreamKind {
    Stdout,
    Stderr,
}

/// What one read from an output stream gave.
#[derive(Debug, Clone)]
pub enum ReadOutcome {
    Line(String),
    EndOfStream,
    ReadFailed,
    Cancelled,
}

/// What the wait for the child gave.
#[derive(Debug, Clone)]
pub enum WaitOutcome {
    Exited { success: bool },
    WaitFailed { message: String },
    Cancelled,
}

/// What the streamer does with one read: a line is relayed as an event of
/// its stream and reading goes on; the end of the stream, a read error or
/// cancellation stops the reader (`None`).
pub fn on_read(stream: StreamKind, outcome: ReadOutcome) -> (r: Option<TestRunEvent>)
    ensures
        match outcome {
            ReadOutcome::Line(l) => r matches Some(e) && e@ == match stream {
                StreamKind::Stdout => EventView::Stdout { line: l@ },
                StreamKind::Stderr => EventView::Stderr { line: l@ },
            },
            _ => r is None,
        },
{
    match outcome {
        ReadOutcome::Line(line) => match stream {
            StreamKind::Stdout => Some(TestRunEvent::Stdout { line }),
            StreamKind::Stderr => Some(TestRunEvent::Stderr { line }),
        },
        _ => None,
    }
}

/// The unit's success and the event to report, given how the wait ended: a
/// natural exit succeeds exactly when its status does; cancellation (the
/// child is killed) fails; a failed wait fails and is reported as an error.
pub fn on_wait(outcome: WaitOutcome) -> (r: (bool, Option<TestRunEvent>))
    ensures
        match outcome {
            WaitOutcome::Exited { success } => r.0 == success && r.1 is None,
            WaitOutcome::Cancelled => !r.0 && r.1 is None,
            WaitOutcome::WaitFailed { message } => !r.0 && (r.1 matches Some(e) && e@
                == EventView::Error { message: "Process error: "@ + message@ }),
        },
{
    match outcome {
        WaitOutcome::Exited { success } => (success, None),
        WaitOutcome::Cancelled => (false, None),
        WaitOutcome::WaitFailed { message } => {
            let text = String::from_str("Process error: ").concat(message.as_str());
            (false, Some(TestRunEvent::Error { message: text }))
        },
    }
}

} // verus!
