//! Provides a means to handle errors intended for command line interfaces.
//!
//! Command line applications report failures to users by printing a message to
//! the error stream and exiting the process with a status code. This module
//! provides a structured way of producing such errors: an [`Error`] carries
//! the exit status, an optional root message, and an ordered stack of context
//! annotations that callers append as the error travels up the call stack.

use vstd::prelude::*;
use vstd::string::StringExecFns;

verus! {

/// An error with an exit status.
///
/// The type manages the exit status code, an optional root error message, and
/// any additional context messages that may be added as the error travels up
/// the call stack.
#[derive(Debug)]
pub struct Error {
    /// The additional context messages for the error.
    context: Option<Vec<String>>,

    /// The original error message.
    message: Option<String>,

    /// The exit status code.
    status: i32,
}

impl Error {
    /// The exit status code carried by the error.
    pub closed spec fn spec_status(self) -> int {
        self.status as int
    }

    /// The root message, where one was set.
    pub closed spec fn spec_message(self) -> Option<Seq<char>> {
        match self.message {
            Some(text) => Some(text@),
            None => None,
        }
    }

    /// The context annotations in insertion order, where any were added.
    pub closed spec fn spec_context(self) -> Option<Seq<Seq<char>>> {
        match self.context {
            Some(entries) => Some(Seq::new(entries@.len(), |i: int| entries@[i]@)),
            None => None,
        }
    }

    /// The context annotations in insertion order; empty when none were added.
    pub open spec fn ctx_entries(self) -> Seq<Seq<char>> {
        match self.spec_context() {
            Some(entries) => entries,
            None => Seq::empty(),
        }
    }

    /// An empty context collection is normalized to "no context": a present
    /// context sequence is never empty.
    pub open spec fn wf(self) -> bool {
        self.spec_context() matches Some(entries) ==> entries.len() > 0
    }

    /// Creates a new error with the given exit status code.
    pub fn new(status: i32) -> (r: Error)
        ensures
            r.spec_status() == status as int,
            r.spec_message() is None,
            r.spec_context() is None,
            r.wf(),
    {
        Error { context: None, message: None, status }
    }

    /// Sets or replaces the original error message.
    pub fn message(self, message: String) -> (r: Error)
        ensures
            r.spec_status() == self.spec_status(),
            r.spec_message() == Some(message@),
            r.spec_context() == self.spec_context(),
            self.wf() ==> r.wf(),
    {
        Error { context: self.context, message: Some(message), status: self.status }
    }

    /// Appends one annotation to the end of the context sequence. Never fails.
    pub fn context(self, message: String) -> (r: Error)
        ensures
            r.spec_status() == self.spec_status(),
            r.spec_message() == self.spec_message(),
            r.spec_context() is Some,
            r.ctx_entries() == self.ctx_entries().push(message@),
            r.wf(),
    {
        let mut entries = match self.context {
            Some(entries) => entries,
            None => Vec::new(),
        };
        entries.push(message);
        let r = Error { context: Some(entries), message: self.message, status: self.status };
        proof {
            assert(r.ctx_entries() =~= self.ctx_entries().push(message@));
        }
        r
    }

    /// Builds an error from a chain of native error display texts, outermost
    /// first, walked from the given error toward its terminal, sourceless
    /// cause.
    ///
    /// Every text but the last is appended to the context sequence in
    /// traversal order; the last text, the terminal cause, becomes the root
    /// message. Where the terminal cause is an operating-system failure, its
    /// raw platform error code is passed as `os_code` and becomes the exit
    /// status; otherwise the status defaults to 1. A chain of length one
    /// yields an error with a message and no context.
    pub fn from_chain(texts: Vec<String>, os_code: Option<i32>) -> (r: Error)
        requires
            texts@.len() >= 1,
        ensures
            r.spec_message() == Some(texts@.last()@),
            r.spec_context() is Some <==> texts@.len() > 1,
            r.ctx_entries() == Seq::new((texts@.len() - 1) as nat, |i: int| texts@[i]@),
            r.spec_status() == (match os_code {
                Some(code) => code as int,
                None => 1int,
            }),
            r.wf(),
    {
        let mut entries = texts;
        let message = entries.pop().unwrap();
        let status = match os_code {
            Some(code) => code,
            None => 1,
        };
        let context = if entries.len() > 0 {
            Some(entries)
        } else {
            None
        };
        let r = Error { context, message: Some(message), status };
        proof {
            assert(r.ctx_entries() =~= Seq::new((texts@.len() - 1) as nat, |i: int| texts@[i]@));
        }
        r
    }
}

/// A trait to add context to an error result.
///
/// This trait simplifies conditionally adding context to a result that may
/// carry an [`Error`]. The function used to create the context message is
/// only invoked if the result is a failure, which optimizes away the call if
/// the result is a success.
pub trait Context: Sized {
    /// Whether the result is a failure: only then does adding context invoke
    /// the message function.
    spec fn is_failure(self) -> bool;

    /// Adds context to an error result using a function that produces the
    /// message. The function need not even be callable on a success, since
    /// it is never invoked there.
    fn context<F: FnOnce() -> String>(self, message: F) -> Self
        requires
            self.is_failure() ==> call_requires(message, ()),
    ;
}

impl<T> Context for Result<T, Error> {
    open spec fn is_failure(self) -> bool {
        self is Err
    }

    /// A success passes through unchanged, and the message function is never
    /// invoked for it; a failure carries the produced message appended to its
    /// context sequence.
    fn context<F: FnOnce() -> String>(self, message: F) -> (r: Self)
        ensures
            self matches Ok(_) ==> r == self,
            self matches Err(failure) ==> (r matches Err(annotated) && exists|text: String|
                {
                    &&& #[trigger] call_ensures(message, (), text)
                    &&& annotated.spec_status() == failure.spec_status()
                    &&& annotated.spec_message() == failure.spec_message()
                    &&& annotated.ctx_entries() == failure.ctx_entries().push(text@)
                    &&& annotated.spec_context() is Some
                }),
    {
        match self {
            Ok(value) => Ok(value),
            Err(failure) => Err(failure.context(message())),
        }
    }
}

/// A trait for inspecting the contents of errors with exit statuses.
///
/// When this trait is brought into scope, access to the inner context,
/// message, and status code for an instance of [`Error`] becomes accessible.
/// The trait is primarily useful when testing the error conditions of a
/// command.
pub trait Inspect {
    /// Returns the additional context messages.
    fn get_context(&self) -> Option<Vec<&str>>;

    /// Returns the original error message.
    fn get_message(&self) -> Option<&str>;

    /// Returns the exit status code.
    fn get_status(&self) -> i32;
}

impl Inspect for Error {
    /// Returns the context annotations in insertion order, or nothing where
    /// none were ever added.
    fn get_context(&self) -> (r: Option<Vec<&str>>)
        ensures
            r is Some <==> self.spec_context() is Some,
            r matches Some(entries) ==> Seq::new(entries@.len(), |i: int| entries@[i]@)
                == self.ctx_entries(),
    {
        match &self.context {
            Some(entries) => {
                let mut texts: Vec<&str> = Vec::new();
                let mut i: usize = 0;
                let count = entries.len();
                while i < count
                    invariant
                        0 <= i <= count == entries@.len(),
                        texts@.len() == i,
                        forall|k: int| 0 <= k < i ==> texts@[k]@ == entries@[k]@,
                    decreases count - i,
                {
                    texts.push(entries[i].as_str());
                    i += 1;
                }
                proof {
                    assert(Seq::new(texts@.len(), |i: int| texts@[i]@) =~= self.ctx_entries());
                }
                Some(texts)
            },
            None => None,
        }
    }

    /// Returns the root message, or nothing where none was set.
    fn get_message(&self) -> (r: Option<&str>)
        ensures
            r is Some <==> self.spec_message() is Some,
            r matches Some(text) ==> Some(text@) == self.spec_message(),
    {
        match &self.message {
            Some(text) => Some(text.as_str()),
            None => None,
        }
    }

    /// Returns the exit status code.
    fn get_status(&self) -> (r: i32)
        ensures
            r as int == self.spec_status(),
    {
        self.status
    }
}

/// Two spaces for each of `indent` indentation levels.
pub open spec fn indent_spaces(indent: int) -> Seq<char> {
    Seq::new((if indent >= 0 { 2 * indent } else { 0 }) as nat, |i: int| ' ')
}

/// One line of the rendered display: the indentation, the text, a newline.
pub open spec fn rendered_line(indent: int, text: Seq<char>) -> Seq<char> {
    indent_spaces(indent) + text + seq!['\n']
}

/// The rendered display of the context entries not yet printed and of the
/// root message, starting at the given indentation depth: the entries print
/// in reverse insertion order, each one level deeper than the one before,
/// and the message, where present, last and deepest.
pub open spec fn render_from(
    entries: Seq<Seq<char>>,
    message: Option<Seq<char>>,
    depth: int,
) -> Seq<char>
    decreases entries.len(),
{
    if entries.len() > 0 {
        rendered_line(depth, entries.last()) + render_from(entries.drop_last(), message, depth + 1)
    } else {
        match message {
            Some(text) => rendered_line(depth, text),
            None => Seq::empty(),
        }
    }
}

/// Appends two spaces for each of `depth` indentation levels.
fn append_indent(out: &mut String, depth: usize)
    ensures
        final(out)@ == old(out)@ + indent_spaces(depth as int),
{
    let mut level: usize = 0;
    proof {
        assert(out@ =~= old(out)@ + indent_spaces(0));
    }
    while level < depth
        invariant
            0 <= level <= depth,
            out@ == old(out)@ + indent_spaces(level as int),
        decreases depth - level,
    {
        out.append("  ");
        level += 1;
        proof {
            reveal_strlit("  ");
            assert(out@ =~= old(out)@ + indent_spaces(level as int));
        }
    }
}

impl Error {
    /// The display form of the error: the context annotations in reverse
    /// insertion order, each indented one level deeper, then the root
    /// message, where present, deepest of all; empty when the error has
    /// neither message nor context.
    pub open spec fn spec_display(self) -> Seq<char> {
        render_from(self.ctx_entries(), self.spec_message(), 0)
    }

    /// Renders the display form of the error.
    pub fn render(&self) -> (r: String)
        ensures
            r@ == self.spec_display(),
    {
        let mut out = String::new();
        let mut depth: usize = 0;
        match &self.context {
            Some(entries) => {
                let mut i: usize = entries.len();
                proof {
                    assert(self.ctx_entries() =~= Seq::new(
                        entries@.len(),
                        |k: int| entries@[k]@,
                    ));
                    assert(self.ctx_entries().take(i as int) =~= self.ctx_entries());
                }
                while i > 0
                    invariant
                        0 <= i <= entries@.len() <= usize::MAX,
                        depth == entries@.len() - i,
                        self.ctx_entries() == Seq::new(entries@.len(), |k: int| entries@[k]@),
                        self.spec_display() == out@ + render_from(
                            self.ctx_entries().take(i as int),
                            self.spec_message(),
                            depth as int,
                        ),
                    decreases i,
                {
                    let ghost sofar = out@;
                    let ghost remaining = self.ctx_entries().take(i as int);
                    i -= 1;
                    append_indent(&mut out, depth);
                    out.append(entries[i].as_str());
                    out.append("\n");
                    proof {
                        reveal_strlit("\n");
                        assert(remaining.last() == entries@[i as int]@);
                        assert(out@ =~= sofar + rendered_line(depth as int, remaining.last()));
                        assert(remaining.drop_last() =~= self.ctx_entries().take(i as int));
                        assert(sofar + render_from(remaining, self.spec_message(), depth as int)
                            =~= out@ + render_from(
                            self.ctx_entries().take(i as int),
                            self.spec_message(),
                            depth + 1,
                        ));
                    }
                    depth += 1;
                }
            },
            None => {
                proof {
                    assert(self.ctx_entries().take(0) =~= self.ctx_entries());
                }
            },
        }
        proof {
            assert(self.ctx_entries().take(0) =~= Seq::<Seq<char>>::empty());
        }
        match &self.message {
            Some(text) => {
                let ghost sofar = out@;
                append_indent(&mut out, depth);
                out.append(text.as_str());
                out.append("\n");
                proof {
                    reveal_strlit("\n");
                    assert(out@ =~= sofar + rendered_line(depth as int, text@));
                    assert(out@ =~= sofar + render_from(
                        Seq::<Seq<char>>::empty(),
                        self.spec_message(),
                        depth as int,
                    ));
                }
                out
            },
            None => {
                out
            },
        }
    }
}

/// The lines of `render_from`, written in closed form: line `k` holds the
/// entry `k` places from the end of the context sequence, indented `k` levels
/// past the starting depth.
proof fn lemma_render_from_lines(entries: Seq<Seq<char>>, message: Option<Seq<char>>, depth: int)
    ensures
        render_from(entries, message, depth) == Seq::new(
            entries.len(),
            |k: int| rendered_line(depth + k, entries[entries.len() - 1 - k]),
        ).flatten() + (match message {
            Some(text) => rendered_line(depth + entries.len(), text),
            None => Seq::<char>::empty(),
        }),
    decreases entries.len(),
{
    let lines = Seq::new(
        entries.len(),
        |k: int| rendered_line(depth + k, entries[entries.len() - 1 - k]),
    );
    let tail = (match message {
        Some(text) => rendered_line(depth + entries.len(), text),
        None => Seq::<char>::empty(),
    });
    if entries.len() == 0 {
        assert(lines.flatten() == Seq::<char>::empty());
        assert(render_from(entries, message, depth) =~= lines.flatten() + tail);
    } else {
        let rest = entries.drop_last();
        lemma_render_from_lines(rest, message, depth + 1);
        let sublines = Seq::new(
            rest.len(),
            |k: int| rendered_line(depth + 1 + k, rest[rest.len() - 1 - k]),
        );
        assert(lines.drop_first() =~= sublines);
        assert(lines.flatten() == lines.first() + lines.drop_first().flatten());
        assert(lines.first() == rendered_line(depth, entries.last()));
        assert(render_from(entries, message, depth) == rendered_line(depth, entries.last())
            + (sublines.flatten() + tail));
        assert(rendered_line(depth, entries.last()) + (sublines.flatten() + tail)
            =~= (rendered_line(depth, entries.last()) + sublines.flatten()) + tail);
        assert(lines.flatten() + tail =~= (lines.first() + sublines.flatten()) + tail);
    }
}

/// Law: for every sequence of appended context annotations, the rendered
/// display shows them in exactly reverse insertion order, each line indented
/// two spaces deeper than the one before, with the root message, if any,
/// last and most deeply indented.
pub proof fn lemma_display_reverse_order(error: Error)
    ensures
        error.spec_display() == Seq::new(
            error.ctx_entries().len(),
            |k: int|
                rendered_line(k, error.ctx_entries()[error.ctx_entries().len() - 1 - k]),
        ).flatten() + (match error.spec_message() {
            Some(text) => rendered_line(error.ctx_entries().len() as int, text),
            None => Seq::<char>::empty(),
        }),
{
    lemma_render_from_lines(error.ctx_entries(), error.spec_message(), 0);
    assert(Seq::new(
        error.ctx_entries().len(),
        |k: int| rendered_line(0 + k, error.ctx_entries()[error.ctx_entries().len() - 1 - k]),
    ) =~= Seq::new(
        error.ctx_entries().len(),
        |k: int| rendered_line(k, error.ctx_entries()[error.ctx_entries().len() - 1 - k]),
    ));
}

/// Law: an error with neither message nor context renders as the empty
/// display string; exiting with it prints nothing to the error stream.
pub proof fn lemma_display_empty(error: Error)
    requires
        error.spec_message() is None,
        error.spec_context() is None,
    ensures
        error.spec_display() == Seq::<char>::empty(),
{
}

impl Default for Error {
    /// The default error: exit status 1, no message and no context.
    fn default() -> (r: Error)
        ensures
            r.spec_status() == 1,
            r.spec_message() is None,
            r.spec_context() is None,
            r.wf(),
    {
        Error { context: None, message: None, status: 1 }
    }
}

} // verus!
