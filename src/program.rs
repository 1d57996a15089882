//! A loop together with its input, output and renderer.
use vstd::prelude::*;
use vstd::utf8::{decode_utf8, encode_utf8, encode_utf8_decode_utf8};
use crate::machine::{Event, start_phase};
use crate::model::Model;
use crate::runtime::Runtime;


verus! {

#[verifier::external_type_specification]
#[verifier::external_body]
pub struct ExStdin(std::io::Stdin);

#[verifier::external_type_specification]
#[verifier::external_body]
pub struct ExStdout(std::io::Stdout);

/// Relies on std::io::stdin: a handle to the process's standard input.
#[verifier::external_body]
fn standard_input() -> std::io::Stdin {
    std::io::stdin()
}

/// Relies on std::io::stdout: a handle to the process's standard output.
#[verifier::external_body]
fn standard_output() -> std::io::Stdout {
    std::io::stdout()
}

/// A strategy for writing views out. The loop writes each view directly.
pub trait Renderer {}

/// The default renderer, which adds nothing to the loop's own writes.
pub struct FramerateRenderer {}

impl Renderer for FramerateRenderer {}

/// The bytes written for one render.
pub open spec fn frame_bytes(view: Seq<char>) -> Seq<u8> {
    encode_utf8(view)
}

/// The bytes to write for a view: its text as UTF-8, with nothing added,
/// cut or escaped.
pub fn frame(view: &str) -> (r: Vec<u8>)
    ensures
        r@ == frame_bytes(view@),
{
    vstd::slice::slice_to_vec(view.as_bytes())
}

/// What is written for a view reads back as exactly that view.
pub proof fn law_frame_round_trip(view: Seq<char>)
    ensures
        decode_utf8(frame_bytes(view)) == view,
{
    encode_utf8_decode_utf8(view);
}

/// A loop over a model, with the handles it reads from, writes to, and
/// renders through.
pub struct Program<M: Model, I, O, R> {
    runtime: Runtime<M>,
    input: I,
    output: O,
    renderer: R,
}

impl<M: Model> Program<M, std::io::Stdin, std::io::Stdout, FramerateRenderer> {
    /// A program on the process's standard input and output.
    pub fn new(model: M) -> (r: Self)
        ensures
            r.runtime_spec().wf(),
            r.runtime_spec().history() == Seq::<Event>::empty(),
            r.runtime_spec().phase_spec() == start_phase(),
            r.runtime_spec().model_spec() == model,
            r.runtime_spec().pending_spec() is None,
            r.renderer_spec() == (FramerateRenderer {}),
    {
        Program::with_parts(model, standard_input(), standard_output(), FramerateRenderer {})
    }
}

impl<M: Model, I, O, R> Program<M, I, O, R> {
    pub closed spec fn runtime_spec(&self) -> Runtime<M> {
        self.runtime
    }

    pub closed spec fn input_spec(&self) -> I {
        self.input
    }

    pub closed spec fn output_spec(&self) -> O {
        self.output
    }

    pub closed spec fn renderer_spec(&self) -> R {
        self.renderer
    }

    /// A program with the given collaborators, whose loop has not begun.
    pub fn with_parts(model: M, input: I, output: O, renderer: R) -> (r: Self)
        ensures
            r.runtime_spec().wf(),
            r.runtime_spec().history() == Seq::<Event>::empty(),
            r.runtime_spec().phase_spec() == start_phase(),
            r.runtime_spec().model_spec() == model,
            r.runtime_spec().pending_spec() is None,
            r.input_spec() == input,
            r.output_spec() == output,
            r.renderer_spec() == renderer,
    {
        Program { runtime: Runtime::new(model), input, output, renderer }
    }

    /// Splits the program into its loop and its handles, so that a driver can
    /// perform the loop's effects.
    pub fn into_parts(self) -> (r: (Runtime<M>, I, O, R))
        ensures
            r.0 == self.runtime_spec(),
            r.1 == self.input_spec(),
            r.2 == self.output_spec(),
            r.3 == self.renderer_spec(),
    {
        (self.runtime, self.input, self.output, self.renderer)
    }
}

} // verus!
