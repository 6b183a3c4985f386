//! The program that every isolate runs.

use vstd::prelude::*;

verus! {

/// What kind of content a module's text is.
#[derive(Clone, Copy, Debug, PartialEq, Eq, Structural)]
pub enum ContentKind {
    /// Program text, to be compiled and run.
    Script,
    /// Data, to be read and not run.
    Json,
}

/// The embedded program: its text and the kind it is declared to be. It is
/// built once and only read afterwards.
#[derive(Debug)]
pub struct ProgramSource {
    pub text: String,
    pub kind: ContentKind,
}

/// What a `ProgramSource` holds, as mathematical values.
pub struct ProgramSourceView {
    pub text: Seq<char>,
    pub kind: ContentKind,
}

impl View for ProgramSource {
    type V = ProgramSourceView;

    open spec fn view(&self) -> ProgramSourceView {
        ProgramSourceView { text: self.text@, kind: self.kind }
    }
}

impl ProgramSource {
    /// Registers `text` as the program, declared a script.
    pub fn script(text: String) -> (source: ProgramSource)
        ensures
            source@ == (ProgramSourceView { text: text@, kind: ContentKind::Script }),
    {
        ProgramSource { text, kind: ContentKind::Script }
    }

    /// The program text.
    pub fn text(&self) -> (text: &str)
        ensures
            text@ == self@.text,
    {
        self.text.as_str()
    }

    /// The declared kind of the program text.
    pub fn kind(&self) -> (kind: ContentKind)
        ensures
            kind == self@.kind,
    {
        self.kind
    }

    /// A second registry entry with the same text and kind.
    pub fn duplicate(&self) -> (copy: ProgramSource)
        ensures
            copy@ == self@,
    {
        ProgramSource { text: self.text.clone(), kind: self.kind }
    }
}

} // verus!
