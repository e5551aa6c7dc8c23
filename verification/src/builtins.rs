//! The builtin registry and the console model.
//!
//! The registry is an immutable mapping from name to native function,
//! established before first use; the evaluator consults it only when an
//! identifier is not found in the active environment chain. The native
//! functions' console traffic is modelled by `Console`: text they emit is
//! appended to `output`, and `input` takes the next queued line; the host
//! performs the actual reading and writing around an evaluation.

use vstd::prelude::*;

use crate::token::str_eq;

verus! {

/// The native functions in the registry.
#[derive(Clone, Copy, Debug, PartialEq, Eq, Structural)]
pub enum BuiltinKind {
    /// Write each argument's display form.
    Print,
    /// Write each argument's display form, each followed by a newline.
    Println,
    /// Read one line and hand it back as a string.
    Input,
    /// Clear the host screen.
    Clear,
}

/// The registry's name lookup: exactly `print`, `println`, `input` and
/// `clear` are bound.
pub open spec fn spec_builtin_lookup(name: Seq<char>) -> Option<BuiltinKind> {
    if name == "print"@ {
        Some(BuiltinKind::Print)
    } else if name == "println"@ {
        Some(BuiltinKind::Println)
    } else if name == "input"@ {
        Some(BuiltinKind::Input)
    } else if name == "clear"@ {
        Some(BuiltinKind::Clear)
    } else {
        None
    }
}

/// Look a name up in the builtin registry.
pub fn builtin_lookup(name: &str) -> (r: Option<BuiltinKind>)
    ensures
        r == spec_builtin_lookup(name@),
{
    if str_eq(name, "print") {
        Some(BuiltinKind::Print)
    } else if str_eq(name, "println") {
        Some(BuiltinKind::Println)
    } else if str_eq(name, "input") {
        Some(BuiltinKind::Input)
    } else if str_eq(name, "clear") {
        Some(BuiltinKind::Clear)
    } else {
        None
    }
}

/// The console traffic of one evaluation: `output` collects what the
/// builtins emitted, in order; `inputs` queues the lines that `input` will
/// take, front first.
#[derive(Debug)]
pub struct Console {
    pub output: Vec<String>,
    pub inputs: Vec<String>,
}

/// The mathematical value of a `Console`.
pub struct SpecConsole {
    pub output: Seq<Seq<char>>,
    pub inputs: Seq<Seq<char>>,
}

/// The mirror of a list of strings, elementwise.
pub open spec fn spec_view_strings(s: Seq<String>) -> Seq<Seq<char>>
    decreases s,
{
    if s.len() == 0 {
        Seq::empty()
    } else {
        spec_view_strings(s.drop_last()).push(s.last()@)
    }
}

/// Appending one string appends its view.
pub proof fn lemma_view_strings_push(s: Seq<String>, e: String)
    ensures
        spec_view_strings(s.push(e)) == spec_view_strings(s).push(e@),
{
    assert(s.push(e).drop_last() =~= s);
    assert(s.push(e).last() == e);
}

/// The elementwise mirror keeps the length.
pub proof fn lemma_view_strings_len(s: Seq<String>)
    ensures
        spec_view_strings(s).len() == s.len(),
    decreases s.len(),
{
    if s.len() > 0 {
        lemma_view_strings_len(s.drop_last());
    }
}

/// The elementwise mirror, pointwise.
pub proof fn lemma_view_strings_index(s: Seq<String>, i: int)
    requires
        0 <= i < s.len(),
    ensures
        spec_view_strings(s).len() == s.len(),
        spec_view_strings(s)[i] == s[i]@,
    decreases s.len(),
{
    lemma_view_strings_len(s);
    if i + 1 < s.len() {
        assert(s.drop_last()[i] == s[i]);
        lemma_view_strings_index(s.drop_last(), i);
    }
}

/// Removing the front element removes the front of the view.
pub proof fn lemma_view_strings_drop_first(s: Seq<String>)
    requires
        s.len() > 0,
    ensures
        spec_view_strings(s.drop_first()) == spec_view_strings(s).drop_first(),
        spec_view_strings(s)[0] == s[0]@,
{
    lemma_view_strings_len(s);
    assert forall|i: int| 0 <= i < s.len() - 1 implies spec_view_strings(s.drop_first())[i]
        == spec_view_strings(s).drop_first()[i] by {
        assert(s.drop_first()[i] == s[i + 1]);
        lemma_view_strings_index(s.drop_first(), i);
        lemma_view_strings_index(s, i + 1);
    }
    lemma_view_strings_len(s.drop_first());
    assert(spec_view_strings(s.drop_first()) =~= spec_view_strings(s).drop_first());
    lemma_view_strings_index(s, 0);
}

impl View for Console {
    type V = SpecConsole;

    open spec fn view(&self) -> SpecConsole {
        SpecConsole { output: spec_view_strings(self.output@), inputs: spec_view_strings(self.inputs@) }
    }
}

impl Console {
    /// A console with no output yet and the given queued input lines.
    pub fn new(inputs: Vec<String>) -> (c: Console)
        ensures
            c@.output == Seq::<Seq<char>>::empty(),
            c@.inputs == spec_view_strings(inputs@),
    {
        Console { output: Vec::new(), inputs }
    }
}

} // verus!
