//! The environment variables of the process, as plain values.

use crate::path::FilePath;
use crate::text::same_text;
use vstd::prelude::*;
use vstd::utf8::*;

verus! {

/// One variable. Its value need not be text.
#[derive(Debug, Eq, PartialEq)]
pub struct Variable {
    pub name: String,
    pub value: Vec<u8>,
}

/// All variables of a process.
#[derive(Debug, Eq, PartialEq)]
pub struct Environment {
    pub variables: Vec<Variable>,
}

/// The value of a variable: that of the first entry with its name.
pub open spec fn value_of(variables: Seq<Variable>, name: Seq<char>) -> Option<Seq<u8>>
    decreases variables.len(),
{
    if variables.len() == 0 {
        None
    } else if variables[0].name@ == name {
        Some(variables[0].value@)
    } else {
        value_of(variables.skip(1), name)
    }
}

/// The value of a variable as text. A value that is no text counts as missing.
pub open spec fn text_of(variables: Seq<Variable>, name: Seq<char>) -> Option<Seq<char>> {
    match value_of(variables, name) {
        Some(value) => if valid_utf8(value) {
            Some(decode_utf8(value))
        } else {
            None
        },
        None => None,
    }
}

/// `String::from_utf8`: valid UTF-8 is read as the text that it encodes, and there is
/// no result for other bytes.
#[verifier::external_body]
fn read_utf8(bytes: Vec<u8>) -> (read: Option<String>)
    ensures
        read is Some <==> valid_utf8(bytes@),
        read matches Some(text) ==> text@ == decode_utf8(bytes@),
{
    String::from_utf8(bytes).ok()
}

impl Environment {
    /// What a variable is set to.
    pub open spec fn value(&self, name: Seq<char>) -> Option<Seq<u8>> {
        value_of(self.variables@, name)
    }

    /// What a variable is set to, as text.
    pub open spec fn text(&self, name: Seq<char>) -> Option<Seq<char>> {
        text_of(self.variables@, name)
    }

    /// The value of a variable as a path.
    pub fn path_value(&self, name: &str) -> (found: Option<FilePath>)
        ensures
            match found {
                Some(path) => self.value(name@) == Some(path@),
                None => self.value(name@) is None,
            },
    {
        let mut at: usize = 0;
        assert(self.variables@.skip(0) =~= self.variables@);
        while at < self.variables.len()
            invariant
                at <= self.variables@.len(),
                self.value(name@) == value_of(self.variables@.skip(at as int), name@),
            decreases self.variables@.len() - at,
        {
            let ghost rest = self.variables@.skip(at as int);
            if same_text(self.variables[at].name.as_str(), name) {
                let bytes = self.variables[at].value.clone();
                assert(bytes@ =~= self.variables@[at as int].value@);
                return Some(FilePath { bytes });
            }
            assert(rest.skip(1) =~= self.variables@.skip(at + 1));
            at = at + 1;
        }
        None
    }

    /// The value of a variable as text.
    pub fn text_value(&self, name: &str) -> (found: Option<String>)
        ensures
            match found {
                Some(value) => self.text(name@) == Some(value@),
                None => self.text(name@) is None,
            },
    {
        match self.path_value(name) {
            Some(path) => read_utf8(path.bytes),
            None => None,
        }
    }
}

/// A variable has the value of the first entry with its name, and none where no entry has
/// that name.
pub proof fn lemma_first_entry_decides(variables: Seq<Variable>, name: Seq<char>)
    ensures
        match value_of(variables, name) {
            Some(value) => exists|i: int|
                {
                    &&& 0 <= i < variables.len()
                    &&& (#[trigger] variables[i]).name@ == name
                    &&& variables[i].value@ == value
                    &&& forall|j: int| 0 <= j < i ==> (#[trigger] variables[j]).name@ != name
                },
            None => forall|i: int|
                0 <= i < variables.len() ==> (#[trigger] variables[i]).name@ != name,
        },
    decreases variables.len(),
{
    if variables.len() > 0 && variables[0].name@ != name {
        let rest = variables.skip(1);
        lemma_first_entry_decides(rest, name);
        match value_of(rest, name) {
            Some(value) => {
                let i = choose|i: int|
                    {
                        &&& 0 <= i < rest.len()
                        &&& (#[trigger] rest[i]).name@ == name
                        &&& rest[i].value@ == value
                        &&& forall|j: int| 0 <= j < i ==> (#[trigger] rest[j]).name@ != name
                    };
                assert(variables[i + 1] == rest[i]);
                assert forall|j: int| 0 <= j < i + 1 implies (#[trigger] variables[j]).name@
                    != name by {
                    if j > 0 {
                        assert(rest[j - 1] == variables[j]);
                    }
                }
            },
            None => {
                assert forall|i: int| 0 <= i < variables.len() implies (
                #[trigger] variables[i]).name@ != name by {
                    if i > 0 {
                        assert(rest[i - 1] == variables[i]);
                    }
                }
            },
        }
    }
}

/// A value that encodes a text is read as that text, and one that encodes none counts as
/// missing.
pub proof fn lemma_values_are_read_as_text(variables: Seq<Variable>, name: Seq<char>)
    ensures
        match value_of(variables, name) {
            Some(value) => {
                &&& text_of(variables, name) is Some <==> valid_utf8(value)
                &&& text_of(variables, name) matches Some(text) ==> encode_utf8(text) == value
            },
            None => text_of(variables, name) is None,
        },
{
    if let Some(value) = value_of(variables, name) {
        if valid_utf8(value) {
            decode_utf8_encode_utf8(value);
        }
    }
}

} // verus!
