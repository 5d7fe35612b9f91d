//! Staged field values.
//!
//! The staging model in [`crate::staging`] holds concrete values in its slots.
//! The target types this design serves are built from strings and lists of
//! strings, so a slot value is one of those two; its mathematical view is the
//! corresponding sequence shape.

use vstd::prelude::*;

verus! {

/// A field value a builder can stage: a single string or a list of strings.
#[derive(Debug, PartialEq, Eq)]
pub enum Value {
    Str(String),
    List(Vec<String>),
}

/// The mathematical view of a staged value.
pub enum ValueV {
    Str(Seq<char>),
    List(Seq<Seq<char>>),
}

impl View for Value {
    type V = ValueV;

    open spec fn view(&self) -> ValueV {
        match self {
            Value::Str(s) => ValueV::Str(s@),
            Value::List(items) => ValueV::List(items.deep_view()),
        }
    }
}

impl DeepView for Value {
    type V = ValueV;

    open spec fn deep_view(&self) -> ValueV {
        self.view()
    }
}

impl Value {
    /// Copy the staged value; the copy has the same view as the original.
    pub fn duplicate(&self) -> (r: Value)
        ensures
            r@ == self@,
    {
        match self {
            Value::Str(s) => Value::Str(s.clone()),
            Value::List(items) => {
                let mut out: Vec<String> = Vec::new();
                let mut i: usize = 0;
                while i < items.len()
                    invariant
                        i <= items.len(),
                        out@ == items@.take(i as int),
                    decreases items.len() - i,
                {
                    out.push(items[i].clone());
                    proof {
                        assert(out@ =~= items@.take(i + 1));
                    }
                    i += 1;
                }
                proof {
                    assert(items@.take(items@.len() as int) =~= items@);
                }
                Value::List(out)
            },
        }
    }
}

} // verus!
