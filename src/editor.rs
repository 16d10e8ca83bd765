//! The template that the note editor opens with.
use vstd::prelude::*;
use vstd::string::StringExecFns;

verus! {

/// Opens notes for editing, starting from a fixed template.
pub struct Editor {
    pub template: String,
}

impl Editor {
    pub fn new(template: &str) -> (r: Editor)
        ensures
            r.template@ == template@,
    {
        Editor { template: String::from_str(template) }
    }
}

} // verus!
