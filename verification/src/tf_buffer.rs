use vstd::prelude::*;

verus! {

broadcast use vstd::string::group_string_axioms;

/// Why a frame name would be rejected, once validation exists.
#[derive(Debug)]
pub enum InvalidFrameIdDescription {
    InvalidCharacters,
    InvalidPrefix,
}

/// A coordinate frame named by an interned string.
#[derive(Debug)]
pub struct FrameId {
    pub name: String,
}

impl FrameId {
    /// Wraps a frame name. Validation is reserved: every name is accepted
    /// today, so the result is always the named frame.
    pub fn new(name: &str) -> (res: Result<FrameId, InvalidFrameIdDescription>)
        ensures
            res matches Ok(f) && f.name@ == name@,
    {
        Ok(FrameId { name: name.to_string() })
    }
}

} // verus!
