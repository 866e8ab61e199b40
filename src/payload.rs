use vstd::prelude::*;

verus! {

/// The body of an upload request: the text to be stored as a blob.
pub struct MigrationPayload {
    pub data: String,
}

impl MigrationPayload {
    /// Wraps `data` as an upload payload.
    pub fn new(data: String) -> (r: MigrationPayload)
        ensures
            r.data@ == data@,
    {
        MigrationPayload { data }
    }
}

} // verus!
