use vstd::prelude::*;
use crate::text::join3;

verus! {

/// Where results are kept: one JSON file per job, named after its id, in
/// `folder`.
pub struct JsonFileStorage {
    pub folder: String,
}

impl JsonFileStorage {
    pub fn new(folder: &str) -> (r: JsonFileStorage)
        ensures
            r.folder@ == folder@,
    {
        JsonFileStorage { folder: folder.to_owned() }
    }

    /// The file that holds the result of `job_id`: `<folder>/<job_id>.json`.
    pub fn result_path(&self, job_id: &str) -> (r: String)
        ensures
            r@ == self.folder@ + "/"@ + job_id@ + ".json"@,
    {
        join3(self.folder.as_str(), "/", job_id).concat(".json")
    }
}

} // verus!
