//! Run configuration: the database endpoint and the group whose archive is
//! exported, together with the fixed naming convention that derives the three
//! collection names from the group id.

use vstd::prelude::*;
use vstd::string::StringExecFns;

verus! {

/// One export run's configuration: where the database lives and which group's
/// collections are read.
pub struct Config<'a> {
    pub mongodb_uri: &'a str,
    pub group_id: &'a str,
}

impl<'a> Config<'a> {
    pub fn new(mongodb_uri: &'a str, group_id: &'a str) -> (c: Self)
        ensures
            c.mongodb_uri@ == mongodb_uri@,
            c.group_id@ == group_id@,
    {
        Config { mongodb_uri, group_id }
    }

    /// Name of the collection holding the group's topic records.
    pub fn get_topic_collection(&self) -> (r: String)
        ensures
            r@ == "topics_"@ + self.group_id@,
    {
        let mut s = String::from_str("topics_");
        s.append(self.group_id);
        s
    }

    /// Name of the collection holding the group's stored file records.
    pub fn get_files_collection(&self) -> (r: String)
        ensures
            r@ == "files_"@ + self.group_id@,
    {
        let mut s = String::from_str("files_");
        s.append(self.group_id);
        s
    }

    /// Name of the collection holding the group's stored image records.
    pub fn get_images_collection(&self) -> (r: String)
        ensures
            r@ == "images_"@ + self.group_id@,
    {
        let mut s = String::from_str("images_");
        s.append(self.group_id);
        s
    }
}

} // verus!
