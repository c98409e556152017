use vstd::prelude::*;

verus! {

/// Settings read from the configuration file; both may be missing.
#[derive(Debug)]
pub struct Config {
    pub dir: Option<String>,
    pub token: Option<String>,
}

impl Default for Config {
    /// The configuration used when the file is missing or unreadable: nothing set.
    fn default() -> (c: Self)
        ensures
            c.dir is None,
            c.token is None,
    {
        Config { dir: None, token: None }
    }
}

} // verus!
