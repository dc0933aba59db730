use vstd::prelude::*;

verus! {

/// The settings kept between runs: the library list and the name of the process that was
/// selected last.
pub struct Config {
    pub dlls: Vec<String>,
    pub last_selected_app: Option<String>,
}

impl Default for Config {
    fn default() -> (r: Config)
        ensures
            r.dlls@ == Seq::<String>::empty(),
            r.last_selected_app is None,
    {
        Config { dlls: Vec::new(), last_selected_app: None }
    }
}

} // verus!
