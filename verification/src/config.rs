use vstd::prelude::*;

verus! {

/// Launch configuration for one helper process: an executable path and an
/// ordered argument list, supplied by the host's configuration loading.
#[derive(Debug, Clone)]
pub struct LaunchConfig {
    pub path: String,
    pub args: Vec<String>,
}

impl LaunchConfig {
    /// A configuration may be handed to the operating system only when its
    /// executable path is non-empty and resolves on the search path.
    /// Whether the path resolves is a fact about the machine, so the
    /// caller's probe supplies it as `resolvable`.
    pub open spec fn is_launchable(self, resolvable: bool) -> bool {
        self.path@.len() > 0 && resolvable
    }

    /// True exactly when the executable path is the empty string.
    pub fn path_is_empty(&self) -> (r: bool)
        ensures
            r <==> self.path@.len() == 0,
    {
        self.path.as_str().unicode_len() == 0
    }
}

} // verus!
