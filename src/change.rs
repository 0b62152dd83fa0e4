use vstd::prelude::*;

verus! {

/// Which artifact categories a build cycle has to rebuild.
#[derive(Clone, Copy, Debug, PartialEq, Eq, Structural)]
pub struct ChangeSet {
    pub server: bool,
    pub front: bool,
    pub style: bool,
}

impl ChangeSet {
    /// The state of a first run, or of an explicit request: everything is rebuilt.
    pub fn all() -> (r: ChangeSet)
        ensures
            r.server && r.front && r.style,
    {
        ChangeSet { server: true, front: true, style: true }
    }

    /// Nothing needs to be rebuilt.
    pub fn none() -> (r: ChangeSet)
        ensures
            !r.server && !r.front && !r.style,
    {
        ChangeSet { server: false, front: false, style: false }
    }

    pub fn need_server_build(&self) -> (r: bool)
        ensures
            r == self.server,
    {
        self.server
    }

    pub fn need_front_build(&self) -> (r: bool)
        ensures
            r == self.front,
    {
        self.front
    }

    pub fn need_style_build(&self) -> (r: bool)
        ensures
            r == self.style,
    {
        self.style
    }
}

} // verus!
