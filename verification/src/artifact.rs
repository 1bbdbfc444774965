use vstd::prelude::*;
use vstd::string::*;

verus! {

/// The single shared slot naming the most recently started, not-yet-finalized
/// output file. The run's plumbing guards it with a mutual-exclusion lock
/// held only across one `set` or `read`, never across an external process
/// invocation.
pub struct ArtifactState {
    current: Option<String>,
}

impl View for ArtifactState {
    type V = Option<Seq<char>>;

    /// The path currently tracked, if any.
    closed spec fn view(&self) -> Option<Seq<char>> {
        match self.current {
            Some(p) => Some(p@),
            None => None,
        }
    }
}

impl ArtifactState {
    /// The slot starts empty.
    pub fn new() -> (r: ArtifactState)
        ensures
            r@ is None,
    {
        ArtifactState { current: None }
    }

    /// Replace the slot's value with the path of the capture that is about
    /// to begin.
    pub fn set(&mut self, path: &str)
        ensures
            final(self)@ == Some(path@),
    {
        self.current = Some(String::from_str(path));
    }

    /// A snapshot of the slot.
    pub fn read(&self) -> (r: Option<String>)
        ensures
            match r {
                Some(p) => self@ == Some(p@),
                None => self@ is None,
            },
    {
        match &self.current {
            Some(p) => Some(p.clone()),
            None => None,
        }
    }

    /// What the finalizer must do: exactly the tracked path, if one exists,
    /// is handed to the post-processing pipeline; an empty slot means the
    /// finalizer has nothing to rescue.
    pub fn finalize_input(&self) -> (r: Option<String>)
        ensures
            match r {
                Some(p) => self@ == Some(p@),
                None => self@ is None,
            },
    {
        self.read()
    }
}

} // verus!
