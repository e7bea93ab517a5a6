//! Client-side state of one FMU instance served remotely.
use vstd::prelude::*;

verus! {

/// What the client keeps for one remote FMU instance: the index that the
/// server assigned to it (`-1` until instantiation succeeds) and the
/// identifier of the server that answers for it.
pub struct Placeholder {
    pub instance_index: i32,
    pub responder_id: String,
}

impl Placeholder {
    /// A placeholder that no server instance backs yet.
    pub fn new() -> (p: Placeholder)
        ensures
            p.instance_index == -1,
            p.responder_id@ == Seq::<char>::empty(),
    {
        Placeholder { instance_index: -1, responder_id: String::new() }
    }

    /// Records the index that the server assigned to this instance.
    pub fn set_instance_index(&mut self, index: i32)
        ensures
            final(self).instance_index == index,
            final(self).responder_id == old(self).responder_id,
    {
        self.instance_index = index;
    }
}

} // verus!
