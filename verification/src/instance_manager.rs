//! The server's table of live FMU instances.
//!
//! Each instance that an FMU creates is stored under an index that the
//! manager hands out; clients name the instance by that index from then on.
//! Indices are handed out in increasing order from 0 and never reused, so an
//! index that was removed keeps reporting `InstanceNotFound`.
//!
//! Instances are opaque handles (the address that the FMU returned); the
//! manager never looks inside them.
use std::collections::HashMap;
use crate::text::{decimal_text, push_decimal};
use vstd::prelude::*;

verus! {

broadcast use vstd::std_specs::hash::group_hash_axioms;

/// Handle of an FMU instance: the address that the FMU returned for it.
pub type InstanceHandle = usize;

/// Why an instance could not be found or removed.
#[derive(Debug, Clone, Copy, PartialEq, Eq, Structural)]
pub enum InstanceError {
    /// No instance is stored under the index.
    InstanceNotFound(i32),
    /// The index is negative, so no instance can be stored under it.
    InvalidIndex(i32),
    /// Access to a shared manager failed because a thread panicked while it
    /// held the manager.
    LockPoisoned,
}

/// The message that describes an instance error.
pub open spec fn error_message(e: InstanceError) -> Seq<char> {
    match e {
        InstanceError::InstanceNotFound(index) => "Instance with index "@ + decimal_text(
            index as int,
        ) + " not found"@,
        InstanceError::InvalidIndex(index) => "Invalid instance index: "@ + decimal_text(
            index as int,
        ),
        InstanceError::LockPoisoned => "Instance manager lock was poisoned"@,
    }
}

impl InstanceError {
    /// The message that describes this error, e.g.
    /// `Instance with index 7 not found`.
    pub fn message(&self) -> (m: String)
        ensures
            m@ == error_message(*self),
    {
        match self {
            InstanceError::InstanceNotFound(index) => {
                let mut m = String::from_str("Instance with index ");
                push_decimal(&mut m, *index);
                m.append(" not found");
                m
            },
            InstanceError::InvalidIndex(index) => {
                let mut m = String::from_str("Invalid instance index: ");
                push_decimal(&mut m, *index);
                m
            },
            InstanceError::LockPoisoned => String::from_str("Instance manager lock was poisoned"),
        }
    }
}

/// What looking up `index` in a table gives: the instance stored there,
/// `InvalidIndex` for a negative index, `InstanceNotFound` otherwise.
pub open spec fn lookup(table: Map<i32, InstanceHandle>, index: i32) -> Result<
    InstanceHandle,
    InstanceError,
> {
    if index < 0 {
        Err(InstanceError::InvalidIndex(index))
    } else if table.contains_key(index) {
        Ok(table[index])
    } else {
        Err(InstanceError::InstanceNotFound(index))
    }
}

/// What removing `index` from a table answers.
pub open spec fn removal(table: Map<i32, InstanceHandle>, index: i32) -> Result<(), InstanceError> {
    match lookup(table, index) {
        Ok(_) => Ok(()),
        Err(e) => Err(e),
    }
}

/// The table after removing `index`: unchanged unless an instance was stored
/// there.
pub open spec fn table_after_removal(table: Map<i32, InstanceHandle>, index: i32) -> Map<
    i32,
    InstanceHandle,
> {
    if index >= 0 && table.contains_key(index) {
        table.remove(index)
    } else {
        table
    }
}

/// Table of live FMU instances, keyed by the index handed out for each.
pub struct InstanceManager {
    instances: HashMap<i32, InstanceHandle>,
    next_index: i32,
}

impl View for InstanceManager {
    type V = Map<i32, InstanceHandle>;

    closed spec fn view(&self) -> Map<i32, InstanceHandle> {
        self.instances@
    }
}

impl InstanceManager {
    /// The table is finite and every stored index lies in `0..next_index`.
    #[verifier::type_invariant]
    closed spec fn well_formed(self) -> bool {
        &&& 0 <= self.next_index
        &&& self.instances@.dom().finite()
        &&& forall|k: i32| #[trigger] self.instances@.contains_key(k) ==> 0 <= k < self.next_index
    }

    /// The index that the next added instance receives.
    pub closed spec fn next_index(&self) -> int {
        self.next_index as int
    }

    /// What every manager satisfies: the table is finite, and every stored
    /// index lies in `0..next_index`, so no index is ever handed out twice.
    pub open spec fn indices_valid(&self) -> bool {
        &&& self@.dom().finite()
        &&& 0 <= self.next_index()
        &&& forall|k: i32| #[trigger] self@.contains_key(k) ==> 0 <= k < self.next_index()
    }

    /// An empty manager; the first instance added receives index 0.
    pub fn new() -> (m: InstanceManager)
        ensures
            m@ == Map::<i32, InstanceHandle>::empty(),
            m.next_index() == 0,
            m.indices_valid(),
    {
        InstanceManager { instances: HashMap::new(), next_index: 0 }
    }

    /// Whether another instance can be added: indices are 32-bit, so the
    /// manager can hand out indices up to `i32::MAX - 1`.
    pub fn has_room(&self) -> (b: bool)
        ensures
            b == (self.next_index() < i32::MAX),
            self.indices_valid(),
    {
        proof {
            use_type_invariant(self);
        }
        self.next_index < i32::MAX
    }

    /// Stores `instance` under a fresh index and returns the index: the
    /// smallest index not handed out before.
    pub fn add_instance(&mut self, instance: InstanceHandle) -> (index: i32)
        requires
            old(self).next_index() < i32::MAX,
        ensures
            index == old(self).next_index(),
            !old(self)@.contains_key(index),
            final(self)@ == old(self)@.insert(index, instance),
            final(self).next_index() == old(self).next_index() + 1,
            old(self).indices_valid(),
            final(self).indices_valid(),
            final(self)@.len() == old(self)@.len() + 1,
    {
        proof {
            use_type_invariant(&*self);
        }
        let index = self.next_index;
        let mut instances = HashMap::new();
        std::mem::swap(&mut instances, &mut self.instances);
        instances.insert(index, instance);
        self.next_index = index + 1;
        self.instances = instances;
        proof {
            use_type_invariant(&*self);
        }
        index
    }

    /// The instance stored under `index`.
    pub fn get_instance(&self, index: i32) -> (r: Result<InstanceHandle, InstanceError>)
        ensures
            r == lookup(self@, index),
            self.indices_valid(),
    {
        proof {
            use_type_invariant(self);
        }
        if index < 0 {
            return Err(InstanceError::InvalidIndex(index));
        }
        match self.instances.get(&index) {
            Some(instance) => Ok(*instance),
            None => Err(InstanceError::InstanceNotFound(index)),
        }
    }

    /// Removes the instance stored under `index`; the instance itself is not
    /// freed.
    pub fn remove_instance(&mut self, index: i32) -> (r: Result<(), InstanceError>)
        ensures
            r == removal(old(self)@, index),
            final(self)@ == table_after_removal(old(self)@, index),
            final(self).next_index() == old(self).next_index(),
            old(self).indices_valid(),
            final(self).indices_valid(),
            r is Ok ==> final(self)@.len() == old(self)@.len() - 1,
            r is Err ==> final(self)@ == old(self)@,
    {
        proof {
            use_type_invariant(&*self);
        }
        if index < 0 {
            return Err(InstanceError::InvalidIndex(index));
        }
        let mut instances = HashMap::new();
        std::mem::swap(&mut instances, &mut self.instances);
        let removed = instances.remove(&index);
        self.instances = instances;
        proof {
            use_type_invariant(&*self);
        }
        match removed {
            Some(_) => Ok(()),
            None => Err(InstanceError::InstanceNotFound(index)),
        }
    }

    /// The number of stored instances.
    pub fn instance_count(&self) -> (n: usize)
        ensures
            n == self@.len(),
            n == Set::new(|i: i32| i >= 0 && self@.contains_key(i)).len(),
            self.indices_valid(),
    {
        proof {
            use_type_invariant(self);
            assert(Set::new(|i: i32| i >= 0 && self@.contains_key(i)) =~= self@.dom());
        }
        self.instances.len()
    }

    /// Whether an instance is stored under `index`.
    pub fn contains_instance(&self, index: i32) -> (b: bool)
        ensures
            b == (index >= 0 && self@.contains_key(index)),
            self.indices_valid(),
    {
        proof {
            use_type_invariant(self);
        }
        if index < 0 {
            return false;
        }
        self.instances.contains_key(&index)
    }
}

impl Default for InstanceManager {
    fn default() -> (m: InstanceManager)
        ensures
            m@ == Map::<i32, InstanceHandle>::empty(),
            m.next_index() == 0,
            m.indices_valid(),
    {
        Self::new()
    }
}


/// An instance stored under a fresh index is found there, and every other
/// index answers as before.
pub proof fn lemma_lookup_after_add(
    table: Map<i32, InstanceHandle>,
    index: i32,
    instance: InstanceHandle,
)
    requires
        index >= 0,
    ensures
        lookup(table.insert(index, instance), index) == Ok::<InstanceHandle, InstanceError>(
            instance,
        ),
        forall|other: i32|
            other != index ==> #[trigger] lookup(table.insert(index, instance), other) == lookup(
                table,
                other,
            ),
{
}

/// After a removal the index is no longer found, and every other index
/// answers as before.
pub proof fn lemma_lookup_after_removal(table: Map<i32, InstanceHandle>, index: i32)
    requires
        index >= 0,
    ensures
        lookup(table_after_removal(table, index), index) == Err::<InstanceHandle, InstanceError>(
            InstanceError::InstanceNotFound(index),
        ),
        forall|other: i32|
            other != index ==> #[trigger] lookup(table_after_removal(table, index), other)
                == lookup(table, other),
{
}

/// Removing the same index twice: the second removal reports
/// `InstanceNotFound` (or `InvalidIndex` for a negative index).
pub proof fn lemma_second_removal_fails(table: Map<i32, InstanceHandle>, index: i32)
    ensures
        removal(table_after_removal(table, index), index) == (if index < 0 {
            Err::<(), InstanceError>(InstanceError::InvalidIndex(index))
        } else {
            Err::<(), InstanceError>(InstanceError::InstanceNotFound(index))
        }),
{
}

/// An index is reported as contained exactly when looking it up succeeds.
pub proof fn lemma_contains_agrees_with_lookup(table: Map<i32, InstanceHandle>, index: i32)
    ensures
        (index >= 0 && table.contains_key(index)) <==> lookup(table, index) is Ok,
{
}

/// Adding an instance under a fresh index raises the count by one; a
/// successful removal lowers it by one.
pub proof fn lemma_count_after_add_and_removal(
    table: Map<i32, InstanceHandle>,
    index: i32,
    instance: InstanceHandle,
)
    requires
        table.dom().finite(),
    ensures
        !table.contains_key(index) ==> table.insert(index, instance).len() == table.len() + 1,
        removal(table, index) is Ok ==> table_after_removal(table, index).len() == table.len() - 1,
{
}

/// Removing an instance that was just added under a fresh index succeeds
/// and leaves the table as it was before the addition.
pub proof fn lemma_remove_undoes_add(table: Map<i32, InstanceHandle>, index: i32, instance: InstanceHandle)
    requires
        index >= 0,
        !table.contains_key(index),
    ensures
        removal(table.insert(index, instance), index) == Ok::<(), InstanceError>(()),
        table_after_removal(table.insert(index, instance), index) == table,
{
    assert(table.insert(index, instance).remove(index) =~= table);
}

/// The table after `handles` are added one after the other, the first under
/// index `next` and each next one under the index after it.
pub open spec fn table_after_adds(
    table: Map<i32, InstanceHandle>,
    next: int,
    handles: Seq<InstanceHandle>,
) -> Map<i32, InstanceHandle>
    decreases handles.len(),
{
    if handles.len() == 0 {
        table
    } else {
        table_after_adds(table, next, handles.drop_last()).insert(
            (next + handles.len() - 1) as i32,
            handles.last(),
        )
    }
}

/// Successive additions to a table whose indices lie below `next` hand out
/// the indices `next`, `next + 1`, ... in turn, all distinct and all fresh:
/// every handle is found under its own index, every earlier entry stays,
/// and the count grows by the number of additions.
pub proof fn lemma_successive_adds(
    table: Map<i32, InstanceHandle>,
    next: int,
    handles: Seq<InstanceHandle>,
)
    requires
        table.dom().finite(),
        0 <= next,
        next + handles.len() <= i32::MAX,
        forall|k: i32| #[trigger] table.contains_key(k) ==> 0 <= k < next,
    ensures
        table_after_adds(table, next, handles).dom().finite(),
        table_after_adds(table, next, handles).len() == table.len() + handles.len(),
        forall|j: int|
            0 <= j < handles.len() ==> #[trigger] table_after_adds(table, next, handles).contains_key(
                (next + j) as i32,
            ) && table_after_adds(table, next, handles)[(next + j) as i32] == handles[j],
        forall|k: i32|
            #[trigger] table.contains_key(k) ==> table_after_adds(table, next, handles).contains_key(
                k,
            ) && table_after_adds(table, next, handles)[k] == table[k],
        forall|k: i32|
            #[trigger] table_after_adds(table, next, handles).contains_key(k) ==> 0 <= k < next
                + handles.len(),
    decreases handles.len(),
{
    if handles.len() > 0 {
        let front = handles.drop_last();
        lemma_successive_adds(table, next, front);
        let before = table_after_adds(table, next, front);
        let key = (next + handles.len() - 1) as i32;
        assert(!before.contains_key(key));
        assert forall|j: int| 0 <= j < handles.len() implies #[trigger] table_after_adds(
            table,
            next,
            handles,
        ).contains_key((next + j) as i32) && table_after_adds(table, next, handles)[(next
            + j) as i32] == handles[j] by {
            if j < handles.len() - 1 {
                assert(front[j] == handles[j]);
                assert(before.contains_key((next + j) as i32));
            }
        }
    }
}

} // verus!
