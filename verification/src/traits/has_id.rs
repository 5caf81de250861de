use vstd::prelude::*;

verus! {

/// A record that is known by an integer identifier.
///
/// The identifier is what a list compares records by. Within one list no two
/// items are expected to share one.
pub trait HasId: Clone + Sized {
    /// The identifier of this record.
    spec fn id(&self) -> i32;

    /// Returns the identifier of this record.
    fn get_id(&self) -> (id: i32)
        ensures
            id == self.id(),
    ;

    /// A copy of a record is the same record.
    proof fn lemma_copy_is_same(&self, copy: &Self)
        requires
            cloned::<Self>(*self, *copy),
        ensures
            *copy == *self,
    ;
}

} // verus!
