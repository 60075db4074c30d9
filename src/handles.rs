//! The table of execution handles held by the host.
//!
//! A handle is the index of a slot. Slots are never reused: tearing a handle
//! down empties its slot for good, so a second teardown, or a use after
//! teardown, is reported instead of touching freed state.
use vstd::prelude::*;

verus! {

/// Why a handle was refused.
#[derive(Clone, Copy, Debug, PartialEq, Eq, Structural)]
pub enum HandleError {
    /// The table never issued this handle.
    Unknown,
    /// The handle was torn down before.
    Released,
}

/// What the table answers for handle `h` when its slots are `slots`.
pub open spec fn lookup<T>(slots: Seq<Option<T>>, h: i64) -> Result<T, HandleError> {
    if h < 0 || h >= slots.len() {
        Err(HandleError::Unknown)
    } else {
        match slots[h as int] {
            Some(v) => Ok(v),
            None => Err(HandleError::Released),
        }
    }
}

pub struct HandleTable<T> {
    slots: Vec<Option<T>>,
}

impl<T> View for HandleTable<T> {
    type V = Seq<Option<T>>;

    closed spec fn view(&self) -> Seq<Option<T>> {
        self.slots@
    }
}

impl<T> HandleTable<T> {
    pub fn new() -> (r: HandleTable<T>)
        ensures
            r@ == Seq::<Option<T>>::empty(),
    {
        HandleTable { slots: Vec::new() }
    }

    /// Takes ownership of `v` and returns a fresh handle for it.
    pub fn register(&mut self, v: T) -> (h: i64)
        requires
            old(self)@.len() < i64::MAX,
        ensures
            h == old(self)@.len(),
            final(self)@ == old(self)@.push(Some(v)),
            lookup(final(self)@, h) == Ok::<T, HandleError>(v),
    {
        let h = self.slots.len() as i64;
        self.slots.push(Some(v));
        h
    }

    /// The value behind a live handle.
    pub fn get(&self, h: i64) -> (r: Result<&T, HandleError>)
        ensures
            r == match lookup(self@, h) {
                Ok(v) => Ok(&v),
                Err(e) => Err::<&T, HandleError>(e),
            },
    {
        if h < 0 || h as u64 >= self.slots.len() as u64 {
            return Err(HandleError::Unknown);
        }
        match &self.slots[h as usize] {
            Some(v) => Ok(v),
            None => Err(HandleError::Released),
        }
    }

    /// Tears a live handle down, handing its value back to be dropped;
    /// any other handle is refused and the table stays as it was.
    pub fn release(&mut self, h: i64) -> (r: Result<T, HandleError>)
        ensures
            r == lookup(old(self)@, h),
            r is Ok ==> final(self)@ == old(self)@.update(h as int, None),
            r is Err ==> final(self)@ == old(self)@,
    {
        if h < 0 || h as u64 >= self.slots.len() as u64 {
            return Err(HandleError::Unknown);
        }
        let i = h as usize;
        if self.slots[i].is_none() {
            return Err(HandleError::Released);
        }
        // the slot is emptied in place: an empty slot goes in at the end and
        // is swapped into position `i`
        self.slots.push(None);
        let taken = self.slots.swap_remove(i);
        assert(self.slots@ =~= old(self)@.update(h as int, None));
        match taken {
            Some(v) => Ok(v),
            None => Err(HandleError::Released),
        }
    }
}

/// Tearing a handle down twice is refused the second time, and a handle that
/// was torn down cannot be used again.
pub proof fn lemma_release_poisons<T>(slots: Seq<Option<T>>, h: i64)
    requires
        lookup(slots, h) is Ok,
    ensures
        lookup(slots.update(h as int, None), h) == Err::<T, HandleError>(HandleError::Released),
{
}

} // verus!
