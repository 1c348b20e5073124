use vstd::prelude::*;

use std::rc::Rc;

verus! {

/// The value a shared payload refers to, if there is one.
pub open spec fn payload<D>(data: Option<Rc<D>>) -> Option<D> {
    match data {
        Some(rc) => Some(*rc),
        None => None,
    }
}

/// The single user-data slot of a buffer: at most one reference-counted
/// payload, whose reference the slot owns. Replacing the payload or dropping
/// the slot releases that reference exactly once, by ownership.
pub struct UserData<D> {
    data: Option<Rc<D>>,
}

impl<D> View for UserData<D> {
    type V = Option<D>;

    closed spec fn view(&self) -> Option<D> {
        payload(self.data)
    }
}

impl<D> UserData<D> {
    /// An empty slot.
    pub fn new() -> (r: UserData<D>)
        ensures
            r@ is None,
    {
        UserData { data: None }
    }

    /// A slot that takes over `data`'s reference.
    pub fn holding(data: Option<Rc<D>>) -> (r: UserData<D>)
        ensures
            r@ == payload(data),
    {
        UserData { data }
    }

    /// Gives up the slot, handing its reference to the caller.
    pub fn into_inner(self) -> (r: Option<Rc<D>>)
        ensures
            payload(r) == self@,
    {
        self.data
    }

    /// Attaches `data`, or clears the slot when it is `None`. The reference
    /// held before is released first.
    pub fn set(&mut self, data: Option<Rc<D>>)
        ensures
            final(self)@ == payload(data),
    {
        // The assignment drops the reference held before.
        self.data = data;
    }

    /// A new reference to the attached payload, if any.
    pub fn get(&self) -> (r: Option<Rc<D>>)
        ensures
            payload(r) == self@,
    {
        match &self.data {
            Some(rc) => Some(Rc::clone(rc)),
            None => None,
        }
    }
}

/// Round trip of the user-data slot: when the slot holds what `set` left
/// from `data` and `read` is what `get` then returned, `read` refers to the
/// value that `data` refers to, and after detaching (`data` is `None`)
/// nothing is read back.
pub proof fn lemma_user_data_round_trip<D>(
    data: Option<Rc<D>>,
    attached: Option<D>,
    read: Option<Rc<D>>,
)
    requires
        attached == payload(data),
        payload(read) == attached,
    ensures
        data is Some ==> read is Some && *read->Some_0 == *data->Some_0,
        data is None ==> read is None,
{
}

} // verus!
