//! The callback marshaller: continuations behind 32-bit context handles.
//!
//! The host takes a function pointer and one opaque 32-bit number, and
//! hands the number back when the operation completes. The table keeps
//! each continuation under such a number. A single-invocation
//! continuation is handed back, owned, on its one call, and its handle
//! is gone with it. A multi-invocation continuation is lent on every call
//! and stays until it is released.
//!
//! A single-invocation continuation that the host never completes stays
//! in the table for good. Only the host knows whether a completion will
//! still come, so the table does not reclaim it.

use vstd::prelude::*;

verus! {

/// How often a continuation may be invoked through its handle.
#[derive(Clone, Copy, Debug, PartialEq, Eq, Structural)]
pub enum Discipline {
    /// Once; the call consumes the continuation and its handle.
    Single,
    /// Any number of times, until the handle is released.
    Multi,
}

/// A continuation with its discipline, as the table holds it.
struct Entry<T> {
    discipline: Discipline,
    callback: T,
}

/// An entry as contracts see it.
pub ghost struct Registered<T> {
    pub discipline: Discipline,
    pub callback: T,
}

/// The live handles and what stands behind each.
pub type Handles<T> = Map<i32, Registered<T>>;

/// The greatest number of handles that can be live at once.
pub const MAX_LIVE: usize = 0x8000_0000;

/// No handle is free.
pub open spec fn exhausted<T>(handles: Handles<T>) -> bool {
    forall|h: i32| h >= 0 ==> handles.dom().contains(h)
}

/// The handle that the next continuation gets: the least number that is
/// not live.
pub open spec fn next_handle<T>(handles: Handles<T>, h: i32) -> bool {
    &&& h >= 0
    &&& !handles.dom().contains(h)
    &&& forall|k: i32| 0 <= k < h ==> handles.dom().contains(k)
}

/// Whether `h` is live with this discipline.
pub open spec fn live_as<T>(handles: Handles<T>, h: i32, discipline: Discipline) -> bool {
    handles.dom().contains(h) && handles[h].discipline == discipline
}

/// The one call of a single-invocation handle: the continuation, and
/// the table without the handle. For any other number, nothing.
pub open spec fn claim_model<T>(handles: Handles<T>, h: i32) -> (Option<T>, Handles<T>) {
    if live_as(handles, h, Discipline::Single) {
        (Some(handles[h].callback), handles.remove(h))
    } else {
        (None, handles)
    }
}

/// One call of a multi-invocation handle: the continuation, which stays.
pub open spec fn borrow_model<T>(handles: Handles<T>, h: i32) -> Option<T> {
    if live_as(handles, h, Discipline::Multi) {
        Some(handles[h].callback)
    } else {
        None
    }
}

/// The release of a multi-invocation handle: the continuation, and the
/// table without the handle. For any other number, nothing.
pub open spec fn release_model<T>(handles: Handles<T>, h: i32) -> (Option<T>, Handles<T>) {
    if live_as(handles, h, Discipline::Multi) {
        (Some(handles[h].callback), handles.remove(h))
    } else {
        (None, handles)
    }
}

/// What wrapping a continuation comes to: a fresh handle behind which
/// the continuation stands from then on, or, where no handle is free,
/// the continuation itself and a table that has not changed.
pub open spec fn wrapped_as<T>(
    before: Handles<T>,
    discipline: Discipline,
    callback: T,
    wrapped: Result<i32, T>,
    after: Handles<T>,
) -> bool {
    match wrapped {
        Ok(h) => {
            &&& next_handle(before, h)
            &&& after == before.insert(h, Registered { discipline, callback })
        },
        Err(back) => {
            &&& exhausted(before)
            &&& back == callback
            &&& after == before
        },
    }
}

/// The table of continuations that the host may still invoke.
pub struct CallbackTable<T> {
    slots: Vec<Option<Entry<T>>>,
}

impl<T> View for CallbackTable<T> {
    type V = Handles<T>;

    closed spec fn view(&self) -> Handles<T> {
        Map::new(
            |h: i32| 0 <= h < self.slots@.len() && self.slots@[h as int] is Some,
            |h: i32|
                Registered {
                    discipline: self.slots@[h as int]->0.discipline,
                    callback: self.slots@[h as int]->0.callback,
                },
        )
    }
}

impl<T> CallbackTable<T> {
    /// What holds of every table: it has no more slots than there are
    /// handles.
    pub closed spec fn wf(&self) -> bool {
        self.slots@.len() <= MAX_LIVE
    }

    /// A table with no handle live.
    pub fn new() -> (table: CallbackTable<T>)
        ensures
            table.wf(),
            table@ == Map::<i32, Registered<T>>::empty(),
    {
        let table = CallbackTable { slots: Vec::new() };
        assert(table@ =~= Map::<i32, Registered<T>>::empty());
        table
    }

    /// The first slot that is empty, or the number of slots.
    fn first_free(&self) -> (i: usize)
        ensures
            i <= self.slots@.len(),
            forall|k: int| 0 <= k < i ==> self.slots@[k] is Some,
            i < self.slots@.len() ==> self.slots@[i as int] is None,
    {
        let mut i: usize = 0;
        while i < self.slots.len()
            invariant
                i <= self.slots@.len(),
                forall|k: int| 0 <= k < i ==> self.slots@[k] is Some,
            decreases self.slots@.len() - i,
        {
            if self.slots[i].is_none() {
                return i;
            }
            i = i + 1;
        }
        i
    }

    /// Puts a continuation behind a handle.
    ///
    /// The handle is the least number that is not live. Where every
    /// number is live the continuation comes back and nothing changes.
    pub fn register(&mut self, discipline: Discipline, callback: T) -> (wrapped: Result<i32, T>)
        requires
            old(self).wf(),
        ensures
            final(self).wf(),
            wrapped_as(old(self)@, discipline, callback, wrapped, final(self)@),
    {
        let i = self.first_free();
        if i < self.slots.len() {
            self.slots.set(i, Some(Entry { discipline, callback }));
            assert(final(self)@ =~= old(self)@.insert(
                i as i32,
                Registered { discipline, callback },
            ));
            Ok(i as i32)
        } else if i < MAX_LIVE {
            self.slots.push(Some(Entry { discipline, callback }));
            assert(final(self)@ =~= old(self)@.insert(
                i as i32,
                Registered { discipline, callback },
            ));
            Ok(i as i32)
        } else {
            Err(callback)
        }
    }

    /// Whether `handle` is live with this discipline.
    fn is_live_as(&self, handle: i32, discipline: Discipline) -> (live: bool)
        requires
            self.wf(),
        ensures
            live == live_as(self@, handle, discipline),
            live ==> 0 <= handle < self.slots@.len() && self.slots@[handle as int] is Some,
    {
        if handle < 0 {
            return false;
        }
        let i = handle as usize;
        if i >= self.slots.len() {
            return false;
        }
        match &self.slots[i] {
            Some(entry) => entry.discipline == discipline,
            None => false,
        }
    }

    /// Empties the slot of a live handle and hands back what it held.
    fn vacate(&mut self, handle: i32) -> (callback: T)
        requires
            old(self).wf(),
            old(self)@.dom().contains(handle),
        ensures
            final(self).wf(),
            callback == old(self)@[handle].callback,
            final(self)@ == old(self)@.remove(handle),
    {
        let mut taken: Option<Entry<T>> = None;
        std::mem::swap(&mut self.slots[handle as usize], &mut taken);
        assert(final(self)@ =~= old(self)@.remove(handle));
        match taken {
            Some(entry) => entry.callback,
            None => vstd::pervasive::unreached(),
        }
    }

    /// The one call of a single-invocation handle.
    ///
    /// Hands the continuation over, owned, and retires the handle: a
    /// second call with the same number gets nothing. A number that is
    /// not live, or that stands for a multi-invocation continuation,
    /// gets nothing and changes nothing.
    pub fn claim(&mut self, handle: i32) -> (callback: Option<T>)
        requires
            old(self).wf(),
        ensures
            final(self).wf(),
            (callback, final(self)@) == claim_model(old(self)@, handle),
    {
        if self.is_live_as(handle, Discipline::Single) {
            Some(self.vacate(handle))
        } else {
            None
        }
    }

    /// One call of a multi-invocation handle.
    ///
    /// Lends the continuation; the table stays as it is, so the handle
    /// serves any number of calls. A number that is not live, or that
    /// stands for a single-invocation continuation, gets nothing.
    pub fn borrow(&self, handle: i32) -> (callback: Option<&T>)
        requires
            self.wf(),
        ensures
            match callback {
                Some(lent) => borrow_model(self@, handle) == Some(*lent),
                None => borrow_model(self@, handle) is None,
            },
    {
        if self.is_live_as(handle, Discipline::Multi) {
            match &self.slots[handle as usize] {
                Some(entry) => Some(&entry.callback),
                None => None,
            }
        } else {
            None
        }
    }

    /// Releases a multi-invocation handle.
    ///
    /// Hands the continuation back, owned, and retires the handle. A
    /// number that is not live, or that stands for a single-invocation
    /// continuation, gets nothing and changes nothing.
    pub fn release(&mut self, handle: i32) -> (callback: Option<T>)
        requires
            old(self).wf(),
        ensures
            final(self).wf(),
            (callback, final(self)@) == release_model(old(self)@, handle),
    {
        if self.is_live_as(handle, Discipline::Multi) {
            Some(self.vacate(handle))
        } else {
            None
        }
    }
}

/// A continuation that is to run once.
pub struct SingleInvocation<T>(pub T);

/// A continuation that may run any number of times.
pub struct MultiInvocation<T>(pub T);

/// Wrapping a continuation for the host. The type of the value picks the
/// discipline, so the two disciplines cannot be mixed up at a call.
pub trait WrapCallback<T>: Sized {
    /// The discipline that this value is wrapped under.
    spec fn discipline(&self) -> Discipline;

    /// The continuation inside.
    spec fn callback(&self) -> T;

    /// Puts the continuation behind the least handle that is not live.
    /// Where every number is live the continuation comes back and
    /// nothing changes.
    fn wrap_callback(self, table: &mut CallbackTable<T>) -> (wrapped: Result<i32, T>)
        requires
            old(table).wf(),
        ensures
            final(table).wf(),
            wrapped_as(old(table)@, self.discipline(), self.callback(), wrapped, final(table)@),
    ;
}

impl<T> WrapCallback<T> for SingleInvocation<T> {
    open spec fn discipline(&self) -> Discipline {
        Discipline::Single
    }

    open spec fn callback(&self) -> T {
        self.0
    }

    fn wrap_callback(self, table: &mut CallbackTable<T>) -> (wrapped: Result<i32, T>) {
        table.register(Discipline::Single, self.0)
    }
}

impl<T> WrapCallback<T> for MultiInvocation<T> {
    open spec fn discipline(&self) -> Discipline {
        Discipline::Multi
    }

    open spec fn callback(&self) -> T {
        self.0
    }

    fn wrap_callback(self, table: &mut CallbackTable<T>) -> (wrapped: Result<i32, T>) {
        table.register(Discipline::Multi, self.0)
    }
}

/// A single-invocation continuation runs exactly once. Behind a fresh
/// handle, its one call hands it over and leaves the table as it was
/// before the continuation was wrapped, so nothing of it remains; a
/// second call with the same number gets nothing. The operations of the
/// other discipline do not reach it.
pub proof fn law_single_runs_once<T>(handles: Handles<T>, h: i32, callback: T)
    requires
        next_handle(handles, h),
    ensures
        ({
            let wrapped = handles.insert(h, Registered { discipline: Discipline::Single, callback });
            &&& claim_model(wrapped, h) == (Some(callback), handles)
            &&& claim_model(claim_model(wrapped, h).1, h) == (None::<T>, handles)
            &&& borrow_model(wrapped, h) is None
            &&& release_model(wrapped, h) == (None::<T>, wrapped)
        }),
{
    let wrapped = handles.insert(h, Registered { discipline: Discipline::Single, callback });
    assert(wrapped.remove(h) =~= handles);
}

/// A multi-invocation continuation runs as often as it is called. Behind
/// a fresh handle, a call lends it and changes nothing, so each of any
/// number of calls finds it; a single-invocation call does not consume
/// it. Its release hands it back and leaves the table as it was before
/// the continuation was wrapped; after that a call gets nothing, and so
/// does a second release.
pub proof fn law_multi_runs_until_released<T>(handles: Handles<T>, h: i32, callback: T)
    requires
        next_handle(handles, h),
    ensures
        ({
            let wrapped = handles.insert(h, Registered { discipline: Discipline::Multi, callback });
            &&& borrow_model(wrapped, h) == Some(callback)
            &&& claim_model(wrapped, h) == (None::<T>, wrapped)
            &&& release_model(wrapped, h) == (Some(callback), handles)
            &&& borrow_model(release_model(wrapped, h).1, h) is None
            &&& release_model(release_model(wrapped, h).1, h) == (None::<T>, handles)
        }),
{
    let wrapped = handles.insert(h, Registered { discipline: Discipline::Multi, callback });
    assert(wrapped.remove(h) =~= handles);
}

/// What is done with one handle leaves every other handle as it is:
/// neither a call nor a release of `other` touches what stands behind
/// `h`, and a handle that is wrapped next is never a live one.
pub proof fn law_handles_independent<T>(handles: Handles<T>, h: i32, other: i32, fresh: i32)
    requires
        handles.dom().contains(h),
        other != h,
        next_handle(handles, fresh),
    ensures
        claim_model(handles, other).1.dom().contains(h),
        claim_model(handles, other).1[h] == handles[h],
        release_model(handles, other).1.dom().contains(h),
        release_model(handles, other).1[h] == handles[h],
        fresh != h,
{
}

} // verus!
