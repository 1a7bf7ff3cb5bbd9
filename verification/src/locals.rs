//! Holders for per-thread values.
//!
//! [`CacheSlot`] is the storage that every identifier strategy keeps once per
//! thread. [`NightlyLocalKey`] and [`DummyLocalKey`] stand in for a
//! thread-local key: the first gives access to a value that lives in the
//! thread's own storage, the second is what is left where no such storage
//! exists.
use core::convert::Infallible;
use core::mem::ManuallyDrop;
use vstd::prelude::*;

verus! {

/// Per-thread storage for at most one identifier of one strategy.
///
/// The slot starts empty and is filled by the first request that the thread
/// makes; later requests read it.
pub struct CacheSlot<T> {
    value: Option<T>,
}

impl<T> View for CacheSlot<T> {
    type V = Option<T>;

    closed spec fn view(&self) -> Option<T> {
        self.value
    }
}

impl<T: Copy> CacheSlot<T> {
    /// An empty slot.
    pub fn new() -> (slot: Self)
        ensures
            slot@ is None,
    {
        CacheSlot { value: None }
    }

    /// What the slot holds.
    pub fn get(&self) -> (held: Option<T>)
        ensures
            held == self@,
    {
        self.value
    }

    /// Replaces what the slot holds.
    pub fn set(&mut self, value: Option<T>)
        ensures
            final(self)@ == value,
    {
        self.value = value;
    }

    /// Returns the cached value, or runs `init` once, caches what it
    /// produced and returns that.
    ///
    /// `init` is not called when the slot is filled.
    pub fn get_or_insert_with<F: FnOnce() -> T>(&mut self, init: F) -> (held: T)
        requires
            old(self)@ is None ==> init.requires(()),
        ensures
            final(self)@ == Some(held),
            old(self)@ matches Some(cached) ==> held == cached,
            old(self)@ is None ==> init.ensures((), held),
    {
        match self.value {
            Some(existing) => existing,
            None => {
                let fresh = init();
                self.value = Some(fresh);
                fresh
            },
        }
    }
}

/// A key to a value kept in the thread's own storage, which is there for as
/// long as the thread runs.
pub struct NightlyLocalKey<T> {
    value: T,
}

impl<T> View for NightlyLocalKey<T> {
    type V = T;

    closed spec fn view(&self) -> T {
        self.value
    }
}

impl<T: 'static> NightlyLocalKey<T> {
    /// A key to `value`.
    pub fn new(value: T) -> (key: NightlyLocalKey<T>)
        ensures
            key@ == value,
    {
        NightlyLocalKey { value }
    }

    /// Runs `func` on the value and returns what it returns.
    pub fn with<F: FnOnce(&T) -> R, R>(&self, func: F) -> (out: R)
        requires
            func.requires((&self@,)),
        ensures
            func.ensures((&self@,), out),
    {
        func(&self.value)
    }

    /// As [`NightlyLocalKey::with`]; access through this key never fails.
    pub fn try_with<F: FnOnce(&T) -> R, R>(&self, func: F) -> (out: Result<R, Infallible>)
        requires
            func.requires((&self@,)),
        ensures
            out matches Ok(r) && func.ensures((&self@,), r),
    {
        Ok(func(&self.value))
    }
}

/// The text with which access through a [`DummyLocalKey`] is refused.
pub open spec fn unsupported_message() -> Seq<char> {
    "thread local unsupported"@
}

/// A key for builds without thread-local storage: it takes a value and never
/// gives access to it.
pub struct DummyLocalKey<T> {
    _value: ManuallyDrop<T>,
}

impl<T: 'static> DummyLocalKey<T> {
    /// A key that keeps `value` out of reach.
    pub fn new(value: T) -> (key: Self)
        ensures
            key.held() == value,
    {
        DummyLocalKey { _value: ManuallyDrop::new(value) }
    }

    /// The value that the key was made with.
    pub closed spec fn held(&self) -> T {
        self._value@
    }

    /// Refuses access: `func` is not called.
    pub fn try_with<F: FnOnce(&T) -> R, R>(&self, func: F) -> (out: Result<R, &'static str>)
        ensures
            out matches Err(text) && text@ == unsupported_message(),
    {
        let _ = func;
        Err("thread local unsupported")
    }
}

} // verus!
