use crate::error::KunQuantError;
use vstd::prelude::*;

verus! {

/// How many workers a native worker pool runs.
#[derive(Debug, Clone, Copy, PartialEq, Eq)]
pub enum ThreadMode {
    /// One worker, the calling thread.
    Single,
    /// A pool of the given number of workers.
    Multi(i32),
}

/// Owner of one native worker pool.
///
/// The handle is the address that the native layer returned when it created the
/// pool; it is never null. The pool may be shared by reference and invoked from
/// several threads at once: the engine is thread-safe for that use.
pub struct Executor {
    handle: usize,
    mode: ThreadMode,
}

impl Executor {
    #[verifier::type_invariant]
    spec fn handle_is_live(self) -> bool {
        self.handle != 0
    }

    /// The address of the native worker pool.
    pub closed spec fn raw(&self) -> usize {
        self.handle
    }

    /// The number of workers that the pool was created with.
    pub closed spec fn mode(&self) -> ThreadMode {
        self.mode
    }

    /// Takes ownership of a single-threaded pool that the native layer just created.
    ///
    /// `raw` is the address it returned; null means that creation failed.
    pub fn single_thread(raw: usize) -> (r: Result<Executor, KunQuantError>)
        ensures
            raw == 0 ==> r == Err::<Executor, KunQuantError>(KunQuantError::ExecutorCreationFailed),
            raw != 0 ==> (r matches Ok(e) && e.raw() == raw && e.mode() == ThreadMode::Single),
    {
        if raw == 0 {
            Err(KunQuantError::ExecutorCreationFailed)
        } else {
            Ok(Executor { handle: raw, mode: ThreadMode::Single })
        }
    }

    /// Takes ownership of a pool of `num_threads` workers that the native layer just
    /// created.
    ///
    /// `raw` is the address it returned; null means that creation failed, which is
    /// also how the native layer refuses a thread count below one.
    pub fn multi_thread(num_threads: i32, raw: usize) -> (r: Result<Executor, KunQuantError>)
        ensures
            raw == 0 ==> r == Err::<Executor, KunQuantError>(KunQuantError::ExecutorCreationFailed),
            raw != 0 ==> (r matches Ok(e) && e.raw() == raw && e.mode() == ThreadMode::Multi(num_threads)),
    {
        if raw == 0 {
            Err(KunQuantError::ExecutorCreationFailed)
        } else {
            Ok(Executor { handle: raw, mode: ThreadMode::Multi(num_threads) })
        }
    }

    /// The address of the native worker pool, to hand to a native call.
    pub fn handle(&self) -> (r: usize)
        ensures
            r == self.raw(),
            r != 0,
    {
        proof {
            use_type_invariant(self);
        }
        self.handle
    }

    /// The number of workers that the pool was created with.
    pub fn thread_mode(&self) -> (r: ThreadMode)
        ensures
            r == self.mode(),
    {
        self.mode
    }
}

} // verus!
