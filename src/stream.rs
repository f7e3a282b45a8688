use crate::c_str::{buffer_c_name, c_string, first_nul_at, nul_free, nul_terminated};
use crate::error::KunQuantError;
use crate::executor::Executor;
use crate::library::Module;
use vstd::prelude::*;
use vstd::string::StringSliceAdditionalSpecFns;
use vstd::utf8::encode_utf8;

verus! {

/// What the native layer answers to a handle query for a name that it does not know.
pub const HANDLE_NOT_FOUND: usize = usize::MAX;

/// How the handle of a named buffer is to be had.
#[derive(Debug, Clone, PartialEq, Eq)]
pub enum HandleLookup {
    /// The context resolved the name before: here is its handle, no native query needed.
    Cached(usize),
    /// The name must be queried from the native session, with this C string.
    Query(Vec<u8>),
}

/// One resolved name and the handle that the native session gave for it.
struct CachedHandle {
    name: String,
    handle: usize,
}

/// Owner of one native streaming session, advanced one tick at a time.
///
/// The session borrows the executor and the module it was built from, so it cannot
/// outlive either. Its stock count is fixed at construction and is the length of
/// every buffer pushed into it or read from it. Names resolve to integer buffer
/// handles through a cache: once a name has resolved, it keeps its handle for the
/// life of the context and is never queried again.
pub struct StreamContext<'a> {
    handle: usize,
    num_stocks: usize,
    executor: &'a Executor,
    module: &'a Module<'a>,
    cache: Vec<CachedHandle>,
}

impl<'a> StreamContext<'a> {
    #[verifier::type_invariant]
    spec fn well_formed(self) -> bool {
        &&& self.handle != 0
        &&& forall|i: int|
            0 <= i < self.cache@.len() ==> {
                &&& nul_free(encode_utf8(#[trigger] self.cache@[i].name@))
                &&& self.cache@[i].handle != HANDLE_NOT_FOUND
            }
        &&& forall|i: int, j: int|
            0 <= i < self.cache@.len() && 0 <= j < self.cache@.len() && i != j
                ==> #[trigger] self.cache@[i].name@ != #[trigger] self.cache@[j].name@
    }

    /// The address of the native session.
    pub closed spec fn raw(&self) -> usize {
        self.handle
    }

    /// The number of stocks that the session was created for.
    pub closed spec fn stock_count(&self) -> usize {
        self.num_stocks
    }

    /// The address of the worker pool that runs the session.
    pub closed spec fn executor_raw(&self) -> usize {
        self.executor.raw()
    }

    /// The address of the graph that the session computes.
    pub closed spec fn module_raw(&self) -> usize {
        self.module.raw()
    }

    /// The names resolved so far, each with its buffer handle.
    pub closed spec fn handles(&self) -> Map<Seq<char>, usize> {
        Map::new(
            |n: Seq<char>| exists|i: int| 0 <= i < self.cache@.len() && self.cache@[i].name@ == n,
            |n: Seq<char>|
                self.cache@[choose|i: int| 0 <= i < self.cache@.len() && self.cache@[i].name@ == n].handle,
        )
    }

    /// `self` is `earlier` after some steps: the same session, with every handle that
    /// `earlier` had resolved still resolved to the same value.
    pub open spec fn extends(self, earlier: Self) -> bool {
        &&& self.raw() == earlier.raw()
        &&& self.stock_count() == earlier.stock_count()
        &&& earlier.handles().submap_of(self.handles())
    }

    /// Takes ownership of a session that the native layer just created for
    /// `num_stocks` stocks, running `module` on `executor`.
    ///
    /// `raw` is the address it returned; null means that creation failed: the module
    /// was not compiled for streaming, the stock count does not suit it, or memory
    /// ran out.
    pub fn new(executor: &'a Executor, module: &'a Module<'a>, num_stocks: usize, raw: usize) -> (r: Result<
        StreamContext<'a>,
        KunQuantError,
    >)
        ensures
            raw == 0 ==> r == Err::<StreamContext<'a>, KunQuantError>(KunQuantError::StreamCreationFailed),
            raw != 0 ==> {
                &&& r matches Ok(ctx)
                &&& ctx.raw() == raw
                &&& ctx.stock_count() == num_stocks
                &&& ctx.executor_raw() == executor.raw()
                &&& ctx.module_raw() == module.raw()
                &&& ctx.handles() == Map::<Seq<char>, usize>::empty()
            },
    {
        if raw == 0 {
            Err(KunQuantError::StreamCreationFailed)
        } else {
            let ctx = StreamContext { handle: raw, num_stocks, executor, module, cache: Vec::new() };
            assert(ctx.handles() =~= Map::<Seq<char>, usize>::empty());
            Ok(ctx)
        }
    }

    /// The position of `name` in the cache, if it has resolved.
    fn find(&self, name: &String) -> (r: Option<usize>)
        ensures
            match r {
                Some(i) => {
                    &&& i < self.cache@.len()
                    &&& self.cache@[i as int].name@ == name@
                    &&& self.handles().contains_key(name@)
                    &&& self.handles()[name@] == self.cache@[i as int].handle
                },
                None => !self.handles().contains_key(name@),
            },
    {
        proof {
            use_type_invariant(self);
        }
        let mut i: usize = 0;
        while i < self.cache.len()
            invariant
                i <= self.cache@.len(),
                forall|k: int| 0 <= k < i ==> self.cache@[k].name@ != name@,
            decreases self.cache@.len() - i,
        {
            if self.cache[i].name == *name {
                proof {
                    use_type_invariant(self);
                    let j = choose|j: int| 0 <= j < self.cache@.len() && self.cache@[j].name@ == name@;
                    if j != i {
                        assert(self.cache@[j].name@ != self.cache@[i as int].name@);
                    }
                }
                return Some(i);
            }
            i = i + 1;
        }
        None
    }

    /// How to get the buffer handle of `name`: from the cache when the name has
    /// resolved before, else by a native query with the name as a C string.
    ///
    /// A name that holds a NUL byte cannot become a C string and never resolves; it
    /// fails with `StringConversion` before any native query.
    pub fn get_buffer_handle(&self, name: &str) -> (r: Result<HandleLookup, KunQuantError>)
        ensures
            self.handles().contains_key(name@) ==> r == Ok::<HandleLookup, KunQuantError>(
                HandleLookup::Cached(self.handles()[name@]),
            ),
            !self.handles().contains_key(name@) && nul_free(name.spec_bytes()) ==> (r matches Ok(
                HandleLookup::Query(c),
            ) && c@ == nul_terminated(name.spec_bytes())),
            !nul_free(name.spec_bytes()) ==> (r matches Err(KunQuantError::StringConversion { nul_position })
                && first_nul_at(name.spec_bytes(), nul_position as int)),
    {
        proof {
            use_type_invariant(self);
        }
        let key = name.to_owned();
        match self.find(&key) {
            Some(i) => Ok(HandleLookup::Cached(self.cache[i].handle)),
            None => match c_string(name) {
                Ok(c) => Ok(HandleLookup::Query(c)),
                Err(e) => Err(e),
            },
        }
    }

    /// Takes in the answer `queried` of the native query for `name`.
    ///
    /// The native layer answers `HANDLE_NOT_FOUND` for a name that the session does not
    /// know; that becomes `BufferHandleNotFound` and is not cached. Any other answer is
    /// cached and returned. A name that has resolved already keeps its cached handle.
    /// A name that holds a NUL byte fails with `StringConversion` and is not cached.
    pub fn record_buffer_handle(&mut self, name: &str, queried: usize) -> (r: Result<usize, KunQuantError>)
        ensures
            final(self).extends(*old(self)),
            final(self).executor_raw() == old(self).executor_raw(),
            final(self).module_raw() == old(self).module_raw(),
            !nul_free(name.spec_bytes()) ==> {
                &&& r matches Err(KunQuantError::StringConversion { nul_position })
                &&& first_nul_at(name.spec_bytes(), nul_position as int)
                &&& final(self).handles() == old(self).handles()
            },
            nul_free(name.spec_bytes()) && old(self).handles().contains_key(name@) ==> {
                &&& r == Ok::<usize, KunQuantError>(old(self).handles()[name@])
                &&& final(self).handles() == old(self).handles()
            },
            nul_free(name.spec_bytes()) && !old(self).handles().contains_key(name@) && queried
                == HANDLE_NOT_FOUND ==> {
                &&& r matches Err(KunQuantError::BufferHandleNotFound { name: n })
                &&& n@ == name@
                &&& final(self).handles() == old(self).handles()
            },
            nul_free(name.spec_bytes()) && !old(self).handles().contains_key(name@) && queried
                != HANDLE_NOT_FOUND ==> {
                &&& r == Ok::<usize, KunQuantError>(queried)
                &&& final(self).handles() == old(self).handles().insert(name@, queried)
            },
    {
        proof {
            use_type_invariant(&*self);
        }
        if let Err(e) = c_string(name) {
            return Err(e);
        }
        let key = name.to_owned();
        if let Some(i) = self.find(&key) {
            return Ok(self.cache[i].handle);
        }
        if queried == HANDLE_NOT_FOUND {
            return Err(KunQuantError::BufferHandleNotFound { name: key });
        }
        let ghost old_cache = self.cache@;
        let mut cache: Vec<CachedHandle> = Vec::new();
        std::mem::swap(&mut cache, &mut self.cache);
        cache.push(CachedHandle { name: key, handle: queried });
        let ghost last = old_cache.len() as int;
        assert forall|i: int, j: int|
            0 <= i < cache@.len() && 0 <= j < cache@.len() && i != j implies
            #[trigger] cache@[i].name@ != #[trigger] cache@[j].name@ by {
            if i != last && j != last {
                assert(old_cache[i].name@ != old_cache[j].name@);
            } else if i != last {
                assert(cache@[i] == old_cache[i]);
                assert(old(self).handles().contains_key(cache@[i].name@));
            } else {
                assert(cache@[j] == old_cache[j]);
                assert(old(self).handles().contains_key(cache@[j].name@));
            }
        }
        std::mem::swap(&mut cache, &mut self.cache);
        assert(self.handles() =~= old(self).handles().insert(name@, queried)) by {
            assert(self.cache@[last].name@ == name@);
            assert forall|n: Seq<char>| #[trigger] self.handles().contains_key(n) implies old(
                self,
            ).handles().insert(name@, queried).contains_key(n) by {
                let i = choose|i: int| 0 <= i < self.cache@.len() && self.cache@[i].name@ == n;
                if i != last {
                    assert(old_cache[i] == self.cache@[i]);
                }
            }
            assert forall|n: Seq<char>| #[trigger] old(self).handles().insert(name@, queried).contains_key(n)
                implies self.handles().contains_key(n) && self.handles()[n] == old(self).handles().insert(
                name@,
                queried,
            )[n] by {
                let j = choose|j: int| 0 <= j < self.cache@.len() && self.cache@[j].name@ == n;
                if n == name@ {
                    if j != last {
                        assert(self.cache@[j].name@ != self.cache@[last].name@);
                    }
                } else {
                    let i = choose|i: int| 0 <= i < old_cache.len() && old_cache[i].name@ == n;
                    assert(self.cache@[i] == old_cache[i]);
                    if j != i {
                        assert(self.cache@[j].name@ != self.cache@[i].name@);
                    }
                }
            }
        }
        Ok(queried)
    }

    /// Checks a tick of `len` values for the input `name` before it is pushed, and
    /// says how to get the handle it goes to.
    ///
    /// A tick must hold exactly one value per stock; any other length fails with
    /// `BufferSizeMismatch` before anything else is looked at, and nothing is pushed.
    /// A name that holds a NUL byte is then refused with `InvalidBufferName`.
    pub fn push_data(&self, name: &str, len: usize) -> (r: Result<HandleLookup, KunQuantError>)
        ensures
            len != self.stock_count() ==> {
                &&& r matches Err(KunQuantError::BufferSizeMismatch { name: n, expected, actual })
                &&& n@ == name@
                &&& expected == self.stock_count()
                &&& actual == len
            },
            len == self.stock_count() && self.handles().contains_key(name@) ==> r == Ok::<
                HandleLookup,
                KunQuantError,
            >(HandleLookup::Cached(self.handles()[name@])),
            len == self.stock_count() && !self.handles().contains_key(name@) && nul_free(
                name.spec_bytes(),
            ) ==> (r matches Ok(HandleLookup::Query(c)) && c@ == nul_terminated(name.spec_bytes())),
            len == self.stock_count() && !nul_free(name.spec_bytes()) ==> (r matches Err(
                KunQuantError::InvalidBufferName { name: n },
            ) && n@ == name@),
    {
        if len != self.num_stocks {
            return Err(
                KunQuantError::BufferSizeMismatch { name: name.to_owned(), expected: self.num_stocks, actual: len },
            );
        }
        proof {
            use_type_invariant(self);
        }
        if let Err(e) = buffer_c_name(name) {
            return Err(e);
        }
        self.get_buffer_handle(name)
    }

    /// The length of the view of the current output buffer, once the native layer has
    /// answered whether it has data for it.
    ///
    /// No data (a null buffer) fails with `NullPointer`; otherwise the view holds one
    /// value per stock.
    pub fn current_buffer_len(&self, has_data: bool) -> (r: Result<usize, KunQuantError>)
        ensures
            !has_data ==> r == Err::<usize, KunQuantError>(KunQuantError::NullPointer),
            has_data ==> r == Ok::<usize, KunQuantError>(self.stock_count()),
    {
        if has_data {
            Ok(self.num_stocks)
        } else {
            Err(KunQuantError::NullPointer)
        }
    }

    /// The number of stocks that the session was created for.
    pub fn num_stocks(&self) -> (r: usize)
        ensures
            r == self.stock_count(),
    {
        self.num_stocks
    }

    /// The address of the native session, to hand to a native call.
    pub fn handle(&self) -> (r: usize)
        ensures
            r == self.raw(),
            r != 0,
    {
        proof {
            use_type_invariant(self);
        }
        self.handle
    }
}

/// Once a name has resolved to a handle, every later state of the context resolves
/// it to that same handle from its cache, so no second native query is made.
pub proof fn lemma_resolution_is_stable<'a>(
    earlier: StreamContext<'a>,
    later: StreamContext<'a>,
    name: Seq<char>,
)
    requires
        earlier.handles().contains_key(name),
        later.extends(earlier),
    ensures
        later.handles().contains_key(name),
        later.handles()[name] == earlier.handles()[name],
{
    assert(later.handles().contains_key(name));
}

} // verus!
