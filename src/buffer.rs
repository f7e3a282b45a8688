use crate::c_str::{buffer_c_name, nul_free, nul_terminated};
use crate::error::KunQuantError;
use vstd::prelude::*;
use vstd::string::StringSliceAdditionalSpecFns;
use vstd::utf8::encode_utf8;

verus! {

/// The C string that the map owns for a registered buffer name.
pub open spec fn owned_c_name(name: Seq<char>) -> Seq<u8> {
    nul_terminated(encode_utf8(name))
}

/// One registered name with the NUL-terminated copy that the native table points at.
struct NamedBuffer {
    name: String,
    c_name: Vec<u8>,
}

/// Name table of a native buffer name map.
///
/// The native map associates buffer names with caller-owned float memory, which it
/// aliases without copying. It keys its entries by C-string pointers, so for every
/// registered name this table owns a NUL-terminated copy of the name that stays put
/// for as long as the name is registered. The view is the set of registered names.
pub struct BufferNameMap {
    handle: usize,
    entries: Vec<NamedBuffer>,
}

impl View for BufferNameMap {
    type V = Set<Seq<char>>;

    closed spec fn view(&self) -> Set<Seq<char>> {
        Set::new(|n: Seq<char>| exists|i: int| 0 <= i < self.entries@.len() && self.entries@[i].name@ == n)
    }
}

impl BufferNameMap {
    #[verifier::type_invariant]
    spec fn well_formed(self) -> bool {
        &&& self.handle != 0
        &&& forall|i: int|
            0 <= i < self.entries@.len() ==> {
                &&& nul_free(encode_utf8(#[trigger] self.entries@[i].name@))
                &&& self.entries@[i].c_name@ == owned_c_name(self.entries@[i].name@)
            }
        &&& forall|i: int, j: int|
            0 <= i < self.entries@.len() && 0 <= j < self.entries@.len() && i != j
                ==> #[trigger] self.entries@[i].name@ != #[trigger] self.entries@[j].name@
    }

    /// The address of the native name map.
    pub closed spec fn raw(&self) -> usize {
        self.handle
    }

    /// Takes ownership of a name map that the native layer just created, with no
    /// name registered.
    ///
    /// `raw` is the address it returned; null means that creation failed.
    pub fn new(raw: usize) -> (r: Result<BufferNameMap, KunQuantError>)
        ensures
            raw == 0 ==> r == Err::<BufferNameMap, KunQuantError>(KunQuantError::BufferNameMapCreationFailed),
            raw != 0 ==> (r matches Ok(m) && m.raw() == raw && m@ == Set::<Seq<char>>::empty()),
    {
        if raw == 0 {
            Err(KunQuantError::BufferNameMapCreationFailed)
        } else {
            let m = BufferNameMap { handle: raw, entries: Vec::new() };
            assert(m@ =~= Set::<Seq<char>>::empty());
            Ok(m)
        }
    }

    /// The position of `name` in the table, if it is registered.
    fn find(&self, name: &String) -> (r: Option<usize>)
        ensures
            match r {
                Some(i) => i < self.entries@.len() && self.entries@[i as int].name@ == name@,
                None => !self@.contains(name@),
            },
    {
        let mut i: usize = 0;
        while i < self.entries.len()
            invariant
                i <= self.entries@.len(),
                forall|k: int| 0 <= k < i ==> self.entries@[k].name@ != name@,
            decreases self.entries@.len() - i,
        {
            if self.entries[i].name == *name {
                return Some(i);
            }
            i = i + 1;
        }
        None
    }

    /// Registers `name`, storing a fresh NUL-terminated copy of it, and returns that
    /// copy for the native call that aliases the caller's buffer under it.
    ///
    /// Registering a name again replaces the stored copy. A name that holds a NUL
    /// byte is refused with `InvalidBufferName` and the table is left as it was, so
    /// no native call can be made for it.
    pub fn set_buffer(&mut self, name: &str) -> (r: Result<&[u8], KunQuantError>)
        ensures
            nul_free(name.spec_bytes()) ==> {
                &&& r matches Ok(c)
                &&& c@ == owned_c_name(name@)
                &&& final(self)@ == old(self)@.insert(name@)
            },
            !nul_free(name.spec_bytes()) ==> {
                &&& r matches Err(KunQuantError::InvalidBufferName { name: n })
                &&& n@ == name@
                &&& final(self)@ == old(self)@
            },
            final(self).raw() == old(self).raw(),
    {
        proof {
            use_type_invariant(&*self);
        }
        let c_name = match buffer_c_name(name) {
            Ok(c) => c,
            Err(e) => return Err(e),
        };
        let key = name.to_owned();
        let found = self.find(&key);
        let ghost old_entries = self.entries@;
        let mut entries: Vec<NamedBuffer> = Vec::new();
        std::mem::swap(&mut entries, &mut self.entries);
        let idx: usize = match found {
            Some(i) => {
                entries.set(i, NamedBuffer { name: key, c_name });
                i
            },
            None => {
                let n = entries.len();
                entries.push(NamedBuffer { name: key, c_name });
                n
            },
        };
        assert forall|i: int, j: int|
            0 <= i < entries@.len() && 0 <= j < entries@.len() && i != j implies
            #[trigger] entries@[i].name@ != #[trigger] entries@[j].name@ by {
            if i != idx && j != idx {
                assert(old_entries[i].name@ != old_entries[j].name@);
            } else if i != idx {
                assert(entries@[i] == old_entries[i]);
            } else {
                assert(entries@[j] == old_entries[j]);
            }
        }
        std::mem::swap(&mut entries, &mut self.entries);
        assert(self@ =~= old(self)@.insert(name@)) by {
            assert(self.entries@[idx as int].name@ == name@);
            assert forall|n: Seq<char>| #[trigger] self@.contains(n) implies old(self)@.insert(name@).contains(n) by {
                let i = choose|i: int| 0 <= i < self.entries@.len() && self.entries@[i].name@ == n;
                if i != idx {
                    assert(old(self).entries@[i] == self.entries@[i]);
                }
            }
            assert forall|n: Seq<char>| #[trigger] old(self)@.contains(n) && n != name@ implies self@.contains(n) by {
                let i = choose|i: int| 0 <= i < old(self).entries@.len() && old(self).entries@[i].name@ == n;
                assert(self.entries@[i] == old(self).entries@[i]);
            }
        }
        Ok(self.entries[idx].c_name.as_slice())
    }

    /// Removes `name` from the table and hands back its stored C string, which the
    /// native erase call takes before the copy is dropped.
    ///
    /// A name that was never registered is no error: nothing changes and nothing is
    /// handed back, so no native call follows.
    pub fn erase_buffer(&mut self, name: &str) -> (r: Option<Vec<u8>>)
        ensures
            old(self)@.contains(name@) ==> (r matches Some(c) && c@ == owned_c_name(name@)),
            !old(self)@.contains(name@) ==> r is None,
            final(self)@ == old(self)@.remove(name@),
            final(self).raw() == old(self).raw(),
    {
        proof {
            use_type_invariant(&*self);
        }
        let key = name.to_owned();
        match self.find(&key) {
            None => {
                assert(self@ =~= old(self)@.remove(name@));
                None
            },
            Some(i) => {
                let ghost old_entries = self.entries@;
                let mut entries: Vec<NamedBuffer> = Vec::new();
                std::mem::swap(&mut entries, &mut self.entries);
                let removed = entries.remove(i);
                assert forall|a: int, b: int|
                    0 <= a < entries@.len() && 0 <= b < entries@.len() && a != b implies
                    #[trigger] entries@[a].name@ != #[trigger] entries@[b].name@ by {
                    let oa = if a < i { a } else { a + 1 };
                    let ob = if b < i { b } else { b + 1 };
                    assert(entries@[a] == old_entries[oa]);
                    assert(entries@[b] == old_entries[ob]);
                }
                assert forall|a: int| 0 <= a < entries@.len() implies {
                    &&& nul_free(encode_utf8(#[trigger] entries@[a].name@))
                    &&& entries@[a].c_name@ == owned_c_name(entries@[a].name@)
                } by {
                    let oa = if a < i { a } else { a + 1 };
                    assert(entries@[a] == old_entries[oa]);
                }
                std::mem::swap(&mut entries, &mut self.entries);
                assert(self@ =~= old(self)@.remove(name@)) by {
                    assert forall|n: Seq<char>| #[trigger] self@.contains(n) implies old(self)@.remove(name@).contains(n) by {
                        let a = choose|a: int| 0 <= a < self.entries@.len() && self.entries@[a].name@ == n;
                        let oa = if a < i { a } else { a + 1 };
                        assert(self.entries@[a] == old_entries[oa]);
                    }
                    assert forall|n: Seq<char>| #[trigger] old(self)@.contains(n) && n != name@ implies self@.contains(n) by {
                        let a = choose|a: int| 0 <= a < old_entries.len() && old_entries[a].name@ == n;
                        if a < i {
                            assert(self.entries@[a] == old_entries[a]);
                        } else {
                            assert(a != i);
                            assert(self.entries@[a - 1] == old_entries[a]);
                        }
                    }
                }
                Some(removed.c_name)
            },
        }
    }

    /// Whether `name` is registered.
    pub fn contains(&self, name: &str) -> (r: bool)
        ensures
            r == self@.contains(name@),
    {
        let key = name.to_owned();
        self.find(&key).is_some()
    }

    /// The address of the native name map, to hand to a native call.
    pub fn handle(&self) -> (r: usize)
        ensures
            r == self.raw(),
            r != 0,
    {
        proof {
            use_type_invariant(self);
        }
        self.handle
    }
}

} // verus!
