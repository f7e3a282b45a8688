use crate::c_str::{c_string, first_nul_at, nul_free, nul_terminated};
use crate::error::KunQuantError;
use vstd::prelude::*;
use vstd::string::StringSliceAdditionalSpecFns;

verus! {

/// Owner of one loaded native library of compiled factor graphs.
///
/// The handle is the address that the native loader returned; it is never null.
pub struct Library {
    handle: usize,
    path: String,
}

/// A computation graph inside a loaded library.
///
/// A module owns nothing: it borrows the library it came from, so it cannot
/// outlive it, and the library is unloaded only after every module is gone.
pub struct Module<'a> {
    handle: usize,
    library: &'a Library,
}

impl Library {
    #[verifier::type_invariant]
    spec fn handle_is_live(self) -> bool {
        self.handle != 0
    }

    /// The address of the native library.
    pub closed spec fn raw(&self) -> usize {
        self.handle
    }

    /// The path that the library was loaded from.
    pub closed spec fn source(&self) -> Seq<char> {
        self.path@
    }

    /// Decides whether a load of `path` may go to the native loader, and gives the
    /// path as the C string that the loader takes.
    ///
    /// `exists` tells whether the path names an existing file. A missing file is
    /// reported as `LibraryLoadFailed`, exactly as a file that the loader rejects.
    pub fn load_request(path: &str, exists: bool) -> (r: Result<Vec<u8>, KunQuantError>)
        ensures
            !exists ==> (r matches Err(KunQuantError::LibraryLoadFailed { path: p }) && p@ == path@),
            exists && nul_free(path.spec_bytes()) ==> (r matches Ok(c) && c@ == nul_terminated(
                path.spec_bytes(),
            )),
            exists && !nul_free(path.spec_bytes()) ==> (r matches Err(
                KunQuantError::StringConversion { nul_position },
            ) && first_nul_at(path.spec_bytes(), nul_position as int)),
    {
        if !exists {
            return Err(KunQuantError::LibraryLoadFailed { path: path.to_owned() });
        }
        c_string(path)
    }

    /// Takes ownership of the library that the native loader returned for `path`.
    ///
    /// `raw` is the address it returned; null means that the loader rejected the file.
    pub fn load(path: &str, raw: usize) -> (r: Result<Library, KunQuantError>)
        ensures
            raw == 0 ==> (r matches Err(KunQuantError::LibraryLoadFailed { path: p }) && p@ == path@),
            raw != 0 ==> (r matches Ok(lib) && lib.raw() == raw && lib.source() == path@),
    {
        if raw == 0 {
            Err(KunQuantError::LibraryLoadFailed { path: path.to_owned() })
        } else {
            Ok(Library { handle: raw, path: path.to_owned() })
        }
    }

    /// Binds the graph that the native layer found under `name` in this library.
    ///
    /// `raw` is the address it returned; null means that the library holds no graph
    /// of that name. The library itself is left as it was either way, and stays
    /// usable for other lookups.
    pub fn get_module<'a>(&'a self, name: &str, raw: usize) -> (r: Result<Module<'a>, KunQuantError>)
        ensures
            raw == 0 ==> (r matches Err(KunQuantError::ModuleNotFound { name: n }) && n@ == name@),
            raw != 0 ==> (r matches Ok(m) && m.raw() == raw && m.library_raw() == self.raw()),
    {
        if raw == 0 {
            Err(KunQuantError::ModuleNotFound { name: name.to_owned() })
        } else {
            Ok(Module { handle: raw, library: self })
        }
    }

    /// The address of the native library, to hand to a native call.
    pub fn handle(&self) -> (r: usize)
        ensures
            r == self.raw(),
            r != 0,
    {
        proof {
            use_type_invariant(self);
        }
        self.handle
    }

    /// The path that the library was loaded from.
    pub fn path(&self) -> (r: &str)
        ensures
            r@ == self.source(),
    {
        self.path.as_str()
    }
}

impl<'a> Module<'a> {
    #[verifier::type_invariant]
    spec fn handle_is_live(self) -> bool {
        self.handle != 0
    }

    /// The address of the native graph.
    pub closed spec fn raw(&self) -> usize {
        self.handle
    }

    /// The address of the library that the graph lives in.
    pub closed spec fn library_raw(&self) -> usize {
        self.library.handle
    }

    /// The address of the native graph, to hand to a native call.
    pub fn handle(&self) -> (r: usize)
        ensures
            r == self.raw(),
            r != 0,
    {
        proof {
            use_type_invariant(self);
        }
        self.handle
    }

    /// The library that the graph lives in.
    pub fn library(&self) -> (r: &'a Library)
        ensures
            r.raw() == self.library_raw(),
    {
        self.library
    }
}

} // verus!
