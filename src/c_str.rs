use crate::error::KunQuantError;
use vstd::prelude::*;
use vstd::string::StringSliceAdditionalSpecFns;

verus! {

/// The bytes that a C string holding `bytes` points to: the bytes, then one NUL.
pub open spec fn nul_terminated(bytes: Seq<u8>) -> Seq<u8> {
    bytes.push(0u8)
}

/// `bytes` can become a C string: no byte of it is NUL.
pub open spec fn nul_free(bytes: Seq<u8>) -> bool {
    forall|i: int| 0 <= i < bytes.len() ==> bytes[i] != 0u8
}

/// `pos` is the index of the first NUL byte of `bytes`.
pub open spec fn first_nul_at(bytes: Seq<u8>, pos: int) -> bool {
    &&& 0 <= pos < bytes.len()
    &&& bytes[pos] == 0u8
    &&& nul_free(bytes.subrange(0, pos))
}

/// Encodes `s` as the bytes of a NUL-terminated C string.
///
/// Fails with the index of the first NUL byte of `s` when there is one: such a
/// string would be cut short on the other side of the boundary.
pub fn to_c_string(s: &str) -> (r: Result<Vec<u8>, usize>)
    ensures
        match r {
            Ok(c) => nul_free(s.spec_bytes()) && c@ == nul_terminated(s.spec_bytes()),
            Err(pos) => first_nul_at(s.spec_bytes(), pos as int),
        },
{
    let bytes = s.as_bytes();
    let n = bytes.len();
    let mut out: Vec<u8> = Vec::new();
    let mut i: usize = 0;
    while i < n
        invariant
            n == bytes@.len(),
            bytes@ == s.spec_bytes(),
            i <= n,
            out@ == bytes@.subrange(0, i as int),
            nul_free(out@),
        decreases n - i,
    {
        let b = bytes[i];
        if b == 0u8 {
            return Err(i);
        }
        out.push(b);
        i = i + 1;
        assert(out@ == bytes@.subrange(0, i as int));
    }
    assert(out@ == bytes@);
    out.push(0u8);
    Ok(out)
}

/// Encodes a path or module name as a C string, failing with `StringConversion`
/// at the first NUL byte.
pub fn c_string(s: &str) -> (r: Result<Vec<u8>, KunQuantError>)
    ensures
        nul_free(s.spec_bytes()) ==> (r matches Ok(c) && c@ == nul_terminated(s.spec_bytes())),
        !nul_free(s.spec_bytes()) ==> (r matches Err(KunQuantError::StringConversion { nul_position })
            && first_nul_at(s.spec_bytes(), nul_position as int)),
{
    match to_c_string(s) {
        Ok(c) => Ok(c),
        Err(pos) => Err(KunQuantError::StringConversion { nul_position: pos }),
    }
}

/// Encodes a buffer name as a C string, failing with `InvalidBufferName` when the
/// name holds a NUL byte.
pub fn buffer_c_name(name: &str) -> (r: Result<Vec<u8>, KunQuantError>)
    ensures
        nul_free(name.spec_bytes()) ==> (r matches Ok(c) && c@ == nul_terminated(name.spec_bytes())),
        !nul_free(name.spec_bytes()) ==> (r matches Err(KunQuantError::InvalidBufferName { name: n })
            && n@ == name@),
{
    match to_c_string(name) {
        Ok(c) => Ok(c),
        Err(_) => Err(KunQuantError::InvalidBufferName { name: name.to_owned() }),
    }
}

} // verus!
