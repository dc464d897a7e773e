//! Types that carry the units and tags of what the binding handles.

pub mod channels;
pub mod color;
pub mod marker;
pub mod pixels;
pub mod sampling;
pub mod text;
pub mod time;
pub mod traits;
pub mod types;

pub use traits::{Filterable, MediaMarker};
pub use types::StreamID;

use vstd::prelude::*;
use vstd::string::StringSliceAdditionalSpecFns;
use crate::error::{Error, ErrorView};

verus! {

/// The bytes of a native string: the given bytes and a zero byte that ends
/// them.
pub open spec fn spec_cstr(bytes: Seq<u8>) -> Seq<u8> {
    bytes.push(0u8)
}

/// Turns the bytes of a path into a native string. Fails if a zero byte is
/// among them: the native side would take the path to end there.
pub fn path_to_cstr(path: &[u8]) -> (result: Result<Vec<u8>, Error>)
    ensures
        result is Ok <==> !path@.contains(0u8),
        result matches Ok(cstr) ==> cstr@ == spec_cstr(path@),
        result matches Err(e) ==> e@ == ErrorView::FFIString,
{
    let mut cstr: Vec<u8> = Vec::new();
    let mut i: usize = 0;
    while i < path.len()
        invariant
            i <= path@.len(),
            cstr@ == path@.take(i as int),
            !path@.take(i as int).contains(0u8),
        decreases path@.len() - i,
    {
        let byte = path[i];
        if byte == 0 {
            return Err(Error::FFIString);
        }
        cstr.push(byte);
        assert(path@.take(i + 1) =~= path@.take(i as int).push(byte));
        assert(!path@.take(i + 1).contains(0u8)) by {
            let longer = path@.take(i + 1);
            if longer.contains(0u8) {
                let j = choose|j: int| 0 <= j < longer.len() && longer[j] == 0u8;
                if j < i {
                    assert(path@.take(i as int)[j] == 0u8);
                }
            }
        }
        i += 1;
    }
    assert(path@.take(i as int) =~= path@);
    cstr.push(0);
    Ok(cstr)
}

/// Turns a path into a native string on a platform whose paths are not
/// plain bytes. `path` is the path as text, or nothing if it is no valid
/// text; the latter is an invalid path.
pub fn text_path_to_cstr(path: Option<&str>) -> (result: Result<Vec<u8>, Error>)
    ensures
        path is None ==> (result matches Err(e) && e@ == ErrorView::InvalidPath),
        path matches Some(p) ==> {
            &&& result is Ok <==> !p.spec_bytes().contains(0u8)
            &&& result matches Ok(cstr) ==> cstr@ == spec_cstr(p.spec_bytes())
            &&& result matches Err(e) ==> e@ == ErrorView::FFIString
        },
{
    match path {
        None => Err(Error::InvalidPath),
        Some(p) => path_to_cstr(p.as_bytes()),
    }
}

/// The identity of a native object, made from its address. Two objects that
/// are alive at the same time have different identities.
pub fn make_id_from_ptr(address: usize) -> (id: u64)
    ensures
        id == address,
{
    address as u64
}

} // verus!
