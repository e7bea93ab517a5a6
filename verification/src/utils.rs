//! Layout of an extracted FMU.
use vstd::prelude::*;

verus! {

/// The resource directory of an FMU extracted to `temp_path`:
/// `<temp_path>/resources`.
pub fn resource_path(temp_path: &str) -> (r: String)
    ensures
        r@ == temp_path@ + "/resources"@,
{
    let mut r = String::from_str(temp_path);
    r.append("/resources");
    r
}

/// Whether an archive entry names a directory: its name ends in `/`.
pub fn is_directory_entry(name: &str) -> (b: bool)
    ensures
        b == (name@.len() > 0 && name@.last() == '/'),
{
    let n = name.unicode_len();
    n > 0 && name.get_char(n - 1) == '/'
}

} // verus!
