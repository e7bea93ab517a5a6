//! Where the shared library of an extracted FMU lies.
//!
//! An FMU archive holds one shared library per platform under
//! `binaries/<platform>/`; this server runs on 64-bit Linux and loads the
//! library from `binaries/x86_64-linux/`.
pub use crate::fmi3::fmi3Status;
use vstd::prelude::*;

verus! {

/// Platforms for which an FMU can carry a shared library.
#[derive(Debug, Clone, Copy, PartialEq, Eq, Structural)]
pub enum LibraryPlatform {
    Windows64,
    Windows32,
    Linux64,
}

/// The path of the shared library of model `model_name` for `platform` in
/// an FMU extracted to `temp_path`.
pub open spec fn library_path_spec(
    platform: LibraryPlatform,
    temp_path: Seq<char>,
    model_name: Seq<char>,
) -> Seq<char> {
    match platform {
        LibraryPlatform::Windows64 => temp_path + "/binaries/x86_64-windows/"@ + model_name
            + ".dll"@,
        LibraryPlatform::Windows32 => temp_path + "/binaries/x86-windows/"@ + model_name
            + ".dll"@,
        LibraryPlatform::Linux64 => temp_path + "/binaries/x86_64-linux/"@ + model_name + ".so"@,
    }
}

/// The path of the shared library of model `model_name` for `platform` in
/// an FMU extracted to `temp_path`, with `/` as separator on every platform.
pub fn library_path_for(platform: LibraryPlatform, temp_path: &str, model_name: &str) -> (r:
    String)
    ensures
        r@ == library_path_spec(platform, temp_path@, model_name@),
{
    let mut r = String::from_str(temp_path);
    match platform {
        LibraryPlatform::Windows64 => {
            r.append("/binaries/x86_64-windows/");
            r.append(model_name);
            r.append(".dll");
        },
        LibraryPlatform::Windows32 => {
            r.append("/binaries/x86-windows/");
            r.append(model_name);
            r.append(".dll");
        },
        LibraryPlatform::Linux64 => {
            r.append("/binaries/x86_64-linux/");
            r.append(model_name);
            r.append(".so");
        },
    }
    r
}

/// The path of the shared library that this server loads from an FMU
/// extracted to `temp_path`: `<temp_path>/binaries/x86_64-linux/<model>.so`.
pub fn construct_library_path(temp_path: &str, model_name: &str) -> (r: String)
    ensures
        r@ == library_path_spec(LibraryPlatform::Linux64, temp_path@, model_name@),
{
    library_path_for(LibraryPlatform::Linux64, temp_path, model_name)
}

} // verus!
