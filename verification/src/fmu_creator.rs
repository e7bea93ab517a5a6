//! Rules for building a Liaison FMU from an existing FMU: the name of the
//! model, the names of the archive entries, which platform libraries must be
//! present, and how the TLS files that a Zenoh configuration points to are
//! carried into the archive.
//!
//! Paths are read as on Unix: components are separated by `/`, and `.`
//! components name the directory they stand in.
use crate::text::chars_of;
use vstd::prelude::*;

verus! {

/// A path with its trailing separators and trailing `.` components removed
/// (a path that names only the current directory trims to nothing).
pub open spec fn trim_trailing(p: Seq<char>) -> Seq<char>
    decreases p.len(),
{
    if p.len() == 0 {
        p
    } else if p.last() == '/' {
        trim_trailing(p.drop_last())
    } else if p.len() == 1 && p[0] == '.' {
        Seq::empty()
    } else if p.len() >= 2 && p.last() == '.' && p[p.len() - 2] == '/' {
        trim_trailing(p.subrange(0, p.len() - 2))
    } else {
        p
    }
}

/// Where the last component of a path starts: just after its last `/`, or
/// at 0 when it has none.
pub open spec fn segment_start(p: Seq<char>) -> int
    decreases p.len(),
{
    if p.len() == 0 {
        0
    } else if p.last() == '/' {
        p.len() as int
    } else {
        segment_start(p.drop_last())
    }
}

/// The final component of a path, if it names a file or directory: none for
/// an empty path, the root, the current directory or a path that ends in
/// `..`.
pub open spec fn file_name_spec(p: Seq<char>) -> Option<Seq<char>> {
    let t = trim_trailing(p);
    let s = t.subrange(segment_start(t), t.len() as int);
    if s.len() == 0 || s == seq!['.', '.'] {
        None
    } else {
        Some(s)
    }
}

/// The index of the last `.` in a name, or -1 when it has none.
pub open spec fn last_dot(name: Seq<char>) -> int
    decreases name.len(),
{
    if name.len() == 0 {
        -1
    } else if name.last() == '.' {
        name.len() - 1
    } else {
        last_dot(name.drop_last())
    }
}

/// A file name without its extension: the part before the last `.`, unless
/// that `.` is the first character or there is none, in which case the whole
/// name.
pub open spec fn stem_spec(name: Seq<char>) -> Seq<char> {
    let d = last_dot(name);
    if d <= 0 {
        name
    } else {
        name.take(d)
    }
}

/// The name of the model in an FMU file at path `p`: the file name without
/// its extension.
pub open spec fn model_name_spec(p: Seq<char>) -> Option<Seq<char>> {
    match file_name_spec(p) {
        Some(name) => Some(stem_spec(name)),
        None => None,
    }
}

/// The view of an optional string.
pub open spec fn opt_string_view(s: Option<String>) -> Option<Seq<char>> {
    match s {
        Some(t) => Some(t@),
        None => None,
    }
}

fn trimmed_len(chars: &Vec<char>) -> (n: usize)
    ensures
        n <= chars@.len(),
        chars@.take(n as int) == trim_trailing(chars@),
{
    let mut n = chars.len();
    proof {
        assert(chars@.take(n as int) =~= chars@);
    }
    loop
        invariant
            n <= chars@.len(),
            trim_trailing(chars@.take(n as int)) == trim_trailing(chars@),
        decreases n,
    {
        if n == 0 {
            return 0;
        }
        if chars[n - 1] == '/' {
            proof {
                assert(chars@.take(n as int).drop_last() =~= chars@.take(n - 1));
            }
            n = n - 1;
        } else if n == 1 && chars[0] == '.' {
            proof {
                assert(chars@.take(0) =~= Seq::<char>::empty());
            }
            return 0;
        } else if n >= 2 && chars[n - 1] == '.' && chars[n - 2] == '/' {
            proof {
                assert(chars@.take(n as int).subrange(0, n - 2) =~= chars@.take(n - 2));
            }
            n = n - 2;
        } else {
            return n;
        }
    }
}

fn segment_start_of(chars: &Vec<char>, n: usize) -> (k: usize)
    requires
        n <= chars@.len(),
    ensures
        k <= n,
        k == segment_start(chars@.take(n as int)),
{
    let mut k = n;
    while k > 0 && chars[k - 1] != '/'
        invariant
            k <= n <= chars@.len(),
            segment_start(chars@.take(k as int)) == segment_start(chars@.take(n as int)),
        decreases k,
    {
        proof {
            assert(chars@.take(k as int).drop_last() =~= chars@.take(k - 1));
        }
        k = k - 1;
    }
    k
}

/// Finds the final component of the path held in `chars`: its bounds, if
/// the path has one.
fn file_name_bounds(chars: &Vec<char>) -> (r: Option<(usize, usize)>)
    ensures
        match r {
            Some((k, n)) => k <= n <= chars@.len() && file_name_spec(chars@) == Some(
                chars@.subrange(k as int, n as int),
            ),
            None => file_name_spec(chars@) is None,
        },
{
    let n = trimmed_len(chars);
    let k = segment_start_of(chars, n);
    proof {
        assert(chars@.take(n as int).subrange(k as int, n as int) =~= chars@.subrange(
            k as int,
            n as int,
        ));
    }
    if k == n {
        return None;
    }
    if n - k == 2 && chars[k] == '.' && chars[k + 1] == '.' {
        proof {
            assert(chars@.subrange(k as int, n as int) =~= seq!['.', '.']);
        }
        return None;
    }
    proof {
        if chars@.subrange(k as int, n as int) == seq!['.', '.'] {
            assert(chars@.subrange(k as int, n as int)[0] == chars@[k as int]);
            assert(chars@.subrange(k as int, n as int)[1] == chars@[k + 1]);
        }
    }
    Some((k, n))
}

/// Where the stem of the name `chars[k..n]` ends.
fn stem_end(chars: &Vec<char>, k: usize, n: usize) -> (e: usize)
    requires
        k <= n <= chars@.len(),
    ensures
        k <= e <= n,
        chars@.subrange(k as int, e as int) == stem_spec(chars@.subrange(k as int, n as int)),
{
    let mut j = n;
    while j > k && chars[j - 1] != '.'
        invariant
            k <= j <= n <= chars@.len(),
            last_dot(chars@.subrange(k as int, j as int)) == last_dot(
                chars@.subrange(k as int, n as int),
            ),
        decreases j,
    {
        proof {
            assert(chars@.subrange(k as int, j as int).drop_last() =~= chars@.subrange(
                k as int,
                j - 1,
            ));
        }
        j = j - 1;
    }
    proof {
        let name = chars@.subrange(k as int, n as int);
        if j == k {
            assert(last_dot(chars@.subrange(k as int, j as int)) == -1);
        } else {
            assert(chars@.subrange(k as int, j as int).last() == '.');
            assert(last_dot(name) == j - 1 - k);
            if j - 1 > k {
                assert(name.take(j - 1 - k) =~= chars@.subrange(k as int, j - 1));
            }
        }
    }
    if j == k || j - 1 == k {
        n
    } else {
        j - 1
    }
}

/// The final component of `path` (`file.txt` in `/dir/file.txt`), or `None`
/// where the path names no file.
pub fn file_name_of(path: &str) -> (r: Option<String>)
    ensures
        opt_string_view(r) == file_name_spec(path@),
{
    let chars = chars_of(path);
    match file_name_bounds(&chars) {
        Some((k, n)) => Some(String::from_str(path.substring_char(k, n))),
        None => None,
    }
}

/// The name of the model in the FMU file at `fmu_path`: its file name
/// without the extension (`MyModel` for `/some/path/MyModel.fmu`).
pub fn model_name_from_path(fmu_path: &str) -> (r: Option<String>)
    ensures
        opt_string_view(r) == model_name_spec(fmu_path@),
{
    let chars = chars_of(fmu_path);
    match file_name_bounds(&chars) {
        Some((k, n)) => {
            let e = stem_end(&chars, k, n);
            Some(String::from_str(fmu_path.substring_char(k, e)))
        },
        None => None,
    }
}


/// The file name of the Liaison FMU built for a model: `<model>Liaison.fmu`.
pub fn liaison_fmu_file_name(model_name: &str) -> (r: String)
    ensures
        r@ == model_name@ + "Liaison.fmu"@,
{
    let mut r = String::from_str(model_name);
    r.append("Liaison.fmu");
    r
}

/// The archive entry of the Linux client library in a Liaison FMU:
/// `binaries/x86_64-linux/<model>.so`.
pub fn linux_library_entry(model_name: &str) -> (r: String)
    ensures
        r@ == "binaries/x86_64-linux/"@ + model_name@ + ".so"@,
{
    let mut r = String::from_str("binaries/x86_64-linux/");
    r.append(model_name);
    r.append(".so");
    r
}

/// The archive entry of the Windows client library in a Liaison FMU:
/// `binaries/x86_64-windows/<model>.dll`.
pub fn windows_library_entry(model_name: &str) -> (r: String)
    ensures
        r@ == "binaries/x86_64-windows/"@ + model_name@ + ".dll"@,
{
    let mut r = String::from_str("binaries/x86_64-windows/");
    r.append(model_name);
    r.append(".dll");
    r
}

/// The archive entry of a file carried in the `binaries` directory:
/// `binaries/<file name>`.
pub fn binaries_entry(file_name: &str) -> (r: String)
    ensures
        r@ == "binaries/"@ + file_name@,
{
    let mut r = String::from_str("binaries/");
    r.append(file_name);
    r
}

/// Why a Liaison FMU could not be built.
#[derive(Debug, Clone, Copy, PartialEq, Eq, Structural)]
pub enum CreatorError {
    /// The FMU path names no file to take the model name from.
    InvalidModelName,
    /// Neither the Linux nor the Windows client library could be added.
    NoClientLibrary,
    /// A TLS file that the Zenoh configuration names does not exist.
    MissingTlsFile(TlsFile),
    /// A TLS file path names no file.
    InvalidTlsFileName(TlsFile),
}

/// At least one client library must be in the archive: the build fails only
/// where both the Linux and the Windows library failed to be added.
pub fn check_client_libraries(linux_added: bool, windows_added: bool) -> (r: Result<
    (),
    CreatorError,
>)
    ensures
        r == (if !linux_added && !windows_added {
            Err::<(), CreatorError>(CreatorError::NoClientLibrary)
        } else {
            Ok::<(), CreatorError>(())
        }),
{
    if !linux_added && !windows_added {
        Err(CreatorError::NoClientLibrary)
    } else {
        Ok(())
    }
}

/// The TLS files that a Zenoh configuration can name, in the order in which
/// they are processed.
#[derive(Debug, Clone, Copy, PartialEq, Eq, Structural)]
pub enum TlsFile {
    ConnectCertificate,
    ConnectPrivateKey,
    RootCaCertificate,
}

/// The configuration key of a TLS file.
pub open spec fn tls_key_spec(file: TlsFile) -> Seq<char> {
    match file {
        TlsFile::ConnectCertificate => "connect_certificate"@,
        TlsFile::ConnectPrivateKey => "connect_private_key"@,
        TlsFile::RootCaCertificate => "root_ca_certificate"@,
    }
}

impl TlsFile {
    /// The key under which the Zenoh TLS configuration names this file.
    pub fn key(self) -> (k: &'static str)
        ensures
            k@ == tls_key_spec(self),
    {
        match self {
            TlsFile::ConnectCertificate => "connect_certificate",
            TlsFile::ConnectPrivateKey => "connect_private_key",
            TlsFile::RootCaCertificate => "root_ca_certificate",
        }
    }
}

/// The TLS files in processing order.
pub fn tls_files() -> (r: Vec<TlsFile>)
    ensures
        r@ == seq![TlsFile::ConnectCertificate, TlsFile::ConnectPrivateKey, TlsFile::RootCaCertificate],
{
    let mut r = Vec::new();
    r.push(TlsFile::ConnectCertificate);
    r.push(TlsFile::ConnectPrivateKey);
    r.push(TlsFile::RootCaCertificate);
    r
}

/// How one TLS file is carried into the archive: the file is stored as
/// `archive_name`, and the configuration then names it by `file_name` alone.
pub struct TlsEntry {
    pub archive_name: String,
    pub file_name: String,
}

/// What happens to the TLS file that the configuration names under `file`:
/// nothing when the configuration names none (or an empty path); an error
/// when the file does not exist or its path names no file; otherwise the
/// file goes to `binaries/<file name>` and the configuration keeps only the
/// file name. `exists` tells whether a file is at `path`.
pub fn plan_tls_file(file: TlsFile, path: Option<&str>, exists: bool) -> (r: Result<
    Option<TlsEntry>,
    CreatorError,
>)
    ensures
        match path {
            None => r matches Ok(None),
            Some(p) => if p@.len() == 0 {
                r matches Ok(None)
            } else if !exists {
                r == Err::<Option<TlsEntry>, CreatorError>(CreatorError::MissingTlsFile(file))
            } else {
                match file_name_spec(p@) {
                    None => r == Err::<Option<TlsEntry>, CreatorError>(
                        CreatorError::InvalidTlsFileName(file),
                    ),
                    Some(name) => r matches Ok(Some(e)) && e.file_name@ == name
                        && e.archive_name@ == "binaries/"@ + name,
                }
            },
        },
{
    match path {
        None => Ok(None),
        Some(p) => {
            if p.is_empty() {
                return Ok(None);
            }
            if !exists {
                return Err(CreatorError::MissingTlsFile(file));
            }
            match file_name_of(p) {
                None => Err(CreatorError::InvalidTlsFileName(file)),
                Some(name) => {
                    let archive_name = binaries_entry(name.as_str());
                    Ok(Some(TlsEntry { archive_name, file_name: name }))
                },
            }
        },
    }
}

/// Where a TLS file that a Zenoh configuration names lies: an absolute path
/// as it stands, a relative one in the directory of the configuration file.
pub open spec fn tls_source_spec(config_path: Seq<char>, path: Seq<char>) -> Seq<char> {
    if path.len() > 0 && path[0] == '/' {
        path
    } else {
        config_path.take(segment_start(config_path)) + path
    }
}

/// The file that a TLS path of the Zenoh configuration at `config_path`
/// refers to: the TLS files lie beside the configuration file, so a
/// relative path is taken from that file's directory.
pub fn tls_source_path(config_path: &str, path: &str) -> (r: String)
    ensures
        r@ == tls_source_spec(config_path@, path@),
{
    if path.unicode_len() > 0 && path.get_char(0) == '/' {
        return String::from_str(path);
    }
    let chars = chars_of(config_path);
    let k = segment_start_of(&chars, chars.len());
    proof {
        assert(chars@.take(chars@.len() as int) =~= chars@);
    }
    let mut r = String::from_str(config_path.substring_char(0, k));
    r.append(path);
    proof {
        assert(config_path@.subrange(0, k as int) =~= config_path@.take(k as int));
    }
    r
}

} // verus!
