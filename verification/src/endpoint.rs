//! Endpoint naming: where the two processes meet.
//!
//! On POSIX platforms the endpoint is a socket file with a fixed name
//! inside the controller's working directory.  On Windows it is a named
//! pipe whose name is derived deterministically from a hash of the
//! working directory's text, so both peers compute the same name from the
//! same directory without sharing anything out of band.  The same hash
//! also picks the development server's port.  Everything here is a pure
//! function of its arguments: two processes that agree on the working
//! directory agree on the endpoint.

use vstd::prelude::*;

use crate::json::hex_digits;
use vstd::string::StringSliceAdditionalSpecFns;

verus! {

/// The platform family an endpoint name is made for.
#[derive(Clone, Copy, PartialEq, Eq, Structural)]
pub enum PlatformKind {
    /// Filesystem-path domain sockets.
    Posix,
    /// Named pipes.
    Windows,
}

/// The socket file's name inside the working directory.
pub fn socket_file_name() -> (r: &'static str)
    ensures
        r@ == (".tauri-mcp.sock")@,
{
    ".tauri-mcp.sock"
}

/// The text of a path joined with one more component.
pub open spec fn joined_path(base: Seq<char>, name: Seq<char>) -> Seq<char> {
    if base.len() == 0 {
        name
    } else if base.last() == '/' {
        base + name
    } else {
        base + seq!['/'] + name
    }
}

/// The socket file's path inside `project_root`.
pub fn unix_socket_path(project_root: &str) -> (r: String)
    ensures
        r@ == joined_path(project_root@, (".tauri-mcp.sock")@),
{
    let n = project_root.unicode_len();
    let mut r = String::new();
    r.append(project_root);
    if n > 0 && project_root.get_char(n - 1) != '/' {
        r.append("/");
    }
    r.append(socket_file_name());
    proof {
        reveal_strlit("/");
        assert(r@ =~= joined_path(project_root@, (".tauri-mcp.sock")@));
    }
    r
}

/// One step of the 64-bit FNV-1a hash.
pub open spec fn fnv_step(h: u64, b: u8) -> u64 {
    vstd::wrapping::u64_specs::wrapping_mul(h ^ (b as u64), 0x100000001b3u64)
}

/// The 64-bit FNV-1a hash of a byte sequence.
pub open spec fn fnv1a(bytes: Seq<u8>) -> u64
    decreases bytes.len(),
{
    if bytes.len() == 0 {
        0xcbf29ce484222325u64
    } else {
        fnv_step(fnv1a(bytes.drop_last()), bytes.last())
    }
}

/// Hashes `bytes` with 64-bit FNV-1a.
pub fn fnv1a_hash(bytes: &Vec<u8>) -> (r: u64)
    ensures
        r == fnv1a(bytes@),
{
    let mut h: u64 = 0xcbf29ce484222325;
    let mut i: usize = 0;
    proof {
        assert(bytes@.take(0) =~= Seq::<u8>::empty());
    }
    while i < bytes.len()
        invariant
            i <= bytes@.len(),
            h == fnv1a(bytes@.take(i as int)),
        decreases bytes@.len() - i,
    {
        let b = bytes[i];
        proof {
            assert(bytes@.take(i as int + 1).drop_last() =~= bytes@.take(i as int));
            assert(bytes@.take(i as int + 1).last() == bytes@[i as int]);
        }
        h = (h ^ (b as u64)).wrapping_mul(0x100000001b3);
        i = i + 1;
    }
    proof {
        assert(bytes@.take(bytes@.len() as int) =~= bytes@);
    }
    h
}

/// The pipe name for `project_root`: a fixed stem and the hash of the
/// root's bytes in lower-case hexadecimal.
pub fn windows_pipe_name(project_root: &str) -> (r: String)
    ensures
        r@ == ("tauri-mcp-")@ + hex_digits(fnv1a(project_root.spec_bytes()) as nat),
{
    let bytes = project_root.as_bytes_vec();
    let h = fnv1a_hash(&bytes);
    let hex = crate::json::hex_string(h);
    let mut r = String::new();
    r.append("tauri-mcp-");
    r.append(hex.as_str());
    proof {
        assert(r@ =~= ("tauri-mcp-")@ + hex_digits(fnv1a(project_root.spec_bytes()) as nat));
    }
    r
}

/// The endpoint name for `project_root` on the given platform family.
pub fn endpoint_name(platform: PlatformKind, project_root: &str) -> (r: String)
    ensures
        platform == PlatformKind::Posix ==> r@ == joined_path(
            project_root@,
            (".tauri-mcp.sock")@,
        ),
        platform == PlatformKind::Windows ==> r@ == ("tauri-mcp-")@ + hex_digits(
            fnv1a(project_root.spec_bytes()) as nat,
        ),
{
    match platform {
        PlatformKind::Posix => unix_socket_path(project_root),
        PlatformKind::Windows => windows_pipe_name(project_root),
    }
}

/// The path a client connects to, given the endpoint's name: the name
/// itself for a socket file, the pipe namespace prefix and the name for a
/// named pipe.
pub fn connection_path(platform: PlatformKind, endpoint: &str) -> (r: String)
    ensures
        platform == PlatformKind::Posix ==> r@ == endpoint@,
        platform == PlatformKind::Windows ==> r@ == ("\\\\.\\pipe\\")@ + endpoint@,
{
    match platform {
        PlatformKind::Posix => endpoint.to_owned(),
        PlatformKind::Windows => {
            let mut r = String::new();
            r.append("\\\\.\\pipe\\");
            r.append(endpoint);
            proof {
                assert(r@ =~= ("\\\\.\\pipe\\")@ + endpoint@);
            }
            r
        },
    }
}

/// The development server's port for `project_root`: an offset into the
/// range from 10000 up to but not including 60000, picked by the same
/// hash that names the pipe.
pub fn derive_dev_port(project_root: &str) -> (r: u16)
    ensures
        r == 10000 + fnv1a(project_root.spec_bytes()) % 50000,
        10000 <= r < 60000,
{
    let bytes = project_root.as_bytes_vec();
    let h = fnv1a_hash(&bytes);
    10000 + (h % 50000) as u16
}

/// Whether `s` ends with the characters of `suffix`.
fn ends_with_chars(s: &str, suffix: &str) -> (r: bool)
    ensures
        r == (s@.len() >= suffix@.len() && s@.subrange(
            s@.len() - suffix@.len(),
            s@.len() as int,
        ) == suffix@),
{
    let n = s.unicode_len();
    let m = suffix.unicode_len();
    if n < m {
        return false;
    }
    let mut i: usize = 0;
    while i < m
        invariant
            n == s@.len(),
            m == suffix@.len(),
            m <= n,
            i <= m,
            forall|j: int| 0 <= j < i ==> s@[s@.len() - suffix@.len() + j] == suffix@[j],
        decreases m - i,
    {
        if s.get_char(n - m + i) != suffix.get_char(i) {
            proof {
                assert(s@[s@.len() - suffix@.len() + i as int] != suffix@[i as int]);
                if s@.subrange(s@.len() - suffix@.len(), s@.len() as int) == suffix@ {
                    assert(s@.subrange(s@.len() - suffix@.len(), s@.len() as int)[i as int]
                        == suffix@[i as int]);
                }
            }
            return false;
        }
        i = i + 1;
    }
    proof {
        assert(s@.subrange(s@.len() - suffix@.len(), s@.len() as int) =~= suffix@);
    }
    true
}

/// The controller's working directory, from the designated environment
/// value when one is set, else from the process's current directory; a
/// directory that is itself the runtime's build directory is traded for
/// its parent, so both processes settle on the project's root.
pub fn project_root_from(env_root: Option<String>, cwd: String) -> (r: String)
    ensures
        r@ == (match env_root {
            Some(e) => e@,
            None => {
                if cwd@ == ("/src-tauri")@ {
                    ("/")@
                } else if cwd@ == ("src-tauri")@ {
                    Seq::<char>::empty()
                } else if cwd@.len() >= 10 && cwd@.subrange(
                    cwd@.len() - 10,
                    cwd@.len() as int,
                ) == ("/src-tauri")@ {
                    cwd@.take(cwd@.len() - 10)
                } else {
                    cwd@
                }
            },
        }),
{
    match env_root {
        Some(e) => e,
        None => {
            if crate::json::str_eq(cwd.as_str(), "/src-tauri") {
                return "/".to_owned();
            }
            if crate::json::str_eq(cwd.as_str(), "src-tauri") {
                return String::new();
            }
            proof {
                reveal_strlit("/src-tauri");
            }
            if ends_with_chars(cwd.as_str(), "/src-tauri") {
                let n = cwd.as_str().unicode_len();
                let parent = cwd.as_str().substring_char(0, n - 10);
                proof {
                    assert(parent@ =~= cwd@.take(cwd@.len() - 10));
                }
                return parent.to_owned();
            }
            cwd
        },
    }
}

} // verus!
