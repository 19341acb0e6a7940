//! Where the control socket lives: a fixed file name inside the runtime
//! directory that the environment names.

use vstd::prelude::*;

verus! {

/// The environment variable that names the runtime directory.
pub const RUNTIME_DIR_KEY: &'static str = "XDG_RUNTIME_DIR";

/// The file name of the control socket.
pub const SOCKET_NAME: &'static str = "wallswitcher.sock";

/// The path of the socket for a runtime directory: the directory, a slash
/// unless the directory is empty or already ends in one, and the file name.
pub open spec fn socket_path(runtime_dir: Seq<char>) -> Seq<char> {
    if runtime_dir.len() == 0 || runtime_dir.last() == '/' {
        runtime_dir + SOCKET_NAME@
    } else {
        runtime_dir.push('/') + SOCKET_NAME@
    }
}

/// The path that the daemon binds and the client connects to, for the
/// runtime directory given.
pub fn socket_location(runtime_dir: &str) -> (path: String)
    ensures
        path@ == socket_path(runtime_dir@),
{
    let length = runtime_dir.unicode_len();
    let mut path = runtime_dir.to_owned();
    if length > 0 && runtime_dir.get_char(length - 1) != '/' {
        proof {
            reveal_strlit("/");
        }
        path.append("/");
        assert(path@ =~= runtime_dir@.push('/'));
    }
    path.append(SOCKET_NAME);
    path
}

} // verus!
