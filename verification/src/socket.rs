//! Names of socket files.

use crate::ids;
use crate::text;
use vstd::prelude::*;

verus! {

/// The name of the socket file with the given identifier.
pub open spec fn socket_name(id: Seq<char>) -> Seq<char> {
    id + ".sock"@
}

/// The name of the socket file with the given identifier.
pub fn file_name_of(id: &str) -> (r: String)
    ensures
        r@ == socket_name(id@),
{
    text::join(id, ".sock")
}

/// A random name for a new socket file.
pub fn unique_file_name() -> (r: String)
    ensures
        exists|id: Seq<char>| #[trigger] ids::is_random_id(id) && r@ == socket_name(id),
{
    let id = ids::random_uuid();
    assert(ids::is_random_id(id@));
    file_name_of(id.as_str())
}

/// Two identifiers name two files, and the name of a file ends as socket files do.
pub proof fn law_identifiers_name_files(a: Seq<char>, b: Seq<char>)
    ensures
        socket_name(a) == a + ".sock"@,
        socket_name(a) == socket_name(b) ==> a == b,
{
    if socket_name(a) == socket_name(b) {
        assert(socket_name(a).len() == a.len() + ".sock"@.len());
        assert(socket_name(b).len() == b.len() + ".sock"@.len());
        assert(a =~= socket_name(a).take(a.len() as int));
        assert(b =~= socket_name(b).take(b.len() as int));
    }
}

} // verus!
