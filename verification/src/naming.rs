//! The names of the files and columns of a session.

use vstd::prelude::*;
use vstd::string::StringExecFns;
use crate::backend::Backend;

verus! {

/// The word that says in a file name whether proofs were compressed.
pub open spec fn spec_compression_label(compressed: bool) -> Seq<char> {
    if compressed {
        "with"@
    } else {
        "without"@
    }
}

/// The word that says in a file name whether proofs were compressed.
pub fn compression_label(compressed: bool) -> (label: &'static str)
    ensures
        label@ == spec_compression_label(compressed),
{
    if compressed {
        "with"
    } else {
        "without"
    }
}

/// The path of the report of a session: `prefix`, then the guest, the backend
/// and the compression label joined by underscores, then
/// `_compressing.csv`. The prefix is the directory with its separator, and
/// whatever else is to stand before the guest's name.
pub open spec fn spec_sink_path(
    prefix: Seq<char>,
    guest: Seq<char>,
    backend: Backend,
    compressed: bool,
) -> Seq<char> {
    prefix + guest + "_"@ + backend.spec_label() + "_"@ + spec_compression_label(compressed)
        + "_compressing.csv"@
}

/// The path of the report of a session.
pub fn sink_path(prefix: &str, guest: &str, backend: Backend, compressed: bool) -> (path: String)
    ensures
        path@ == spec_sink_path(prefix@, guest@, backend, compressed),
{
    let mut path = String::from_str(prefix);
    path.append(guest);
    path.append("_");
    path.append(backend.label());
    path.append("_");
    path.append(compression_label(compressed));
    path.append("_compressing.csv");
    path
}

/// What follows the guest's name in the path of a report.
pub open spec fn spec_sink_suffix(backend: Backend, compressed: bool) -> Seq<char> {
    "_"@ + backend.spec_label() + "_"@ + spec_compression_label(compressed) + "_compressing.csv"@
}

/// The length of what follows the guest's name.
pub open spec fn sink_suffix_len(backend: Backend, compressed: bool) -> int {
    17 + (if backend == Backend::FoldingWasm {
        8int
    } else {
        7int
    }) + (if compressed {
        4int
    } else {
        7int
    })
}

/// What is known of the text that follows the guest's name: its length, that
/// it begins with an underscore, and that none of the next four characters is
/// one.
proof fn lemma_sink_suffix(backend: Backend, compressed: bool, d: int)
    requires
        1 <= d <= 4,
    ensures
        spec_sink_suffix(backend, compressed).len() == sink_suffix_len(backend, compressed),
        spec_sink_suffix(backend, compressed)[0] == '_',
        spec_sink_suffix(backend, compressed)[d] != '_',
{
    reveal_strlit("_");
    reveal_strlit("novanet");
    reveal_strlit("openvm");
    reveal_strlit("with");
    reveal_strlit("without");
    reveal_strlit("_compressing.csv");
    let suffix = spec_sink_suffix(backend, compressed);
    let label = backend.spec_label();
    assert(label.len() >= 6);
    assert(suffix[d] == label[d - 1]);
}

/// A path is what stands before the backend's name, and then what follows
/// the guest's name.
proof fn lemma_sink_path_splits(
    prefix: Seq<char>,
    guest: Seq<char>,
    backend: Backend,
    compressed: bool,
)
    ensures
        spec_sink_path(prefix, guest, backend, compressed) == (prefix + guest) + spec_sink_suffix(
            backend,
            compressed,
        ),
{
    assert(spec_sink_path(prefix, guest, backend, compressed) =~= (prefix + guest)
        + spec_sink_suffix(backend, compressed));
}

/// Two texts that end in different suffixes of the kind that follows a
/// guest's name are different texts.
proof fn lemma_suffixes_tell_apart(
    head: Seq<char>,
    suffix: Seq<char>,
    other_head: Seq<char>,
    other_suffix: Seq<char>,
)
    requires
        1 <= suffix.len() - other_suffix.len() <= 4,
        other_suffix.len() > 0,
        other_suffix[0] == '_',
        suffix[suffix.len() - other_suffix.len()] != '_',
    ensures
        head + suffix != other_head + other_suffix,
{
    let gap = suffix.len() - other_suffix.len();
    let whole = head + suffix;
    let other_whole = other_head + other_suffix;
    if whole.len() == other_whole.len() {
        let at = other_head.len() as int;
        assert(at == head.len() + gap);
        assert(other_whole[at] == other_suffix[0]);
        assert(whole[at] == suffix[gap]);
    }
}

/// One file for each session: sessions that differ in the guest, in the
/// backend or in whether they compress have reports at different paths, for
/// any one prefix.
pub proof fn lemma_sink_paths_differ(
    prefix: Seq<char>,
    guest: Seq<char>,
    backend: Backend,
    compressed: bool,
    other_guest: Seq<char>,
    other_backend: Backend,
    other_compressed: bool,
)
    requires
        spec_sink_path(prefix, guest, backend, compressed) == spec_sink_path(
            prefix,
            other_guest,
            other_backend,
            other_compressed,
        ),
    ensures
        guest == other_guest,
        backend == other_backend,
        compressed == other_compressed,
{
    let suffix = spec_sink_suffix(backend, compressed);
    let other_suffix = spec_sink_suffix(other_backend, other_compressed);
    lemma_sink_path_splits(prefix, guest, backend, compressed);
    lemma_sink_path_splits(prefix, other_guest, other_backend, other_compressed);
    let gap = sink_suffix_len(backend, compressed) - sink_suffix_len(
        other_backend,
        other_compressed,
    );
    if gap > 0 {
        lemma_sink_suffix(backend, compressed, gap);
        lemma_sink_suffix(other_backend, other_compressed, 1);
        lemma_suffixes_tell_apart(prefix + guest, suffix, prefix + other_guest, other_suffix);
    } else if gap < 0 {
        lemma_sink_suffix(other_backend, other_compressed, -gap);
        lemma_sink_suffix(backend, compressed, 1);
        lemma_suffixes_tell_apart(prefix + other_guest, other_suffix, prefix + guest, suffix);
    } else {
        lemma_sink_suffix(backend, compressed, 1);
        lemma_sink_suffix(other_backend, other_compressed, 1);
        let head = prefix + guest;
        let other_head = prefix + other_guest;
        assert(head.len() == other_head.len()) by {
            assert((head + suffix).len() == (other_head + other_suffix).len());
        }
        assert forall|i: int| 0 <= i < guest.len() implies guest[i] == other_guest[i] by {
            assert((head + suffix)[prefix.len() + i] == guest[i]);
            assert((other_head + other_suffix)[prefix.len() + i] == other_guest[i]);
        }
        assert(guest =~= other_guest);
    }
}

/// The name of the parameter column of a guest's report: the guest's name and
/// `_arg`.
pub open spec fn spec_parameter_column(guest: Seq<char>) -> Seq<char> {
    guest + "_arg"@
}

/// The name of the parameter column of a guest's report.
pub fn parameter_column(guest: &str) -> (column: String)
    ensures
        column@ == spec_parameter_column(guest@),
{
    let mut column = String::from_str(guest);
    column.append("_arg");
    column
}

/// The path of a guest's artifact under the build output root `root`: the
/// release directory of the WebAssembly target, the guest's name, a dot and
/// the extension.
pub open spec fn spec_artifact_path(
    root: Seq<char>,
    guest: Seq<char>,
    extension: Seq<char>,
) -> Seq<char> {
    root + "/wasm32-unknown-unknown/release/"@ + guest + "."@ + extension
}

/// The path of a guest's artifact under the build output root `root`.
pub fn artifact_path(root: &str, guest: &str, extension: &str) -> (path: String)
    ensures
        path@ == spec_artifact_path(root@, guest@, extension@),
{
    let mut path = String::from_str(root);
    path.append("/wasm32-unknown-unknown/release/");
    path.append(guest);
    path.append(".");
    path.append(extension);
    path
}

} // verus!
