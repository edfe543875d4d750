//! Import path selection. The set of import paths is closed: names whose
//! extension is one of the recognized structured-scene extensions route to
//! the structured importer, everything else to the generic importer.
//!
//! The routing inspects the file name's bytes. A `.` can only appear in
//! UTF-8 as the single byte 46, so the byte-level extension equals the
//! character-level one.

use vstd::prelude::*;

verus! {

/// Which importer a source is handed to.
#[derive(Clone, Copy, Debug, PartialEq, Eq, Structural)]
pub enum ImportPath {
    /// The structured-scene importer; `binary` distinguishes the packed
    /// form of the format from the textual one.
    Structured { binary: bool },
    /// The generic importer, which handles every other recognized model
    /// format itself.
    Generic,
}

/// A path separator byte: `/` or `\`.
pub open spec fn is_sep(b: u8) -> bool {
    b == 47 || b == 92
}

/// Position `d` holds the extension dot of `name`: a `.` inside the final
/// path component, not the component's first byte (a name that starts with
/// a dot and has no other is extension-less), with nothing but plain bytes
/// after it.
pub open spec fn is_ext_dot(name: Seq<u8>, d: int) -> bool {
    &&& 0 < d < name.len()
    &&& name[d] == 46
    &&& !is_sep(name[d - 1])
    &&& forall|k: int| d < k < name.len() ==> #[trigger] name[k] != 46 && !is_sep(name[k])
}

/// Whether the name has an extension at all.
pub open spec fn spec_has_extension(name: Seq<u8>) -> bool {
    exists|d: int| is_ext_dot(name, d)
}

/// The bytes after the extension dot. Meaningful only when the name has an
/// extension; the dot position is unique, so this is well defined.
pub open spec fn spec_extension(name: Seq<u8>) -> Seq<u8> {
    let d = choose|d: int| is_ext_dot(name, d);
    name.subrange(d + 1, name.len() as int)
}

/// The bytes of the textual structured-scene extension, `gltf`.
pub open spec fn structured_text_ext() -> Seq<u8> {
    seq![103u8, 108u8, 116u8, 102u8]
}

/// The bytes of the packed structured-scene extension, `glb`.
pub open spec fn structured_binary_ext() -> Seq<u8> {
    seq![103u8, 108u8, 98u8]
}

/// Where a name routes: `gltf` to the textual structured importer, `glb` to
/// the packed one, everything else — any other extension or none — to the
/// generic importer.
pub open spec fn spec_route(name: Seq<u8>) -> ImportPath {
    if spec_has_extension(name) && spec_extension(name) == structured_text_ext() {
        ImportPath::Structured { binary: false }
    } else if spec_has_extension(name) && spec_extension(name) == structured_binary_ext() {
        ImportPath::Structured { binary: true }
    } else {
        ImportPath::Generic
    }
}

/// At most one position holds the extension dot.
pub proof fn lemma_ext_dot_unique(name: Seq<u8>, d1: int, d2: int)
    requires
        is_ext_dot(name, d1),
        is_ext_dot(name, d2),
    ensures
        d1 == d2,
{
    if d1 < d2 {
        assert(name[d2] != 46);
    }
    if d2 < d1 {
        assert(name[d1] != 46);
    }
}

/// Selects the import path from a file name or filename hint, by its
/// extension.
pub fn route_import(filename: &[u8]) -> (r: ImportPath)
    ensures
        r == spec_route(filename@),
{
    let n = filename.len();
    let mut j = n;
    loop
        invariant
            j <= n,
            n == filename@.len(),
            forall|k: int| j <= k < n ==> #[trigger] filename@[k] != 46 && !is_sep(filename@[k]),
        decreases j,
    {
        if j == 0 {
            // no dot anywhere: no extension
            proof {
                assert forall|d: int| !is_ext_dot(filename@, d) by {
                    if 0 < d < n {
                        assert(filename@[d] != 46);
                    }
                }
            }
            return ImportPath::Generic;
        }
        let b = filename[j - 1];
        if b == 46 {
            if j - 1 == 0 || is_sep_byte(filename[j - 2]) {
                // the dot opens the final path component: extension-less
                proof {
                    assert forall|d: int| !is_ext_dot(filename@, d) by {
                        if d > j - 1 {
                            assert(0 < d < n ==> filename@[d] != 46);
                        } else if d == j - 1 {
                            assert(!(0 < d) || is_sep(filename@[d - 1]));
                        } else if 0 < d < j - 1 {
                            assert(filename@[j - 1] == 46 && d < j - 1 < n);
                        }
                    }
                }
                return ImportPath::Generic;
            }
            proof {
                assert(is_ext_dot(filename@, j - 1));
                lemma_ext_dot_unique(filename@, j - 1, choose|d: int| is_ext_dot(filename@, d));
            }
            // `gltf`: g l t f; `glb`: g l b
            if n - j == 4 && filename[j] == 103 && filename[j + 1] == 108 && filename[j + 2] == 116
                && filename[j + 3] == 102 {
                proof {
                    assert(spec_extension(filename@) =~= structured_text_ext());
                }
                return ImportPath::Structured { binary: false };
            } else if n - j == 3 && filename[j] == 103 && filename[j + 1] == 108 && filename[j + 2]
                == 98 {
                proof {
                    assert(spec_extension(filename@) =~= structured_binary_ext());
                }
                return ImportPath::Structured { binary: true };
            } else {
                proof {
                    lemma_other_extension(filename@, j as int);
                }
                return ImportPath::Generic;
            }
        } else if b == 47 || b == 92 {
            // a separator before any dot: the final component has no dot
            proof {
                assert forall|d: int| !is_ext_dot(filename@, d) by {
                    if d >= j {
                        assert(0 < d < n ==> filename@[d] != 46);
                    } else if 0 < d < j {
                        assert(is_sep(filename@[j - 1]));
                        if d < j - 1 {
                            assert(d < j - 1 < n);
                        }
                    }
                }
            }
            return ImportPath::Generic;
        }
        j = j - 1;
    }
}

/// An extension whose bytes differ from both structured-scene extensions
/// routes to the generic importer.
proof fn lemma_other_extension(name: Seq<u8>, start: int)
    requires
        is_ext_dot(name, start - 1),
        !(name.len() - start == 4 && name[start] == 103 && name[start + 1] == 108
            && name[start + 2] == 116 && name[start + 3] == 102),
        !(name.len() - start == 3 && name[start] == 103 && name[start + 1] == 108
            && name[start + 2] == 98),
    ensures
        spec_route(name) == ImportPath::Generic,
{
    let d = choose|d: int| is_ext_dot(name, d);
    lemma_ext_dot_unique(name, start - 1, d);
    if spec_extension(name) == structured_text_ext() {
        assert(name.subrange(start, name.len() as int).len() == 4);
        assert(name[start] == structured_text_ext()[0]);
        assert(name[start + 1] == structured_text_ext()[1]);
        assert(name[start + 2] == structured_text_ext()[2]);
        assert(name[start + 3] == structured_text_ext()[3]);
    }
    if spec_extension(name) == structured_binary_ext() {
        assert(name.subrange(start, name.len() as int).len() == 3);
        assert(name[start] == structured_binary_ext()[0]);
        assert(name[start + 1] == structured_binary_ext()[1]);
        assert(name[start + 2] == structured_binary_ext()[2]);
    }
}

/// Whether a byte is a path separator.
fn is_sep_byte(b: u8) -> (r: bool)
    ensures
        r == is_sep(b),
{
    b == 47 || b == 92
}

} // verus!
