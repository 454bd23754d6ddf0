//! The filesystem domain adapter's resolution logic: its vertex union, its
//! one starting edge (does the path exist), and its property table. The
//! content digest is computed on demand from the file's bytes; reading those
//! bytes, like every other filesystem access, happens outside this crate and
//! the results are handed in.

use vstd::prelude::*;
use crate::text::{last_index_of, str_eq};
use crate::value::{Value, ValueModel};

verus! {

/// A vertex of the filesystem domain: a file, a folder, or a path not yet
/// classified, each carrying its path.
pub enum FsVertex {
    File(String),
    Folder(String),
    Path(String),
}

/// Mathematical model of an [`FsVertex`].
pub enum FsVertexModel {
    File(Seq<char>),
    Folder(Seq<char>),
    Path(Seq<char>),
}

impl DeepView for FsVertex {
    type V = FsVertexModel;

    open spec fn deep_view(&self) -> FsVertexModel {
        match self {
            FsVertex::File(p) => FsVertexModel::File(p@),
            FsVertex::Folder(p) => FsVertexModel::Folder(p@),
            FsVertex::Path(p) => FsVertexModel::Path(p@),
        }
    }
}

/// What a file's bytes digest to: the SHA-256 of the bytes as 64 lowercase
/// hexadecimal characters. The digest is a function of the bytes alone.
pub uninterp spec fn sha256_hex(bytes: Seq<u8>) -> Seq<char>;

/// Relies on `sha256::digest`: the SHA-256 digest of the input bytes,
/// rendered as 64 hexadecimal characters.
#[verifier::external_body]
fn sha256_digest(bytes: &Vec<u8>) -> (r: String)
    ensures
        r@ == sha256_hex(bytes@),
        r@.len() == 64,
{
    sha256::digest(bytes)
}

/// The data of one file, read outside this crate when a property asks for
/// it: its bytes and its size in bytes.
pub struct FileData {
    pub bytes: Vec<u8>,
    pub size: u64,
}

/// The name after the last path separator.
pub open spec fn file_name_of(path: Seq<char>) -> Seq<char> {
    match last_index_of(path, '/') {
        None => path,
        Some(i) => path.skip(i + 1),
    }
}

/// The extension of a path: what follows the last dot of its file name,
/// none when the file name has no dot or only a leading one.
pub open spec fn extension_of(path: Seq<char>) -> Option<Seq<char>> {
    let name = file_name_of(path);
    match last_index_of(name, '.') {
        None => None,
        Some(i) => if i == 0 {
            None
        } else {
            Some(name.skip(i + 1))
        },
    }
}

/// The extension of a path string.
pub fn extension(path: &str) -> (r: Option<String>)
    ensures
        r.deep_view() == extension_of(path@),
{
    proof {
        crate::text::lemma_last_index_of(path@, '/');
    }
    let name = match crate::text::find_last(path, '/') {
        None => path.to_owned(),
        Some(i) => {
            let len = path.unicode_len();
            path.substring_char(i + 1, len).to_owned()
        },
    };
    proof {
        assert(name@ == file_name_of(path@));
        crate::text::lemma_last_index_of(name@, '.');
    }
    match crate::text::find_last(name.as_str(), '.') {
        None => None,
        Some(i) => {
            if i == 0 {
                None
            } else {
                let len = name.as_str().unicode_len();
                let ext = name.as_str().substring_char(i + 1, len).to_owned();
                proof {
                    assert(ext@ =~= file_name_of(path@).skip(i + 1));
                }
                Some(ext)
            }
        },
    }
}

/// The starting edge of the filesystem domain: a path lookup. The host
/// checked whether the path exists; an existing path is the one starting
/// vertex, a missing one yields none.
pub fn path(looked_up: &str, path_exists: bool) -> (vertices: Vec<FsVertex>)
    ensures
        path_exists ==> vertices.deep_view() =~= seq![FsVertexModel::Path(looked_up@)],
        !path_exists ==> vertices.deep_view() =~= Seq::<FsVertexModel>::empty(),
{
    let mut vertices: Vec<FsVertex> = Vec::new();
    if path_exists {
        vertices.push(FsVertex::Path(looked_up.to_owned()));
    }
    vertices
}

/// The value of one property of a file vertex.
pub open spec fn file_property_spec(
    path: Seq<char>,
    property: Seq<char>,
    bytes: Seq<u8>,
    size: u64,
) -> ValueModel {
    if property == "Hash"@ {
        ValueModel::Str(sha256_hex(bytes))
    } else if property == "extension"@ {
        ValueModel::Str(extension_of(path).unwrap())
    } else if property == "path"@ {
        ValueModel::Str(path)
    } else {
        ValueModel::Uint64(size)
    }
}

/// Resolve one property of a file vertex. The oracle only asks for
/// schema-declared properties of the right vertex kind, and only for the
/// extension of a path that has one; the file's bytes and size were read on
/// demand and are handed in.
pub fn resolve_file_property(vertex: &FsVertex, property_name: &str, data: &FileData) -> (v: Value)
    requires
        property_name@ == "Hash"@ || property_name@ == "extension"@ || property_name@ == "path"@
            || property_name@ == "size"@,
        vertex is File,
        property_name@ == "extension"@ ==> extension_of(vertex->File_0@) is Some,
    ensures
        v.deep_view() == file_property_spec(
            vertex->File_0@,
            property_name@,
            data.bytes@,
            data.size,
        ),
{
    if str_eq(property_name, "Hash") {
        Value::Str(sha256_digest(&data.bytes))
    } else if str_eq(property_name, "extension") {
        let path = match vertex {
            FsVertex::File(p) => p,
            _ => {
                proof {
                    assert(false);
                }
                return Value::Null;
            },
        };
        match extension(path.as_str()) {
            Some(ext) => Value::Str(ext),
            None => {
                proof {
                    assert(false);
                }
                Value::Null
            },
        }
    } else if str_eq(property_name, "path") {
        let path = match vertex {
            FsVertex::File(p) => p,
            _ => {
                proof {
                    assert(false);
                }
                return Value::Null;
            },
        };
        Value::Str(path.clone())
    } else {
        Value::Uint64(data.size)
    }
}

/// The value of the one property of a folder or bare-path vertex.
pub open spec fn path_only_property_spec(path: Seq<char>) -> ValueModel {
    ValueModel::Str(path)
}

/// Resolve one property of a folder vertex; the schema declares only its
/// path.
pub fn resolve_folder_property(vertex: &FsVertex, property_name: &str) -> (v: Value)
    requires
        property_name@ == "path"@,
        vertex is Folder,
    ensures
        v.deep_view() == path_only_property_spec(vertex->Folder_0@),
{
    match vertex {
        FsVertex::Folder(p) => Value::Str(p.clone()),
        _ => {
            proof {
                assert(false);
            }
            Value::Null
        },
    }
}

/// Resolve one property of a bare-path vertex; the schema declares only its
/// path.
pub fn resolve_path_property(vertex: &FsVertex, property_name: &str) -> (v: Value)
    requires
        property_name@ == "path"@,
        vertex is Path,
    ensures
        v.deep_view() == path_only_property_spec(vertex->Path_0@),
{
    match vertex {
        FsVertex::Path(p) => Value::Str(p.clone()),
        _ => {
            proof {
                assert(false);
            }
            Value::Null
        },
    }
}

} // verus!
