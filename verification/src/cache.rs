//! Where a key's cache entry lies: the file name of a key, and which keys
//! can have one.

use vstd::prelude::*;

verus! {

/// A character that could lead a file name out of the cache directory: a
/// path separator of either kind, or the character that ends a C string.
pub open spec fn is_path_char(c: char) -> bool {
    c == '/' || c == '\\' || c == '\0'
}

/// A key that can stand in a file name as it is.
pub open spec fn is_safe_key(key: Seq<char>) -> bool {
    forall|i: int| 0 <= i < key.len() ==> !is_path_char(#[trigger] key[i])
}

/// The name of the file that holds the entry for `key`.
pub open spec fn file_name_of(key: Seq<char>) -> Seq<char> {
    key + ".json"@
}

/// The directory that holds the cache where none is configured.
pub open spec fn default_cache_dir() -> Seq<char> {
    "/data"@
}

/// Whether `key` holds no character that could lead out of the cache
/// directory.
pub fn key_is_safe(key: &str) -> (safe: bool)
    ensures
        safe == is_safe_key(key@),
{
    let mut safe = true;
    for c in chars: key.chars()
        invariant
            chars.seq() == key@,
            safe == forall|k: int| 0 <= k < chars.index() ==> !is_path_char(#[trigger] key@[k]),
    {
        if c == '/' || c == '\\' || c == '\0' {
            safe = false;
        }
    }
    safe
}

/// The name of the cache file for `key`: the key as it is, then `.json`. A
/// key that is not safe gets none.
pub fn cache_file_name(key: &str) -> (name: Option<String>)
    ensures
        match name {
            Some(file) => is_safe_key(key@) && file@ == file_name_of(key@),
            None => !is_safe_key(key@),
        },
{
    if key_is_safe(key) {
        Some(String::from_str(key).concat(".json"))
    } else {
        None
    }
}

/// The cache directory: the configured one, or the default.
pub fn get_cache_dir(configured: Option<String>) -> (dir: String)
    ensures
        dir@ == match configured {
            Some(d) => d@,
            None => default_cache_dir(),
        },
{
    match configured {
        Some(d) => d,
        None => String::from_str("/data"),
    }
}

/// Keys are used as they are: two keys that differ anywhere, if only in the
/// case of a letter, name different files.
pub proof fn lemma_file_names_differ(a: Seq<char>, b: Seq<char>)
    requires
        a != b,
    ensures
        file_name_of(a) != file_name_of(b),
{
    let suffix = ".json"@;
    if file_name_of(a) == file_name_of(b) {
        assert((a + suffix).len() == (b + suffix).len());
        assert(a.len() == b.len());
        assert forall|i: int| 0 <= i < a.len() implies a[i] == b[i] by {
            assert((a + suffix)[i] == a[i]);
            assert((b + suffix)[i] == b[i]);
        }
        assert(a =~= b);
    }
}

/// The file name of a safe key holds no path separator, so the file lies
/// directly in the cache directory.
pub proof fn lemma_safe_file_name(key: Seq<char>)
    requires
        is_safe_key(key),
    ensures
        is_safe_key(file_name_of(key)),
{
    reveal_strlit(".json");
    let suffix = ".json"@;
    let name = file_name_of(key);
    assert forall|i: int| 0 <= i < name.len() implies !is_path_char(#[trigger] name[i]) by {
        if i < key.len() {
            assert(name[i] == key[i]);
        } else {
            assert(name[i] == suffix[i - key.len()]);
        }
    }
}

} // verus!
