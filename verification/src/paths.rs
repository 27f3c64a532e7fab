//! The layout of the catalogue directory: where each kind of record lives,
//! the glob patterns that find them, and how a record's identifier is read
//! off its file path.
use vstd::prelude::*;
use vstd::string::StringSliceAdditionalSpecFns;
use vstd::utf8::*;

verus! {

/// The extension of catalogue record files.
pub const TOML_SUFFIX: &'static str = ".toml";

/// The subdirectory of `artists/` that holds people.
pub const ARTIST_KIND_PEOPLE: &'static str = "people";

/// The subdirectory of `artists/` that holds groups.
pub const ARTIST_KIND_GROUPS: &'static str = "groups";

/// The kinds of artists, in the order in which they are imported.
pub fn artist_kinds() -> (kinds: Vec<&'static str>)
    ensures
        kinds@.len() == 2,
        kinds@[0]@ == ARTIST_KIND_PEOPLE@,
        kinds@[1]@ == ARTIST_KIND_GROUPS@,
{
    vec![ARTIST_KIND_PEOPLE, ARTIST_KIND_GROUPS]
}

/// The directory that holds the artists of one kind.
pub fn artists_prefix(pathname: &str, kind: &str) -> (prefix: String)
    ensures
        prefix@ == pathname@ + "/artists/"@ + kind@ + "/"@,
{
    let mut prefix = pathname.to_owned();
    prefix.append("/artists/");
    prefix.append(kind);
    prefix.append("/");
    prefix
}

/// The directory that holds the albums.
pub fn albums_prefix(pathname: &str) -> (prefix: String)
    ensures
        prefix@ == pathname@ + "/albums/"@,
{
    let mut prefix = pathname.to_owned();
    prefix.append("/albums/");
    prefix
}

/// The directory that holds the songs, one subdirectory per artist.
pub fn songs_prefix(pathname: &str) -> (prefix: String)
    ensures
        prefix@ == pathname@ + "/songs/"@,
{
    let mut prefix = pathname.to_owned();
    prefix.append("/songs/");
    prefix
}

/// The glob pattern for every file below `prefix`, at any depth, whose name
/// ends in `suffix`.
pub fn toml_pattern(prefix: &str, suffix: &str) -> (pattern: String)
    ensures
        pattern@ == prefix@ + "**/*"@ + suffix@,
{
    let mut pattern = prefix.to_owned();
    pattern.append("**/*");
    pattern.append(suffix);
    pattern
}

/// The glob pattern for the track list files.
pub fn tracklists_pattern(pathname: &str) -> (pattern: String)
    ensures
        pattern@ == pathname@ + "/tracklists/**/*.toml"@,
{
    let mut pattern = pathname.to_owned();
    pattern.append("/tracklists/**/*.toml");
    pattern
}

/// Whether the bytes `start .. path.len() - suffix_len` of a UTF-8 encoded
/// path form a string slice: the range is in order and both of its ends fall
/// on character boundaries.
pub open spec fn entry_id_defined(path: Seq<u8>, start: int, suffix_len: int) -> bool {
    &&& 0 <= suffix_len <= path.len()
    &&& 0 <= start <= path.len() - suffix_len
    &&& is_char_boundary(path, start)
    &&& is_char_boundary(path, path.len() - suffix_len)
}

/// The characters of the bytes `start .. path.len() - suffix_len` of a UTF-8
/// encoded path.
pub open spec fn spec_entry_id(path: Seq<u8>, start: int, suffix_len: int) -> Seq<char> {
    decode_utf8(path.subrange(start, path.len() - suffix_len))
}

/// A character boundary of a byte sequence that lies before a cut is also a
/// boundary of the part before the cut.
proof fn lemma_boundary_of_prefix(bytes: Seq<u8>, start: int, end: int)
    requires
        valid_utf8(bytes),
        0 <= start <= end <= bytes.len(),
        is_char_boundary(bytes, start),
        is_char_boundary(bytes, end),
    ensures
        valid_utf8(bytes.subrange(0, end)),
        is_char_boundary(bytes.subrange(0, end), start),
{
    let head = bytes.subrange(0, end);
    valid_utf8_split(bytes, end);
    if start == end {
        is_char_boundary_start_end_of_seq(head);
    } else {
        is_char_boundary_iff_not_is_continuation_byte(bytes, start);
        is_char_boundary_iff_not_is_continuation_byte(head, start);
    }
}

/// The identifier of a catalogue record: its path with the first `start`
/// bytes (the directory that was searched) and the last `suffix_len` bytes
/// (the extension) cut off.
pub fn entry_id(path: &str, start: usize, suffix_len: usize) -> (id: &str)
    requires
        path.spec_bytes().len() <= usize::MAX,
        entry_id_defined(path.spec_bytes(), start as int, suffix_len as int),
    ensures
        id.spec_bytes() == path.spec_bytes().subrange(
            start as int,
            path.spec_bytes().len() - suffix_len,
        ),
        id@ == spec_entry_id(path.spec_bytes(), start as int, suffix_len as int),
{
    let end: usize = path.len() - suffix_len;
    proof {
        encode_utf8_valid_utf8(path@);
        lemma_boundary_of_prefix(path.spec_bytes(), start as int, end as int);
    }
    let (head, _) = path.split_at(end);
    let (_, id) = head.split_at(start);
    proof {
        encode_utf8_decode_utf8(id@);
        assert(id.spec_bytes() =~= path.spec_bytes().subrange(start as int, end as int));
    }
    id
}

/// [`entry_id`] where the byte range is a string slice, and `None` where it
/// is not (where slicing the path would panic).
pub fn checked_entry_id(path: &str, start: usize, suffix_len: usize) -> (id: Option<&str>)
    requires
        path.spec_bytes().len() <= usize::MAX,
    ensures
        id is Some <==> entry_id_defined(path.spec_bytes(), start as int, suffix_len as int),
        id matches Some(id) ==> id.spec_bytes() == path.spec_bytes().subrange(
            start as int,
            path.spec_bytes().len() - suffix_len,
        ) && id@ == spec_entry_id(path.spec_bytes(), start as int, suffix_len as int),
{
    let len: usize = path.len();
    if suffix_len > len {
        return None;
    }
    let end: usize = len - suffix_len;
    if start > end || !path.is_char_boundary(start) || !path.is_char_boundary(end) {
        return None;
    }
    Some(entry_id(path, start, suffix_len))
}

/// The UTF-8 encoding of a concatenation is the concatenation of the encodings.
pub proof fn lemma_encode_utf8_add(a: Seq<char>, b: Seq<char>)
    ensures
        encode_utf8(a + b) == encode_utf8(a) + encode_utf8(b),
    decreases a.len(),
{
    if a.len() == 0 {
        assert(a + b =~= b);
        assert(encode_utf8(a) + encode_utf8(b) =~= encode_utf8(b));
    } else {
        lemma_encode_utf8_add(a.drop_first(), b);
        assert((a + b).drop_first() =~= a.drop_first() + b);
        assert((a + b)[0] == a[0]);
        assert(encode_utf8(a + b) =~= encode_utf8(a) + encode_utf8(b));
    }
}

/// The point where two valid UTF-8 sequences are joined is a character
/// boundary of the joined sequence.
proof fn lemma_boundary_at_join(a: Seq<u8>, b: Seq<u8>)
    requires
        valid_utf8(a),
        valid_utf8(b),
    ensures
        valid_utf8(a + b),
        is_char_boundary(a + b, a.len() as int),
{
    valid_utf8_concat(a, b);
    if b.len() == 0 {
        assert(a + b =~= a);
        is_char_boundary_start_end_of_seq(a);
    } else {
        is_char_boundary_iff_not_is_continuation_byte(b, 0);
        is_char_boundary_iff_not_is_continuation_byte(a + b, a.len() as int);
        assert((a + b)[a.len() as int] == b[0]);
    }
}

/// A record filed at `prefix`, then its identifier, then `suffix` has that
/// identifier read back by [`entry_id`] when it is given the byte lengths of
/// `prefix` and `suffix`.
pub proof fn lemma_entry_id_of_record_path(prefix: Seq<char>, id: Seq<char>, suffix: Seq<char>)
    ensures
        entry_id_defined(
            encode_utf8(prefix + id + suffix),
            encode_utf8(prefix).len() as int,
            encode_utf8(suffix).len() as int,
        ),
        spec_entry_id(
            encode_utf8(prefix + id + suffix),
            encode_utf8(prefix).len() as int,
            encode_utf8(suffix).len() as int,
        ) == id,
{
    let p = encode_utf8(prefix);
    let i = encode_utf8(id);
    let s = encode_utf8(suffix);
    lemma_encode_utf8_add(prefix + id, suffix);
    lemma_encode_utf8_add(prefix, id);
    let path = encode_utf8(prefix + id + suffix);
    assert(path == p + i + s);
    encode_utf8_valid_utf8(prefix);
    encode_utf8_valid_utf8(id);
    encode_utf8_valid_utf8(suffix);
    encode_utf8_valid_utf8(id + suffix);
    lemma_encode_utf8_add(id, suffix);
    lemma_boundary_at_join(p, i + s);
    assert(p + (i + s) =~= path);
    valid_utf8_concat(p, i);
    lemma_boundary_at_join(p + i, s);
    assert(path.subrange(p.len() as int, path.len() - s.len()) =~= i);
    encode_utf8_decode_utf8(id);
}

} // verus!
