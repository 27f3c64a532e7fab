//! Medium kinds (CD, vinyl, ...) and the keys under which media are filed.
use vstd::prelude::*;

use crate::text::{decimal, lemma_decimal_injective, push_decimal};

verus! {

/// Whether `kind` is one of the medium kinds of the catalogue schema.
pub open spec fn is_medium_kind(kind: int) -> bool {
    0 <= kind <= 4
}

/// The label of a medium kind: 0 is a CD, 1 a DVD, 2 a Blu-ray disc,
/// 3 a digital release and 4 a vinyl record.
pub open spec fn medium_label(kind: int) -> Seq<char> {
    if kind == 0 {
        "cd"@
    } else if kind == 1 {
        "dvd"@
    } else if kind == 2 {
        "blu-ray"@
    } else if kind == 3 {
        "digital"@
    } else {
        "vinyl"@
    }
}

/// Returns the label of a medium kind.
pub fn medium_kind_to_label(kind: i32) -> (label: &'static str)
    requires
        is_medium_kind(kind as int),
    ensures
        label@ == medium_label(kind as int),
        kind == 0 ==> label@ == "cd"@,
        kind == 1 ==> label@ == "dvd"@,
        kind == 2 ==> label@ == "blu-ray"@,
        kind == 3 ==> label@ == "digital"@,
        kind == 4 ==> label@ == "vinyl"@,
{
    match kind {
        0 => "cd",
        1 => "dvd",
        2 => "blu-ray",
        3 => "digital",
        _ => "vinyl",
    }
}

/// The key under which a medium of a release is filed:
/// `<album id>/<disambiguation>/<kind label><position>`.
pub open spec fn spec_medium_id(
    album_id: Seq<char>,
    disambiguation: Seq<char>,
    kind: int,
    position: int,
) -> Seq<char> {
    album_id + "/"@ + disambiguation + "/"@ + medium_label(kind) + decimal(position)
}

/// Returns the key under which a medium is filed.
pub fn medium_id(album_id: &str, disambiguation: &str, kind: i32, position: i32) -> (id: String)
    requires
        is_medium_kind(kind as int),
    ensures
        id@ == spec_medium_id(album_id@, disambiguation@, kind as int, position as int),
{
    let mut id = album_id.to_owned();
    id.append("/");
    id.append(disambiguation);
    id.append("/");
    id.append(medium_kind_to_label(kind));
    push_decimal(&mut id, position);
    id
}

/// Distinct medium kinds have distinct labels.
pub proof fn lemma_medium_labels_distinct(a: int, b: int)
    requires
        is_medium_kind(a),
        is_medium_kind(b),
        a != b,
    ensures
        medium_label(a) != medium_label(b),
{
    reveal_strlit("cd");
    reveal_strlit("dvd");
    reveal_strlit("blu-ray");
    reveal_strlit("digital");
    reveal_strlit("vinyl");
    assert(medium_label(a).len() != medium_label(b).len() || medium_label(a)[0] != medium_label(b)[0]);
}

/// The first two characters of a label tell the medium kind apart.
proof fn lemma_label_heads(kind: int)
    requires
        is_medium_kind(kind),
    ensures
        medium_label(kind).len() >= 2,
        forall|other: int|
            is_medium_kind(other) && other != kind ==> (medium_label(other)[0] != medium_label(
                kind,
            )[0] || medium_label(other)[1] != medium_label(kind)[1]),
{
    reveal_strlit("cd");
    reveal_strlit("dvd");
    reveal_strlit("blu-ray");
    reveal_strlit("digital");
    reveal_strlit("vinyl");
}

/// Media of one release are filed under distinct keys: two media that differ
/// in kind or in position never share a key.
pub proof fn lemma_medium_ids_distinct(
    album_id: Seq<char>,
    disambiguation: Seq<char>,
    kind1: int,
    position1: int,
    kind2: int,
    position2: int,
)
    requires
        is_medium_kind(kind1),
        is_medium_kind(kind2),
        kind1 != kind2 || position1 != position2,
    ensures
        spec_medium_id(album_id, disambiguation, kind1, position1) != spec_medium_id(
            album_id,
            disambiguation,
            kind2,
            position2,
        ),
{
    let prefix = album_id + "/"@ + disambiguation + "/"@;
    let tail1 = medium_label(kind1) + decimal(position1);
    let tail2 = medium_label(kind2) + decimal(position2);
    let id1 = spec_medium_id(album_id, disambiguation, kind1, position1);
    let id2 = spec_medium_id(album_id, disambiguation, kind2, position2);
    assert(id1 =~= prefix + tail1);
    assert(id2 =~= prefix + tail2);
    if id1 == id2 {
        assert(tail1 =~= id1.subrange(prefix.len() as int, id1.len() as int));
        assert(tail2 =~= id2.subrange(prefix.len() as int, id2.len() as int));
        lemma_label_heads(kind1);
        lemma_label_heads(kind2);
        if kind1 == kind2 {
            let n: int = medium_label(kind1).len() as int;
            assert(decimal(position1) =~= tail1.subrange(n, tail1.len() as int));
            assert(decimal(position2) =~= tail2.subrange(n, tail2.len() as int));
            lemma_decimal_injective(position1, position2);
        } else {
            assert(tail1[0] == medium_label(kind1)[0]);
            assert(tail1[1] == medium_label(kind1)[1]);
            assert(tail2[0] == medium_label(kind2)[0]);
            assert(tail2[1] == medium_label(kind2)[1]);
        }
    }
}

} // verus!
