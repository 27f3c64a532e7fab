use lp::media::{medium_id, medium_kind_to_label};

#[test]
fn labels_of_every_medium_kind() {
    assert_eq!(medium_kind_to_label(0), "cd");
    assert_eq!(medium_kind_to_label(1), "dvd");
    assert_eq!(medium_kind_to_label(2), "blu-ray");
    assert_eq!(medium_kind_to_label(3), "digital");
    assert_eq!(medium_kind_to_label(4), "vinyl");
}

#[test]
fn medium_id_joins_album_disambiguation_kind_and_position() {
    assert_eq!(medium_id("nujabes/metaphorical-music", "default", 0, 1), "nujabes/metaphorical-music/default/cd1");
    assert_eq!(medium_id("a", "jp", 4, 2), "a/jp/vinyl2");
    assert_eq!(medium_id("a", "d", 2, 10), "a/d/blu-ray10");
}

#[test]
fn medium_id_renders_positions_in_decimal() {
    assert_eq!(medium_id("a", "d", 3, 0), "a/d/digital0");
    assert_eq!(medium_id("a", "d", 3, 907), "a/d/digital907");
    assert_eq!(medium_id("a", "d", 3, -7), "a/d/digital-7");
    assert_eq!(medium_id("a", "d", 1, i32::MAX), "a/d/dvd2147483647");
    assert_eq!(medium_id("a", "d", 1, i32::MIN), "a/d/dvd-2147483648");
}

#[test]
fn media_of_one_release_get_distinct_ids() {
    let mut ids = Vec::new();
    for kind in 0..5 {
        for position in [1, 2, 11, 12, 21] {
            ids.push(medium_id("album", "default", kind, position));
        }
    }
    let mut sorted = ids.clone();
    sorted.sort();
    sorted.dedup();
    assert_eq!(sorted.len(), ids.len());
}
