use lp::paths::{
    albums_prefix, artist_kinds, artists_prefix, checked_entry_id, entry_id, songs_prefix,
    toml_pattern, tracklists_pattern, TOML_SUFFIX,
};

#[test]
fn artist_kinds_in_import_order() {
    assert_eq!(artist_kinds(), vec!["people", "groups"]);
}

#[test]
fn directory_prefixes_and_patterns() {
    assert_eq!(artists_prefix("data", "people"), "data/artists/people/");
    assert_eq!(albums_prefix("data"), "data/albums/");
    assert_eq!(songs_prefix("/srv/lp"), "/srv/lp/songs/");
    assert_eq!(toml_pattern("data/albums/", TOML_SUFFIX), "data/albums/**/*.toml");
    assert_eq!(tracklists_pattern("data"), "data/tracklists/**/*.toml");
}

#[test]
fn entry_id_cuts_directory_and_extension() {
    let prefix = artists_prefix("data", "people");
    let path = "data/artists/people/nujabes.toml";
    assert_eq!(entry_id(path, prefix.len(), TOML_SUFFIX.len()), "nujabes");
    let path = "data/albums/nujabes/modal-soul.toml";
    assert_eq!(entry_id(path, albums_prefix("data").len(), TOML_SUFFIX.len()), "nujabes/modal-soul");
}

#[test]
fn entry_id_of_a_directory_path() {
    let start = songs_prefix("data").len();
    assert_eq!(entry_id("data/songs/fat-jon", start, 0), "fat-jon");
}

#[test]
fn entry_id_reads_back_a_joined_path() {
    for id in ["x", "ünïcödé/名前", "", "a/b/c"] {
        let prefix = "lib/songs/";
        let path = format!("{}{}{}", prefix, id, TOML_SUFFIX);
        assert_eq!(entry_id(&path, prefix.len(), TOML_SUFFIX.len()), id);
    }
}

#[test]
fn checked_entry_id_refuses_what_slicing_refuses() {
    assert_eq!(checked_entry_id("ab.toml", 0, 5), Some("ab"));
    assert_eq!(checked_entry_id("ab.toml", 3, 5), None);
    assert_eq!(checked_entry_id(".toml", 0, 6), None);
    // "é" takes two bytes: index 1 is inside it.
    assert_eq!(checked_entry_id("é.toml", 1, 5), None);
    assert_eq!(checked_entry_id("é.toml", 0, 5), Some("é"));
    assert_eq!(checked_entry_id("xé", 0, 1), None);
}
