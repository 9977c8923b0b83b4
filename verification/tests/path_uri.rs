use rust_lsp_mcp::path::{
    path_components, PathComponent, file_uri_from_path, from_hex_digit, normalize_path, percent_decode_path, percent_encode,
    uri_to_path, workspace_folder_name,
};
use rust_lsp_mcp::resolve::{absolute_path, PathResolution};

#[test]
fn workspace_file_uri_from_unix_path_uses_forward_slashes() {
    assert_eq!(file_uri_from_path("/tmp/rust workspace"), "file:///tmp/rust%20workspace");
}

#[test]
fn file_uris_are_percent_decoded_before_path_conversion() {
    assert_eq!(
        uri_to_path("file:///tmp/workspace/src/with%20space.rs"),
        "/tmp/workspace/src/with space.rs"
    );
}

#[test]
fn invalid_percent_sequences_are_preserved() {
    assert_eq!(
        percent_decode_path("/tmp/workspace/src/percent%2G.rs"),
        "/tmp/workspace/src/percent%2G.rs"
    );
}

#[test]
fn non_file_uris_are_kept_as_they_are() {
    assert_eq!(uri_to_path("untitled:Untitled-1"), "untitled:Untitled-1");
}

#[test]
fn percent_decoding_handles_both_cases_and_truncated_escapes() {
    assert_eq!(percent_decode_path("/a%2fb%2F%41"), "/a/b/A");
    assert_eq!(percent_decode_path("/trailing%2"), "/trailing%2");
    assert_eq!(percent_decode_path("/end%"), "/end%");
}

#[test]
fn hex_digits_decode_in_both_cases() {
    assert_eq!(from_hex_digit(b'0'), Some(0));
    assert_eq!(from_hex_digit(b'9'), Some(9));
    assert_eq!(from_hex_digit(b'a'), Some(10));
    assert_eq!(from_hex_digit(b'F'), Some(15));
    assert_eq!(from_hex_digit(b'g'), None);
    assert_eq!(from_hex_digit(b'%'), None);
}

#[test]
fn segments_keep_unreserved_bytes_and_escape_the_rest() {
    assert_eq!(percent_encode("a-b_c.d~e"), "a-b_c.d~e");
    assert_eq!(percent_encode("with space"), "with%20space");
    assert_eq!(percent_encode("é"), "%C3%A9");
}

#[test]
fn file_uris_skip_dot_segments_and_repeated_separators() {
    assert_eq!(file_uri_from_path("/tmp//a/./b"), "file:///tmp/a/b");
    assert_eq!(file_uri_from_path("/"), "file:///");
}

#[test]
fn file_uri_round_trips_through_uri_to_path() {
    let path = "/tmp/rust workspace/src/lib 100%.rs";
    assert_eq!(uri_to_path(&file_uri_from_path(path)), path);
}

#[test]
fn normalization_applies_dot_segments() {
    assert_eq!(normalize_path("/tmp/a/./b/../c"), "/tmp/a/c");
    assert_eq!(normalize_path("/../a"), "/a");
    assert_eq!(normalize_path("a/../../b"), "../b");
    assert_eq!(normalize_path("./a/b/"), "a/b");
}

#[test]
fn normalizing_an_absolute_path_twice_changes_nothing() {
    let once = normalize_path("/tmp/x/../y/./z");
    assert_eq!(normalize_path(&once), once);
}

#[test]
fn workspace_folder_names_use_the_last_segment() {
    assert_eq!(workspace_folder_name("/tmp/my-project"), "my-project");
    assert_eq!(workspace_folder_name("/"), "workspace");
    assert_eq!(workspace_folder_name("/tmp/.."), "workspace");
}

#[test]
fn relative_paths_are_joined_onto_the_working_directory() {
    assert_eq!(absolute_path("src/lib.rs", "/work"), "/work/src/lib.rs");
    assert_eq!(absolute_path("src/lib.rs", "/"), "/src/lib.rs");
    assert_eq!(absolute_path("/abs/x", "/work"), "/abs/x");
}

#[test]
fn resolution_probes_prefixes_from_longest_to_empty() {
    let mut resolution = PathResolution::new("/work/new/file.rs", "/ignored");
    assert_eq!(resolution.path(), "/work/new/file.rs");
    assert_eq!(resolution.next_probe().as_deref(), Some("/work/new/file.rs"));
    resolution.skip_probe();
    assert_eq!(resolution.next_probe().as_deref(), Some("/work/new"));
    resolution.skip_probe();
    assert_eq!(resolution.next_probe().as_deref(), Some("/work"));
    assert_eq!(resolution.resolved("/real/work"), "/real/work/new/file.rs");
    resolution.skip_probe();
    assert_eq!(resolution.next_probe().as_deref(), Some("/"));
    resolution.skip_probe();
    assert_eq!(resolution.next_probe().as_deref(), Some(""));
    resolution.skip_probe();
    assert_eq!(resolution.next_probe(), None);
    assert_eq!(resolution.unresolved(), "/work/new/file.rs");
}

#[test]
fn resolution_normalizes_the_remaining_components() {
    let resolution = PathResolution::new("nested/../lib.rs", "/work/src");
    assert_eq!(resolution.path(), "/work/src/nested/../lib.rs");
    assert_eq!(resolution.unresolved(), "/work/src/lib.rs");
    let mut r = PathResolution::new("/w/a/../b", "/");
    r.skip_probe();
    assert_eq!(r.next_probe().as_deref(), Some("/w/a/.."));
    r.skip_probe();
    assert_eq!(r.next_probe().as_deref(), Some("/w/a"));
    assert_eq!(r.resolved("/canon/a"), "/canon/b");
    let resolved = r.resolved("/canon/./a//");
    assert_eq!(normalize_path(&resolved), resolved);
}

#[test]
fn percent_decoding_inverts_percent_encoding() {
    for s in ["plain", "with space", "100%", "%2G and %41", "é/ü", ""] {
        assert_eq!(percent_decode_path(&percent_encode(s)), s);
    }
}

#[test]
fn normal_forms_have_no_dot_components() {
    let normal = normalize_path("/a/./b/../../c/./d/..");
    assert_eq!(normal, "/c");
    for component in path_components(&normal).iter().skip(1) {
        assert!(matches!(component, PathComponent::Normal(_)));
    }
    assert!(matches!(path_components(&normal)[0], PathComponent::RootDir));
}

#[test]
fn file_uri_round_trip_keeps_the_components_of_a_plain_absolute_path() {
    let path = "/tmp//rust workspace/src/lib 100%.rs/";
    let back = uri_to_path(&file_uri_from_path(path));
    assert_eq!(back, "/tmp/rust workspace/src/lib 100%.rs");
    let got = path_components(&back);
    let want = path_components(path);
    assert_eq!(got.len(), want.len());
    for (a, b) in got.iter().zip(want.iter()) {
        assert_eq!(format!("{:?}", a), format!("{:?}", b));
    }
}
