use ytpd::playlist::{expand, is_playlist_url, listed_count, playlist_args, ResolveError};

#[test]
fn playlist_args_are_the_listing_flags_and_the_address() {
    assert_eq!(
        playlist_args("https://www.youtube.com/playlist?list=PL1"),
        vec![
            "--flat-playlist",
            "--get-id",
            "--no-warnings",
            "--no-check-certificates",
            "--ignore-errors",
            "https://www.youtube.com/playlist?list=PL1",
        ]
    );
}

#[test]
fn expand_builds_the_addresses_in_order() {
    assert_eq!(
        expand(true, b"id3\nid1\nid2\n"),
        Ok(vec![
            "https://www.youtube.com/watch?v=id3".to_string(),
            "https://www.youtube.com/watch?v=id1".to_string(),
            "https://www.youtube.com/watch?v=id2".to_string(),
        ])
    );
}

#[test]
fn expand_skips_empty_lines_and_line_endings() {
    assert_eq!(
        expand(true, b"\n\r\nid1\r\n\nid2"),
        Ok(vec![
            "https://www.youtube.com/watch?v=id1".to_string(),
            "https://www.youtube.com/watch?v=id2".to_string(),
        ])
    );
}

#[test]
fn expand_splits_as_the_standard_library_does() {
    for listing in ["a\nb", "a\r\nb\r\n", "a\rb\n", "a\r", "\r\n\r\n", " \n", "a\n\r", "é\nü\n"] {
        let expected: Vec<String> = listing
            .lines()
            .filter(|line| !line.is_empty())
            .map(|id| format!("https://www.youtube.com/watch?v={}", id))
            .collect();
        match expand(true, listing.as_bytes()) {
            Ok(urls) => assert_eq!(urls, expected, "on {:?}", listing),
            Err(e) => {
                assert_eq!(e, ResolveError::NoUrls);
                assert!(expected.is_empty(), "on {:?}", listing);
            }
        }
    }
}

#[test]
fn expand_fails_where_the_listing_failed() {
    assert_eq!(expand(false, b"id1\n"), Err(ResolveError::ListingFailed));
    assert_eq!(expand(false, b""), Err(ResolveError::ListingFailed));
}

#[test]
fn expand_fails_on_an_empty_playlist() {
    assert_eq!(expand(true, b""), Err(ResolveError::NoUrls));
    assert_eq!(expand(true, b"\n\r\n\n"), Err(ResolveError::NoUrls));
    assert_eq!(ResolveError::NoUrls.message(), "No URLs found in playlist");
}

#[test]
fn expand_fails_on_bytes_that_are_no_text() {
    assert_eq!(expand(true, &[0x69, 0x64, 0xff, 0x0a]), Err(ResolveError::NotText));
}

#[test]
fn resolve_error_messages() {
    assert_eq!(ResolveError::ListingFailed.message(), "Failed to get playlist URLs");
    assert_eq!(ResolveError::NotText.message(), "Playlist listing is not valid UTF-8");
}

#[test]
fn is_playlist_url_looks_for_the_list_parameter() {
    assert!(is_playlist_url("https://www.youtube.com/playlist?list=PL123"));
    assert!(is_playlist_url("playlist?list="));
    assert!(!is_playlist_url("https://www.youtube.com/watch?v=abc"));
    assert!(!is_playlist_url("https://www.youtube.com/watch?v=abc&list=PL123"));
    assert!(!is_playlist_url("playlist?list"));
    assert!(!is_playlist_url(""));
}

#[test]
fn listed_count_counts_an_empty_listing_too() {
    assert_eq!(listed_count(&expand(true, b"id1\nid2\n")), Some(2));
    assert_eq!(listed_count(&expand(true, b"\n")), Some(0));
    assert_eq!(listed_count(&expand(true, b"")), Some(0));
    assert_eq!(listed_count(&expand(false, b"id1\n")), None);
    assert_eq!(listed_count(&expand(true, &[0xff])), None);
}
