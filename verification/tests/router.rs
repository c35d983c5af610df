//! The routing table.

use images_microservice::router::{
    download_segment, route, Method, Route, DOWNLOAD_PREFIX, INDEX_PATH, UPLOAD_PATH,
};

#[test]
fn fixed_paths() {
    assert_eq!(INDEX_PATH, "/");
    assert_eq!(UPLOAD_PATH, "/upload");
    assert_eq!(DOWNLOAD_PREFIX, "/download/");
}

#[test]
fn get_root_is_the_index() {
    assert_eq!(route(Method::Get, "/"), Route::Index);
}

#[test]
fn post_upload_is_an_upload() {
    assert_eq!(route(Method::Post, "/upload"), Route::Upload);
}

#[test]
fn get_download_of_an_identifier_is_a_download() {
    assert_eq!(
        route(Method::Get, "/download/abcdefghijKLMNOPQRST"),
        Route::Download("abcdefghijKLMNOPQRST".to_string())
    );
    assert_eq!(
        route(Method::Get, "/download/0123456789_123456789"),
        Route::Download("0123456789_123456789".to_string())
    );
    assert_eq!(
        route(Method::Get, "/download/____________________"),
        Route::Download("____________________".to_string())
    );
}

#[test]
fn get_download_short_is_not_found() {
    assert_eq!(route(Method::Get, "/download/short"), Route::NotFound);
}

#[test]
fn get_nonexistent_is_not_found() {
    assert_eq!(route(Method::Get, "/nonexistent"), Route::NotFound);
}

#[test]
fn download_needs_exactly_twenty_characters() {
    assert_eq!(route(Method::Get, "/download/"), Route::NotFound);
    assert_eq!(route(Method::Get, "/download"), Route::NotFound);
    assert_eq!(route(Method::Get, "/download/abcdefghijklmnopqrs"), Route::NotFound);
    assert_eq!(route(Method::Get, "/download/abcdefghijklmnopqrstu"), Route::NotFound);
}

#[test]
fn download_needs_word_characters() {
    assert_eq!(route(Method::Get, "/download/abcdefghij/lmnopqrst"), Route::NotFound);
    assert_eq!(route(Method::Get, "/download/abcdefghij.lmnopqrst"), Route::NotFound);
    assert_eq!(route(Method::Get, "/download/abcdefghij-lmnopqrst"), Route::NotFound);
    assert_eq!(route(Method::Get, "/download/..................../"), Route::NotFound);
}

#[test]
fn download_path_is_matched_from_start_to_end() {
    assert_eq!(route(Method::Get, "/download/abcdefghijklmnopqrst/"), Route::NotFound);
    assert_eq!(route(Method::Get, "/download/abcdefghijklmnopqrst/x"), Route::NotFound);
    assert_eq!(route(Method::Get, "/x/download/abcdefghijklmnopqrst"), Route::NotFound);
    assert_eq!(route(Method::Get, "x/download/abcdefghijklmnopqrst"), Route::NotFound);
    assert_eq!(route(Method::Get, "/download/abcdefghijklmnopqrst?a=b"), Route::NotFound);
    assert_eq!(route(Method::Get, "/downloadabcdefghijklmnopqrstu"), Route::NotFound);
}

#[test]
fn paths_are_matched_exactly() {
    assert_eq!(route(Method::Get, ""), Route::NotFound);
    assert_eq!(route(Method::Get, "//"), Route::NotFound);
    assert_eq!(route(Method::Get, "/index"), Route::NotFound);
    assert_eq!(route(Method::Post, "/upload/"), Route::NotFound);
    assert_eq!(route(Method::Post, "/uploads"), Route::NotFound);
    assert_eq!(route(Method::Post, "/uploa"), Route::NotFound);
    assert_eq!(route(Method::Post, "/Upload"), Route::NotFound);
    assert_eq!(route(Method::Post, "upload"), Route::NotFound);
    assert_eq!(route(Method::Post, ""), Route::NotFound);
}

#[test]
fn routes_depend_on_the_method() {
    assert_eq!(route(Method::Post, "/"), Route::NotFound);
    assert_eq!(route(Method::Get, "/upload"), Route::NotFound);
    assert_eq!(route(Method::Post, "/download/abcdefghijklmnopqrst"), Route::NotFound);
    let others = [
        Method::Put,
        Method::Delete,
        Method::Head,
        Method::Options,
        Method::Connect,
        Method::Patch,
        Method::Trace,
        Method::Other,
    ];
    for method in others {
        assert_eq!(route(method, "/"), Route::NotFound);
        assert_eq!(route(method, "/upload"), Route::NotFound);
        assert_eq!(route(method, "/download/abcdefghijklmnopqrst"), Route::NotFound);
    }
}

#[test]
fn long_paths_are_not_found() {
    let long = format!("/download/{}", "a".repeat(50_000));
    assert_eq!(route(Method::Get, &long), Route::NotFound);
    let long = "/".repeat(50_000);
    assert_eq!(route(Method::Get, &long), Route::NotFound);
    assert_eq!(route(Method::Post, &long), Route::NotFound);
}

#[test]
fn download_segment_reads_the_identifier() {
    assert_eq!(
        download_segment("/download/abcdefghijKLMNOPQRST"),
        Some("abcdefghijKLMNOPQRST".to_string())
    );
    assert_eq!(download_segment("/download/short"), None);
    assert_eq!(download_segment("/download/"), None);
    assert_eq!(download_segment("/download"), None);
    assert_eq!(download_segment("/"), None);
    assert_eq!(download_segment(""), None);
    assert_eq!(download_segment("/upload"), None);
    assert_eq!(download_segment("/downloaX/abcdefghijKLMNOPQRST"), None);
    assert_eq!(download_segment("\u{e9}download/abcdefghijKLMNOPQRST"), None);
}

#[test]
fn download_of_wide_characters_is_not_found() {
    let path = format!("/download/{}", "\u{e9}".repeat(20));
    assert_eq!(route(Method::Get, &path), Route::NotFound);
    let path = format!("/download/{}", "\u{e9}".repeat(10));
    assert_eq!(route(Method::Get, &path), Route::NotFound);
}
