use nutune::api::{cover_art_url, download_url, item_url, normalize_base_url, request_url};

fn params() -> Vec<(String, String)> {
    vec![("u".to_string(), "me & you".to_string()), ("v".to_string(), "1.16.1".to_string())]
}

#[test]
fn request_url_encodes_values() {
    assert_eq!(
        request_url("http://h", "ping", &params()),
        "http://h/rest/ping?u=me%20%26%20you&v=1.16.1"
    );
    assert_eq!(request_url("http://h", "ping", &vec![]), "http://h/rest/ping?");
}

#[test]
fn item_download_and_cover_urls() {
    let p = vec![("f".to_string(), "json".to_string())];
    assert_eq!(download_url("http://h", &p, "42"), "http://h/rest/download?f=json&id=42");
    assert_eq!(item_url("http://h", "getAlbum", &p, "a1"), "http://h/rest/getAlbum?f=json&id=a1");
    assert_eq!(
        cover_art_url("http://h", &p, "c9", Some(500)),
        "http://h/rest/getCoverArt?f=json&id=c9&size=500"
    );
    assert_eq!(cover_art_url("http://h", &p, "c9", None), "http://h/rest/getCoverArt?f=json&id=c9");
}

#[test]
fn base_url_loses_trailing_slashes() {
    assert_eq!(normalize_base_url("https://music.example.org//"), "https://music.example.org");
    assert_eq!(normalize_base_url("https://music.example.org"), "https://music.example.org");
    assert_eq!(normalize_base_url("/"), "");
}
