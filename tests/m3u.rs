use nutune::m3u::generate_m3u;

#[test]
fn test_generate_m3u_empty() {
    let result = generate_m3u(&[]);
    assert_eq!(result, "#EXTM3U\n");
}

#[test]
fn test_generate_m3u_tracks() {
    let tracks = vec![
        "01 - Track One.flac".to_string(),
        "02 - Track Two.flac".to_string(),
    ];
    let result = generate_m3u(&tracks);
    assert_eq!(result, "#EXTM3U\n01 - Track One.flac\n02 - Track Two.flac\n");
}

#[test]
fn m3u_keeps_write_order_and_relative_names() {
    let tracks = vec!["B - b.mp3".to_string(), "A - a.mp3".to_string()];
    assert_eq!(generate_m3u(&tracks), "#EXTM3U\nB - b.mp3\nA - a.mp3\n");
}
