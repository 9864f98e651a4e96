use stream_rotator::resolver::resolve_outcome;
use stream_rotator::resolver::stream_page_url;
use stream_rotator::resolver::trim_spaces;
use stream_rotator::resolver::ResolveError;

#[test]
fn failed_status_is_resolution_failed() {
    let r = resolve_outcome(false, "https://edge.example/playlist.m3u8\n");
    assert_eq!(r, Err(ResolveError::ResolutionFailed));
}

#[test]
fn empty_output_is_empty_result() {
    assert_eq!(resolve_outcome(true, ""), Err(ResolveError::EmptyResult));
}

#[test]
fn whitespace_only_output_is_empty_result() {
    assert_eq!(resolve_outcome(true, " \t\r\n"), Err(ResolveError::EmptyResult));
}

#[test]
fn successful_output_is_trimmed_url() {
    let r = resolve_outcome(true, "  https://edge.example/playlist.m3u8\n");
    assert_eq!(r, Ok("https://edge.example/playlist.m3u8".to_string()));
}

#[test]
fn untrimmed_output_is_kept_as_is() {
    let r = resolve_outcome(true, "https://edge.example/live");
    assert_eq!(r, Ok("https://edge.example/live".to_string()));
}

#[test]
fn trim_spaces_strips_both_ends_only() {
    assert_eq!(trim_spaces("\t a b \r\n"), "a b".to_string());
    assert_eq!(trim_spaces(""), String::new());
    assert_eq!(trim_spaces("   "), String::new());
    assert_eq!(trim_spaces("url"), "url".to_string());
}

#[test]
fn trim_spaces_strips_unicode_whitespace() {
    assert_eq!(trim_spaces("\u{b}url\u{a0}"), "url".to_string());
    assert_eq!(trim_spaces("\u{1680}\u{2003}x\u{2028}\u{3000}"), "x".to_string());
    assert_eq!(trim_spaces("\u{85}\u{200a}\u{202f}\u{205f}"), String::new());
}

#[test]
fn trim_spaces_matches_std_trim() {
    let samples = [
        "\u{b}\u{c}url\u{a0}\u{2029}",
        " \t\u{1680}mixed ws\u{2000}\u{200a}\r\n",
        "\u{3000}",
        "no-ws",
        "",
    ];
    for sample in samples {
        assert_eq!(trim_spaces(sample), sample.trim().to_string());
    }
}

#[test]
fn unicode_whitespace_only_output_is_empty_result() {
    assert_eq!(resolve_outcome(true, "\u{b}"), Err(ResolveError::EmptyResult));
    assert_eq!(resolve_outcome(true, "\u{a0}\u{2003}\u{85}"), Err(ResolveError::EmptyResult));
}

#[test]
fn unicode_whitespace_around_url_is_stripped() {
    let r = resolve_outcome(true, "\u{b}https://edge.example/live\u{a0}\n");
    assert_eq!(r, Ok("https://edge.example/live".to_string()));
}

#[test]
fn stream_page_url_appends_channel() {
    assert_eq!(stream_page_url("somechannel"), "https://twitch.tv/somechannel".to_string());
}
