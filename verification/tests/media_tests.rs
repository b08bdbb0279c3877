use cavin_tools::media::{codec_arg, crf_for_preset, parse_ffmpeg_version};

#[test]
fn version_is_the_token_after_the_version_word() {
    let output = "ffmpeg version 6.0-full_build Copyright (c) 2000-2023\nbuilt with gcc 12.2.0";
    assert_eq!(parse_ffmpeg_version(output), "6.0-full_build");
    assert_eq!(parse_ffmpeg_version("ffmpeg version 4.4.1\r\nmore"), "4.4.1");
    assert_eq!(parse_ffmpeg_version("ffmpeg version n7.0"), "n7.0");
}

#[test]
fn missing_version_reads_unknown() {
    assert_eq!(parse_ffmpeg_version(""), "unknown");
    assert_eq!(parse_ffmpeg_version("no such word here"), "unknown");
    assert_eq!(parse_ffmpeg_version("ffmpeg version"), "unknown");
    assert_eq!(parse_ffmpeg_version("ffmpeg version \nnext 1.0"), "unknown");
}

#[test]
fn presets_map_to_their_rate_factors() {
    assert_eq!(crf_for_preset("mobile", None), 26);
    assert_eq!(crf_for_preset("web", None), 30);
    assert_eq!(crf_for_preset("high_quality", Some(10)), 23);
    assert_eq!(crf_for_preset("custom", Some(18)), 18);
    assert_eq!(crf_for_preset("custom", None), 23);
}

#[test]
fn codecs_select_their_encoders() {
    assert_eq!(codec_arg(&Some("h265".to_string())), "libx265");
    assert_eq!(codec_arg(&Some("vp9".to_string())), "libvpx-vp9");
    assert_eq!(codec_arg(&Some("h264".to_string())), "libx264");
    assert_eq!(codec_arg(&None), "libx264");
}
