use media_preview::cli::{parse_args, parse_bool, parse_usize, ArgError};
use media_preview::playback::{seek_target, VideoView, SEEK_INTERVAL_NS};
use media_preview::raster::RasterImage;
use media_preview::renderer::Renderer;

fn strings(v: &[&str]) -> Vec<String> {
    v.iter().map(|s| s.to_string()).collect()
}

#[test]
fn numbers_parse_like_std() {
    for s in ["0", "7", "+12", "0042", "18446744073709551615", "", "+", "-1", "1x", "18446744073709551616", " 3"] {
        assert_eq!(parse_usize(s), s.parse::<usize>().ok(), "{:?}", s);
    }
}

#[test]
fn booleans_parse() {
    assert_eq!(parse_bool("true"), Some(true));
    assert_eq!(parse_bool("false"), Some(false));
    assert_eq!(parse_bool("True"), None);
    assert_eq!(parse_bool(""), None);
}

#[test]
fn arguments_are_read_in_order() {
    let a = parse_args(&strings(&["40", "20", "1", "false", "true", "/a b/c.mp4"])).unwrap();
    assert_eq!((a.xsize, a.ysize, a.video, a.autoplay, a.mute), (40, 20, true, false, true));
    assert_eq!(a.path, "/a b/c.mp4");
    let b = parse_args(&strings(&["3", "4", "0", "true", "false", "x.png", "extra"])).unwrap();
    assert!(!b.video);
    assert_eq!(b.path, "x.png");
}

#[test]
fn argument_errors() {
    assert_eq!(parse_args(&strings(&["1", "2", "1", "true", "true"])).err(), Some(ArgError::Missing));
    assert_eq!(parse_args(&strings(&["a", "2", "1", "true", "true", "p"])).err(), Some(ArgError::BadNumber));
    assert_eq!(parse_args(&strings(&["1", "2", "video", "true", "true", "p"])).err(), Some(ArgError::BadNumber));
    assert_eq!(parse_args(&strings(&["1", "2", "1", "yes", "true", "p"])).err(), Some(ArgError::BadBool));
}

#[test]
fn spawn_arguments_read_back() {
    let v = VideoView::new_from_file(123, 45, "/m/v.ogv".to_string());
    let a = parse_args(&v.spawn_args(false, true)).unwrap();
    assert_eq!((a.xsize, a.ysize, a.video, a.autoplay, a.mute), (123, 45, true, false, true));
    assert_eq!(a.path, "/m/v.ogv");
}

#[test]
fn can_render_checks_buffer_and_size() {
    let r = Renderer { xsize: 8, ysize: 4 };
    let good = RasterImage { width: 2, height: 1, pixels: vec![0; 8] };
    assert!(r.can_render(&good));
    let short = RasterImage { width: 2, height: 1, pixels: vec![0; 7] };
    assert!(!r.can_render(&short));
    let huge = Renderer { xsize: usize::MAX, ysize: 4 };
    assert!(!huge.can_render(&good));
    let wide = Renderer { xsize: 5_000_000_000, ysize: 4 };
    assert!(!wide.can_render(&good));
}

#[test]
fn seeking_moves_by_the_interval_and_stops_at_the_ends() {
    assert_eq!(SEEK_INTERVAL_NS, 5_000_000_000);
    assert_eq!(seek_target(12_000_000_000, true, SEEK_INTERVAL_NS), 17_000_000_000);
    assert_eq!(seek_target(12_000_000_000, false, SEEK_INTERVAL_NS), 7_000_000_000);
    assert_eq!(seek_target(3_000_000_000, false, SEEK_INTERVAL_NS), 0);
    assert_eq!(seek_target(5_000_000_000, false, SEEK_INTERVAL_NS), 0);
    assert_eq!(seek_target(u64::MAX - 1, true, SEEK_INTERVAL_NS), u64::MAX);
}
