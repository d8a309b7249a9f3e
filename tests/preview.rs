use media_preview::escape::reset_screen;
use media_preview::imgview::ImgView;
use media_preview::playback::{decimal_string, PlaybackState, VideoView};
use media_preview::protocol::{parse_lines, Command, FrameParser, Line, MediaError};
use media_preview::raster::{render_lines, render_row, RasterImage};
use media_preview::renderer::Renderer;
use media_preview::session::{run, Action, Event, Phase, PreviewLoop};

const GLYPH: char = '\u{2580}';

fn text(s: &str) -> Line {
    Line::Text(s.to_string())
}

fn uniform(w: u32, h: u32, c: (u8, u8, u8)) -> RasterImage {
    let mut pixels = Vec::new();
    for _ in 0..(w * h) {
        pixels.extend_from_slice(&[c.0, c.1, c.2, 255]);
    }
    RasterImage { width: w, height: h, pixels }
}

fn glyphs(s: &str) -> usize {
    s.chars().filter(|c| *c == GLYPH).count()
}

fn cell(up: (u8, u8, u8), lo: (u8, u8, u8)) -> String {
    format!(
        "\x1b[38;2;{};{};{}m\x1b[48;2;{};{};{}m\u{2580}\x1b[m",
        up.0, up.1, up.2, lo.0, lo.1, lo.2
    )
}

#[test]
fn parser_emits_two_frames_and_drops_trailing_blank() {
    let lines = vec![text("a"), text("b"), text(""), text("c"), text("d"), text(""), text("")];
    let frames = parse_lines(lines);
    assert_eq!(frames.len(), 2);
    assert_eq!(frames[0].as_ref().unwrap(), &vec!["a".to_string(), "b".to_string()]);
    assert_eq!(frames[1].as_ref().unwrap(), &vec!["c".to_string(), "d".to_string()]);
}

#[test]
fn parser_discards_unterminated_frame() {
    let frames = parse_lines(vec![text("a"), text(""), text("b"), text("c")]);
    assert_eq!(frames.len(), 1);
    assert_eq!(frames[0].as_ref().unwrap(), &vec!["a".to_string()]);
}

#[test]
fn parser_drops_only_the_undecodable_frame() {
    let frames = parse_lines(vec![
        text("a"),
        Line::Undecodable,
        text("b"),
        text(""),
        text("c"),
        text(""),
    ]);
    assert_eq!(frames.len(), 2);
    assert_eq!(frames[0], Err(MediaError::DecodeError));
    assert_eq!(frames[1].as_ref().unwrap(), &vec!["c".to_string()]);
}

#[test]
fn parser_feed_one_line_at_a_time() {
    let mut p = FrameParser::new();
    assert!(p.feed(text("x")).is_none());
    assert!(p.feed(text("y")).is_none());
    let out = p.feed(text("")).unwrap().unwrap();
    assert_eq!(out, vec!["x".to_string(), "y".to_string()]);
    assert!(p.feed(text("")).is_none());
}

#[test]
fn empty_stream_gives_no_frames() {
    assert!(parse_lines(vec![]).is_empty());
}

#[test]
fn max_size_wide_image_scenario() {
    let r = Renderer { xsize: 40, ysize: 20 };
    let img = uniform(100, 50, (1, 2, 3));
    assert_eq!(r.max_size(&img), (40, 20));
}

#[test]
fn render_wide_image_scenario() {
    let r = Renderer { xsize: 40, ysize: 20 };
    let img = uniform(100, 50, (1, 2, 3));
    let lines = r.render_image(&img);
    // 20 pixel rows, two per text line
    assert_eq!(lines.len(), 10);
    for l in &lines {
        assert_eq!(glyphs(l), 40);
    }
}

#[test]
fn max_size_tall_image_rounds_up_to_even() {
    let r = Renderer { xsize: 17, ysize: 10 };
    let img = uniform(30, 70, (0, 0, 0));
    // 17 * 30 / 70 = 7, odd, so 8
    assert_eq!(r.max_size(&img), (17, 8));
}

#[test]
fn max_size_square_image() {
    let r = Renderer { xsize: 9, ysize: 10 };
    assert_eq!(r.max_size(&uniform(5, 5, (0, 0, 0))), (9, 10));
}

#[test]
fn render_shapes_are_even_and_full_width() {
    for &(w, h, x) in &[(3u32, 7u32, 5usize), (7, 3, 6), (1, 1, 1), (64, 9, 13), (2, 2, 4)] {
        let r = Renderer { xsize: x, ysize: 0 };
        let img = uniform(w, h, (9, 8, 7));
        let (_, th) = r.max_size(&img);
        assert_eq!(th % 2, 0);
        let lines = r.render_image(&img);
        assert_eq!(lines.len() * 2, th);
        for l in &lines {
            assert_eq!(glyphs(l), x);
        }
    }
}

#[test]
fn degenerate_sizes_render_nothing() {
    let r = Renderer { xsize: 0, ysize: 0 };
    assert!(r.render_image(&uniform(4, 4, (1, 1, 1))).is_empty());
    let r = Renderer { xsize: 10, ysize: 5 };
    let empty = RasterImage { width: 0, height: 0, pixels: vec![] };
    assert_eq!(r.max_size(&empty), (10, 0));
    assert!(r.render_image(&empty).is_empty());
}

#[test]
fn uniform_image_renders_uniform_cells() {
    let c = (10, 20, 30);
    let img = uniform(5, 4, c);
    let lines = render_lines(&img);
    assert_eq!(lines.len(), 2);
    for l in &lines {
        assert_eq!(l, &cell(c, c).repeat(5));
    }
}

#[test]
fn uniform_image_through_resize_keeps_its_colour() {
    let c = (200, 100, 50);
    let r = Renderer { xsize: 6, ysize: 0 };
    let lines = r.render_image(&uniform(6, 4, c));
    assert_eq!(lines.len(), 2);
    for l in &lines {
        assert_eq!(l, &cell(c, c).repeat(6));
    }
}

#[test]
fn render_row_puts_upper_pixel_in_front() {
    let img = RasterImage {
        width: 1,
        height: 2,
        pixels: vec![1, 2, 3, 255, 250, 0, 17, 0],
    };
    assert_eq!(render_row(&img, 0), "\x1b[38;2;1;2;3m\x1b[48;2;250;0;17m\u{2580}\x1b[m");
}

#[test]
fn resize_changes_the_pixel_grid() {
    let img = RasterImage {
        width: 1,
        height: 1,
        pixels: vec![7, 7, 7, 255],
    };
    let r = Renderer { xsize: 4, ysize: 0 };
    let lines = r.render_image(&img);
    assert_eq!(lines, vec![cell((7, 7, 7), (7, 7, 7)).repeat(4); 2]);
}

fn streaming(autoplay: bool, mute: bool) -> PreviewLoop {
    let mut l = PreviewLoop::new(autoplay, mute);
    assert!(matches!(l.step(Event::Checked { cancelled: false }), Action::Spawn { .. }));
    assert!(matches!(l.step(Event::Spawned), Action::Wait));
    assert_eq!(l.phase, Phase::Streaming);
    l
}

#[test]
fn quit_before_any_frame_kills_and_installs_nothing() {
    let mut l = streaming(true, false);
    let acts = run(
        &mut l,
        vec![
            Event::Control(Command::Quit),
            Event::Output(text("a")),
            Event::Output(text("")),
            Event::Exited { success: true },
            Event::Checked { cancelled: false },
        ],
    );
    assert!(matches!(acts[0], Action::KillAndReap));
    assert!(acts[1..].iter().all(|a| matches!(a, Action::Wait)));
    assert_eq!(l.phase, Phase::Terminated);
    assert!(!l.child_alive);
}

#[test]
fn quit_while_idle_finishes_without_a_process() {
    let mut l = PreviewLoop::new(true, false);
    assert!(matches!(l.step(Event::Control(Command::Quit)), Action::Finish));
    assert!(matches!(l.step(Event::Checked { cancelled: false }), Action::Wait));
    assert!(!l.child_alive);
}

#[test]
fn success_exit_respawns_with_same_toggles() {
    let mut l = streaming(false, true);
    assert!(matches!(l.step(Event::Exited { success: true }), Action::CheckCancellation));
    assert_eq!(l.phase, Phase::Restarting);
    match l.step(Event::Checked { cancelled: false }) {
        Action::Spawn { autoplay, mute } => {
            assert!(!autoplay);
            assert!(mute);
        }
        _ => panic!("expected a respawn"),
    }
    assert_eq!(l.phase, Phase::Spawning);
}

#[test]
fn success_exit_after_cancellation_terminates() {
    let mut l = streaming(true, false);
    assert!(matches!(l.step(Event::Exited { success: true }), Action::CheckCancellation));
    assert!(matches!(l.step(Event::Checked { cancelled: true }), Action::Finish));
    assert_eq!(l.phase, Phase::Terminated);
    assert!(l.cancelled);
}

#[test]
fn failure_exit_terminates() {
    let mut l = streaming(true, false);
    assert!(matches!(l.step(Event::Exited { success: false }), Action::Finish));
    assert_eq!(l.phase, Phase::Terminated);
}

#[test]
fn cancelled_before_start_never_spawns() {
    let mut l = PreviewLoop::new(true, false);
    assert!(matches!(l.step(Event::Checked { cancelled: true }), Action::Finish));
    assert_eq!(l.phase, Phase::Terminated);
}

#[test]
fn spawn_failure_is_reported() {
    let mut l = PreviewLoop::new(true, false);
    l.step(Event::Checked { cancelled: false });
    assert!(matches!(l.step(Event::SpawnFailed), Action::ReportSpawnError));
    assert_eq!(l.phase, Phase::Terminated);
}

#[test]
fn frames_are_installed_and_commands_forwarded() {
    let mut l = streaming(true, false);
    let acts = run(
        &mut l,
        vec![
            Event::Output(text("x")),
            Event::Control(Command::SeekForward),
            Event::Output(text("")),
            Event::Output(text("y")),
            Event::Exited { success: true },
        ],
    );
    assert!(matches!(acts[0], Action::Wait));
    assert!(matches!(acts[1], Action::Forward(Command::SeekForward)));
    match &acts[2] {
        Action::Install(f) => assert_eq!(f, &vec!["x".to_string()]),
        _ => panic!("expected a frame"),
    }
    assert!(matches!(acts[3], Action::Wait));
    assert!(matches!(acts[4], Action::CheckCancellation));
    assert!(l.parser.lines.is_empty());
}

#[test]
fn undecodable_frame_is_dropped_and_session_goes_on() {
    let mut l = streaming(true, false);
    let acts = run(
        &mut l,
        vec![
            Event::Output(Line::Undecodable),
            Event::Output(text("")),
            Event::Output(text("z")),
            Event::Output(text("")),
        ],
    );
    assert!(matches!(acts[1], Action::DropFrame));
    assert!(matches!(acts[3], Action::Install(_)));
}

#[test]
fn closed_channel_is_a_quit() {
    let mut l = streaming(true, false);
    assert!(matches!(l.step(Event::ChannelClosed), Action::KillAndReap));
    assert_eq!(l.phase, Phase::Terminated);
}

#[test]
fn toggling_mute_twice_restores_it() {
    let mut p = PlaybackState::new();
    assert!(p.autoplay);
    assert!(!p.mute);
    assert_eq!(p.toggle_mute(), Command::Mute);
    assert!(p.mute);
    assert_eq!(p.toggle_mute(), Command::Unmute);
    assert!(!p.mute);
    assert!(p.autoplay);
}

#[test]
fn toggle_pause_flips_pause_and_autoplay() {
    let mut p = PlaybackState::new();
    let mut v = VideoView::new_from_file(10, 5, "/tmp/x.mkv".to_string());
    assert_eq!(v.toggle_pause(&mut p), Command::Pause);
    assert!(v.paused);
    assert!(!v.autoplay(&p));
    assert_eq!(v.toggle_pause(&mut p), Command::Play);
    assert!(!v.paused);
    assert!(v.autoplay(&p));
}

#[test]
fn video_view_commands() {
    let p = PlaybackState::new();
    let mut v = VideoView::new_from_file(10, 5, "f".to_string());
    assert_eq!(v.play(), Command::Play);
    assert_eq!(v.pause(), Command::Pause);
    assert_eq!(v.quit(), Command::Quit);
    assert_eq!(v.seek_forward(), Command::SeekForward);
    assert_eq!(v.seek_backward(), Command::SeekBackward);
    assert!(!v.mute(&p));
    let mut q = PlaybackState::new();
    assert_eq!(v.toggle_mute(&mut q), Command::Mute);
    v.toggle_autoplay(&mut q);
    assert!(!q.autoplay);
    assert_eq!(v.close(), Command::Quit);
    assert!(v.dropped);
}

#[test]
fn start_video_is_lazy_and_once() {
    let mut p = PlaybackState::new();
    p.toggle_mute();
    let mut v = VideoView::new_from_file(10, 5, "f".to_string());
    assert!(!v.started);
    let l = v.start_video(&p).unwrap();
    assert_eq!(l.phase, Phase::Idle);
    assert!(l.autoplay);
    assert!(l.mute);
    assert!(v.start_video(&p).is_none());
}

#[test]
fn start_video_after_close_gives_nothing() {
    let p = PlaybackState::new();
    let mut v = VideoView::new_from_file(10, 5, "f".to_string());
    v.close();
    assert!(v.start_video(&p).is_none());
}

#[test]
fn spawn_args_follow_the_cli_contract() {
    let v = VideoView::new_from_file(80, 24, "/media/clip.webm".to_string());
    assert_eq!(
        v.spawn_args(true, false),
        vec!["80", "24", "1", "true", "false", "/media/clip.webm"]
    );
}

#[test]
fn decimal_strings() {
    assert_eq!(decimal_string(0), "0");
    assert_eq!(decimal_string(7), "7");
    assert_eq!(decimal_string(1203), "1203");
    assert_eq!(decimal_string(usize::MAX), usize::MAX.to_string());
}

#[test]
fn command_codes_round_trip() {
    for c in [
        Command::Play,
        Command::Pause,
        Command::Quit,
        Command::SeekForward,
        Command::SeekBackward,
        Command::Mute,
        Command::Unmute,
    ] {
        assert_eq!(Command::from_code(c.code()), Some(c));
        assert_eq!(c.line(), format!("{}\n", c.code()));
    }
    assert_eq!(Command::Pause.code(), 'a');
    assert_eq!(Command::from_code('x'), None);
}

#[test]
fn reset_screen_restores_the_terminal() {
    assert_eq!(reset_screen(), "\x1b[m\x1b[?25h\x1b[?1049l");
}

#[test]
fn drawlist_places_each_line() {
    let mut v = ImgView::new_from_file(2, 3, 4, uniform(2, 2, (0, 0, 0)));
    v.set_image_data(vec!["ab".to_string(), "cd".to_string()]);
    assert_eq!(v.get_drawlist(), "\x1b[4;3Hab\x1b[5;3Hcd");
}

#[test]
fn drawlist_clips_rows_past_the_screen() {
    let mut v = ImgView::new_from_file(0, 65534, 4, uniform(2, 2, (0, 0, 0)));
    v.set_image_data(vec!["ab".to_string(), "cd".to_string()]);
    assert_eq!(v.get_drawlist(), "\x1b[65535;1Hab");
}

#[test]
fn empty_buffer_draws_nothing() {
    let v = ImgView::new_from_file(0, 0, 4, uniform(2, 2, (0, 0, 0)));
    assert_eq!(v.get_drawlist(), "");
}

#[test]
fn imgview_refresh_renders_once() {
    let mut v = ImgView::new_from_file(0, 0, 4, uniform(2, 2, (5, 6, 7)));
    assert_eq!(v.max_size(), (4, 4));
    v.refresh();
    assert_eq!(v.buffer, vec![cell((5, 6, 7), (5, 6, 7)).repeat(4); 2]);
    v.set_image_data(vec!["kept".to_string()]);
    v.refresh();
    assert_eq!(v.buffer, vec!["kept".to_string()]);
    v.set_raw_img(uniform(4, 2, (1, 1, 1)));
    assert_eq!(v.buffer.len(), 1);
    assert_eq!(glyphs(&v.buffer[0]), 4);
}
