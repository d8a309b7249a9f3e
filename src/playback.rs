//! Playback toggles shared by all sessions, and the handle a video preview
//! widget keeps on its session.

use vstd::prelude::*;
use crate::escape::{decimal, digit_char};
use crate::protocol::Command;
use crate::session::{initial_loop, PreviewLoop};

verus! {

/// Whether new previews start playing and whether they start muted.
/// One value is made at start-up and handed to every session.
pub struct PlaybackState {
    pub autoplay: bool,
    pub mute: bool,
}

pub open spec fn mute_toggled(p: PlaybackState) -> PlaybackState {
    PlaybackState { autoplay: p.autoplay, mute: !p.mute }
}

pub open spec fn autoplay_toggled(p: PlaybackState) -> PlaybackState {
    PlaybackState { autoplay: !p.autoplay, mute: p.mute }
}

/// Toggling mute twice gives back the state it started from; so does
/// toggling autoplay twice.
pub proof fn lemma_toggle_twice(p: PlaybackState)
    ensures
        mute_toggled(mute_toggled(p)) == p,
        autoplay_toggled(autoplay_toggled(p)) == p,
{
}

impl PlaybackState {
    /// Autoplay on, sound on.
    pub fn new() -> (p: PlaybackState)
        ensures
            p.autoplay,
            !p.mute,
    {
        PlaybackState { autoplay: true, mute: false }
    }

    /// Flips mute; gives the command that tells a running process.
    pub fn toggle_mute(&mut self) -> (cmd: Command)
        ensures
            *final(self) == mute_toggled(*old(self)),
            cmd == (if final(self).mute { Command::Mute } else { Command::Unmute }),
    {
        self.mute = !self.mute;
        if self.mute { Command::Mute } else { Command::Unmute }
    }

    /// Flips autoplay.
    pub fn toggle_autoplay(&mut self)
        ensures
            *final(self) == autoplay_toggled(*old(self)),
    {
        self.autoplay = !self.autoplay;
    }
}

/// The step of one seek, in nanoseconds: five seconds.
pub const SEEK_INTERVAL_NS: u64 = 5_000_000_000;

/// The playback position after one seek by `interval` nanoseconds from
/// `position`: forward stops at the largest position, backward at zero.
pub open spec fn seek_target_spec(position: u64, forward: bool, interval: u64) -> u64 {
    if forward {
        if position + interval > u64::MAX { u64::MAX } else { (position + interval) as u64 }
    } else {
        if position >= interval { (position - interval) as u64 } else { 0 }
    }
}

pub fn seek_target(position: u64, forward: bool, interval: u64) -> (r: u64)
    ensures
        r == seek_target_spec(position, forward, interval),
{
    if forward {
        position.saturating_add(interval)
    } else if position >= interval {
        position - interval
    } else {
        0
    }
}

/// `"true"` or `"false"`.
pub open spec fn bool_seq(b: bool) -> Seq<char> {
    if b { seq!['t', 'r', 'u', 'e'] } else { seq!['f', 'a', 'l', 's', 'e'] }
}

/// The arguments of the frame-generating process: width, height, mode
/// (`1` for video), autoplay, mute and the file's path.
pub open spec fn spawn_args_spec(xsize: nat, ysize: nat, autoplay: bool, mute: bool, file: Seq<char>) -> Seq<Seq<char>> {
    seq![decimal(xsize), decimal(ysize), seq!['1'], bool_seq(autoplay), bool_seq(mute), file]
}

fn digit_string(d: usize) -> (s: String)
    requires
        d < 10,
    ensures
        s@ == seq![digit_char(d as nat)],
{
    proof {
        reveal_strlit("0"); reveal_strlit("1"); reveal_strlit("2"); reveal_strlit("3");
        reveal_strlit("4"); reveal_strlit("5"); reveal_strlit("6"); reveal_strlit("7");
        reveal_strlit("8"); reveal_strlit("9");
    }
    let t = if d == 0 { "0" } else if d == 1 { "1" } else if d == 2 { "2" } else if d == 3 { "3" }
        else if d == 4 { "4" } else if d == 5 { "5" } else if d == 6 { "6" } else if d == 7 { "7" }
        else if d == 8 { "8" } else { "9" };
    String::from_str(t)
}

/// `n` in decimal.
pub fn decimal_string(n: usize) -> (s: String)
    ensures
        s@ == decimal(n as nat),
    decreases n,
{
    if n < 10 {
        digit_string(n)
    } else {
        let mut s = decimal_string(n / 10);
        let d = digit_string(n % 10);
        s.append(d.as_str());
        s
    }
}

pub fn bool_string(b: bool) -> (s: String)
    ensures
        s@ == bool_seq(b),
{
    proof {
        reveal_strlit("true");
        reveal_strlit("false");
    }
    if b { String::from_str("true") } else { String::from_str("false") }
}

/// A video preview: the file, the character grid it is shown in, whether
/// playback is paused, whether its worker was started, and whether the
/// widget is gone.
pub struct VideoView {
    pub file: String,
    pub xsize: usize,
    pub ysize: usize,
    pub paused: bool,
    pub started: bool,
    pub dropped: bool,
}

impl VideoView {
    /// A preview of `file` in `xsize` by `ysize` cells. No worker runs
    /// until the first `start_video`.
    pub fn new_from_file(xsize: usize, ysize: usize, file: String) -> (v: VideoView)
        ensures
            v.file@ == file@,
            v.xsize == xsize,
            v.ysize == ysize,
            !v.paused,
            !v.started,
            !v.dropped,
    {
        VideoView { file, xsize, ysize, paused: false, started: false, dropped: false }
    }

    /// Starts the session on first use: gives the worker, holding the
    /// toggles as they are now. Later calls, and calls after teardown,
    /// give nothing.
    pub fn start_video(&mut self, playback: &PlaybackState) -> (r: Option<PreviewLoop>)
        ensures
            old(self).started || old(self).dropped ==> r is None && *final(self) == *old(self),
            !old(self).started && !old(self).dropped ==> r is Some
                && r->0@ == initial_loop(playback.autoplay, playback.mute)
                && final(self).started
                && final(self).file == old(self).file
                && final(self).xsize == old(self).xsize
                && final(self).ysize == old(self).ysize
                && final(self).paused == old(self).paused
                && !final(self).dropped,
    {
        if self.started || self.dropped {
            None
        } else {
            self.started = true;
            Some(PreviewLoop::new(playback.autoplay, playback.mute))
        }
    }

    /// The arguments the process is started with.
    pub fn spawn_args(&self, autoplay: bool, mute: bool) -> (args: Vec<String>)
        ensures
            args@.map_values(|s: String| s@)
                == spawn_args_spec(self.xsize as nat, self.ysize as nat, autoplay, mute, self.file@),
    {
        let a0 = decimal_string(self.xsize);
        let a1 = decimal_string(self.ysize);
        proof { reveal_strlit("1"); }
        let a2 = String::from_str("1");
        let a3 = bool_string(autoplay);
        let a4 = bool_string(mute);
        let a5 = self.file.clone();
        let mut args: Vec<String> = Vec::new();
        args.push(a0);
        args.push(a1);
        args.push(a2);
        args.push(a3);
        args.push(a4);
        args.push(a5);
        let ghost want = spawn_args_spec(self.xsize as nat, self.ysize as nat, autoplay, mute, self.file@);
        assert(args@.map_values(|s: String| s@) =~= want) by {
            assert(args@[0]@ == want[0]);
            assert(args@[1]@ == want[1]);
            assert(args@[2]@ == want[2]);
            assert(args@[3]@ == want[3]);
            assert(args@[4]@ == want[4]);
            assert(args@[5]@ == want[5]);
        }
        args
    }

    pub fn play(&self) -> (cmd: Command)
        ensures
            cmd == Command::Play,
    {
        Command::Play
    }

    pub fn pause(&self) -> (cmd: Command)
        ensures
            cmd == Command::Pause,
    {
        Command::Pause
    }

    pub fn quit(&self) -> (cmd: Command)
        ensures
            cmd == Command::Quit,
    {
        Command::Quit
    }

    pub fn seek_forward(&self) -> (cmd: Command)
        ensures
            cmd == Command::SeekForward,
    {
        Command::SeekForward
    }

    pub fn seek_backward(&self) -> (cmd: Command)
        ensures
            cmd == Command::SeekBackward,
    {
        Command::SeekBackward
    }

    /// Pauses a playing preview or plays a paused one; autoplay follows,
    /// so the next preview starts the same way.
    pub fn toggle_pause(&mut self, playback: &mut PlaybackState) -> (cmd: Command)
        ensures
            final(self).paused == !old(self).paused,
            final(self).file == old(self).file,
            final(self).started == old(self).started,
            final(self).dropped == old(self).dropped,
            *final(playback) == autoplay_toggled(*old(playback)),
            cmd == (if old(self).paused { Command::Play } else { Command::Pause }),
    {
        let cmd = if self.paused { self.play() } else { self.pause() };
        playback.toggle_autoplay();
        self.paused = !self.paused;
        cmd
    }

    pub fn autoplay(&self, playback: &PlaybackState) -> (b: bool)
        ensures
            b == playback.autoplay,
    {
        playback.autoplay
    }

    pub fn mute(&self, playback: &PlaybackState) -> (b: bool)
        ensures
            b == playback.mute,
    {
        playback.mute
    }

    pub fn toggle_autoplay(&self, playback: &mut PlaybackState)
        ensures
            *final(playback) == autoplay_toggled(*old(playback)),
    {
        playback.toggle_autoplay();
    }

    /// Flips mute; gives the command that tells this preview's process.
    pub fn toggle_mute(&self, playback: &mut PlaybackState) -> (cmd: Command)
        ensures
            *final(playback) == mute_toggled(*old(playback)),
            cmd == (if final(playback).mute { Command::Mute } else { Command::Unmute }),
    {
        playback.toggle_mute()
    }

    /// Teardown: the session is marked cancelled, so no process starts
    /// again; the command to send is `Quit`.
    pub fn close(&mut self) -> (cmd: Command)
        ensures
            final(self).dropped,
            final(self).started == old(self).started,
            cmd == Command::Quit,
    {
        self.dropped = true;
        Command::Quit
    }
}

} // verus!
