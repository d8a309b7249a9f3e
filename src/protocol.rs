//! The line protocol spoken with the frame-generating process: one-letter
//! commands on its input, blank-line-terminated frames on its output.

use vstd::prelude::*;

verus! {

/// Why a preview, or one of its frames, failed.
#[derive(Clone, Copy, Debug, PartialEq, Eq, Structural)]
pub enum MediaError {
    /// The process could not be started.
    SpawnError,
    /// A pipe to the process failed.
    IoError,
    /// A line of a frame was not valid text; that frame is dropped.
    DecodeError,
    /// A shared lock was poisoned by a panic.
    LockPoisoned,
    /// The control channel lost its other end.
    ChannelClosed,
}

/// A playback command for the frame-generating process.
#[derive(Clone, Copy, Debug, PartialEq, Eq, Structural)]
pub enum Command {
    Play,
    Pause,
    Quit,
    SeekForward,
    SeekBackward,
    Mute,
    Unmute,
}

impl Command {
    /// The character that stands for the command on the process's input.
    pub open spec fn code_spec(self) -> char {
        match self {
            Command::Play => 'p',
            Command::Pause => 'a',
            Command::Quit => 'q',
            Command::SeekForward => '>',
            Command::SeekBackward => '<',
            Command::Mute => 'm',
            Command::Unmute => 'u',
        }
    }

    /// The command a character stands for, if any.
    pub open spec fn from_code_spec(c: char) -> Option<Command> {
        if c == 'p' {
            Some(Command::Play)
        } else if c == 'a' {
            Some(Command::Pause)
        } else if c == 'q' {
            Some(Command::Quit)
        } else if c == '>' {
            Some(Command::SeekForward)
        } else if c == '<' {
            Some(Command::SeekBackward)
        } else if c == 'm' {
            Some(Command::Mute)
        } else if c == 'u' {
            Some(Command::Unmute)
        } else {
            None
        }
    }

    pub fn code(&self) -> (c: char)
        ensures
            c == self.code_spec(),
    {
        match self {
            Command::Play => 'p',
            Command::Pause => 'a',
            Command::Quit => 'q',
            Command::SeekForward => '>',
            Command::SeekBackward => '<',
            Command::Mute => 'm',
            Command::Unmute => 'u',
        }
    }

    pub fn from_code(c: char) -> (r: Option<Command>)
        ensures
            r == Self::from_code_spec(c),
    {
        if c == 'p' {
            Some(Command::Play)
        } else if c == 'a' {
            Some(Command::Pause)
        } else if c == 'q' {
            Some(Command::Quit)
        } else if c == '>' {
            Some(Command::SeekForward)
        } else if c == '<' {
            Some(Command::SeekBackward)
        } else if c == 'm' {
            Some(Command::Mute)
        } else if c == 'u' {
            Some(Command::Unmute)
        } else {
            None
        }
    }

    /// The line written to the process's input: the code, then a newline.
    pub fn line(&self) -> (s: String)
        ensures
            s@ == seq![self.code_spec(), '\n'],
    {
        match self {
            Command::Play => {
                proof { reveal_strlit("p\n"); }
                String::from_str("p\n")
            },
            Command::Pause => {
                proof { reveal_strlit("a\n"); }
                String::from_str("a\n")
            },
            Command::Quit => {
                proof { reveal_strlit("q\n"); }
                String::from_str("q\n")
            },
            Command::SeekForward => {
                proof { reveal_strlit(">\n"); }
                String::from_str(">\n")
            },
            Command::SeekBackward => {
                proof { reveal_strlit("<\n"); }
                String::from_str("<\n")
            },
            Command::Mute => {
                proof { reveal_strlit("m\n"); }
                String::from_str("m\n")
            },
            Command::Unmute => {
                proof { reveal_strlit("u\n"); }
                String::from_str("u\n")
            },
        }
    }
}

/// Each command is read back as itself from its code.
pub proof fn lemma_code_round_trip(c: Command)
    ensures
        Command::from_code_spec(c.code_spec()) == Some(c),
{
}

/// One line of the process's output, its newline removed.
pub enum Line {
    Text(String),
    /// The bytes of the line were not valid UTF-8.
    Undecodable,
}

impl View for Line {
    type V = Option<Seq<char>>;

    open spec fn view(&self) -> Option<Seq<char>> {
        match self {
            Line::Text(s) => Some(s@),
            Line::Undecodable => None,
        }
    }
}

/// The text of a frame's lines.
pub open spec fn frame_view(v: Vec<String>) -> Seq<Seq<char>> {
    v@.map_values(|s: String| s@)
}

/// What one fed line gives: nothing, a complete frame, or a dropped one.
pub open spec fn emitted_view(r: Option<Result<Vec<String>, MediaError>>) -> Option<Result<Seq<Seq<char>>, MediaError>> {
    match r {
        Some(Ok(v)) => Some(Ok(frame_view(v))),
        Some(Err(e)) => Some(Err(e)),
        None => None,
    }
}

/// The lines of the frame being read, and whether one of them failed to
/// decode.
pub struct ParserView {
    pub acc: Seq<Seq<char>>,
    pub broken: bool,
}

pub open spec fn empty_parser() -> ParserView {
    ParserView { acc: Seq::empty(), broken: false }
}

/// One line fed to the parser. A non-empty line joins the frame; an empty
/// one ends it, which gives the frame if it has lines and none was
/// undecodable, a decode error if one was, and nothing if it has no lines.
pub open spec fn feed_spec(p: ParserView, line: Option<Seq<char>>) -> (ParserView, Option<Result<Seq<Seq<char>>, MediaError>>) {
    match line {
        None => (ParserView { acc: p.acc, broken: true }, None),
        Some(s) => if s.len() > 0 {
            (ParserView { acc: p.acc.push(s), broken: p.broken }, None)
        } else if p.broken {
            (empty_parser(), Some(Err(MediaError::DecodeError)))
        } else if p.acc.len() > 0 {
            (empty_parser(), Some(Ok(p.acc)))
        } else {
            (empty_parser(), None)
        },
    }
}

/// The parser after `lines`, and what it gave, in order.
pub open spec fn parse_spec(lines: Seq<Option<Seq<char>>>) -> (ParserView, Seq<Result<Seq<Seq<char>>, MediaError>>)
    decreases lines.len(),
{
    if lines.len() == 0 {
        (empty_parser(), Seq::empty())
    } else {
        let prev = parse_spec(lines.drop_last());
        let next = feed_spec(prev.0, lines.last());
        (next.0, match next.1 {
            Some(f) => prev.1.push(f),
            None => prev.1,
        })
    }
}

/// Lines that end no frame, left at the end of the stream, give nothing:
/// a frame cut short is dropped, never shown.
pub proof fn lemma_unterminated_tail_discarded(lines: Seq<Option<Seq<char>>>, tail: Seq<Option<Seq<char>>>)
    requires
        forall|i: int| 0 <= i < tail.len() ==> (#[trigger] tail[i] is Some ==> tail[i]->0.len() > 0),
    ensures
        parse_spec(lines + tail).1 == parse_spec(lines).1,
    decreases tail.len(),
{
    if tail.len() > 0 {
        let init = tail.drop_last();
        assert(forall|i: int| 0 <= i < init.len() ==> #[trigger] init[i] == tail[i]);
        lemma_unterminated_tail_discarded(lines, init);
        assert((lines + tail).drop_last() =~= lines + init);
        assert((lines + tail).last() == tail[tail.len() - 1]);
    } else {
        assert(lines + tail =~= lines);
    }
}

/// Reassembles frames from the lines of the process's output.
pub struct FrameParser {
    pub lines: Vec<String>,
    pub broken: bool,
}

impl View for FrameParser {
    type V = ParserView;

    open spec fn view(&self) -> ParserView {
        ParserView { acc: frame_view(self.lines), broken: self.broken }
    }
}

impl FrameParser {
    pub fn new() -> (p: FrameParser)
        ensures
            p@ == empty_parser(),
    {
        let p = FrameParser { lines: Vec::new(), broken: false };
        assert(p@.acc =~= Seq::<Seq<char>>::empty());
        p
    }

    /// Feeds one line; a frame, or its decode error, comes out on the
    /// empty line that ends it.
    pub fn feed(&mut self, line: Line) -> (r: Option<Result<Vec<String>, MediaError>>)
        ensures
            (final(self)@, emitted_view(r)) == feed_spec(old(self)@, line@),
    {
        match line {
            Line::Undecodable => {
                self.broken = true;
                None
            },
            Line::Text(s) => {
                if s.as_str().unicode_len() > 0 {
                    self.lines.push(s);
                    proof {
                        assert(frame_view(self.lines) =~= frame_view(old(self).lines).push(s@));
                    }
                    None
                } else if self.broken {
                    *self = FrameParser::new();
                    Some(Err(MediaError::DecodeError))
                } else if self.lines.len() > 0 {
                    let mut frame: Vec<String> = Vec::new();
                    std::mem::swap(&mut frame, &mut self.lines);
                    *self = FrameParser::new();
                    Some(Ok(frame))
                } else {
                    *self = FrameParser::new();
                    None
                }
            },
        }
    }

    /// Resets the parser when the stream ends: a frame being read is
    /// dropped.
    pub fn discard(&mut self)
        ensures
            final(self)@ == empty_parser(),
    {
        *self = FrameParser::new();
    }
}

/// The frames of a whole stream of lines, in order, with a decode error
/// in place of each frame that had an undecodable line. What follows the
/// last empty line is dropped.
pub fn parse_lines(lines: Vec<Line>) -> (frames: Vec<Result<Vec<String>, MediaError>>)
    ensures
        frames@.map_values(|f: Result<Vec<String>, MediaError>| emitted_view(Some(f))->0)
            == parse_spec(lines@.map_values(|l: Line| l@)).1,
{
    let ghost all = lines@.map_values(|l: Line| l@);
    let ghost n = lines@.len();
    let mut rest = lines;
    let mut parser = FrameParser::new();
    let mut frames: Vec<Result<Vec<String>, MediaError>> = Vec::new();
    let ghost mut i: int = 0;
    while rest.len() > 0
        invariant
            0 <= i <= n,
            rest@.len() == n - i,
            forall|k: int| 0 <= k < rest@.len() ==> #[trigger] rest@[k]@ == all[i + k],
            all.len() == n,
            parser@ == parse_spec(all.take(i)).0,
            frames@.map_values(|f: Result<Vec<String>, MediaError>| emitted_view(Some(f))->0)
                == parse_spec(all.take(i)).1,
        decreases rest@.len(),
    {
        let line = rest.remove(0);
        let ghost prev = parse_spec(all.take(i));
        proof {
            assert(all.take(i + 1).drop_last() =~= all.take(i));
            assert(all.take(i + 1).last() == line@);
        }
        let out = parser.feed(line);
        match out {
            Some(f) => {
                let ghost old_frames = frames@;
                frames.push(f);
                proof {
                    assert(frames@.map_values(|f: Result<Vec<String>, MediaError>| emitted_view(Some(f))->0)
                        =~= old_frames.map_values(|f: Result<Vec<String>, MediaError>| emitted_view(Some(f))->0).push(emitted_view(out)->0));
                }
            },
            None => {},
        }
        proof {
            i = i + 1;
        }
    }
    proof {
        assert(all.take(i) =~= all);
    }
    frames
}

} // verus!
