//! The arguments of the frame-generating process:
//! `<width> <height> <mode> <autoplay> <mute> <path>`.

use vstd::prelude::*;
use crate::escape::{decimal, digit_char};
use crate::playback::{bool_seq, spawn_args_spec};

verus! {

pub open spec fn is_digit(c: char) -> bool {
    '0' <= c && c <= '9'
}

pub open spec fn digit_value(c: char) -> nat {
    (c as u32 - '0' as u32) as nat
}

/// The number that a run of decimal digits writes.
pub open spec fn digits_value(s: Seq<char>) -> nat
    decreases s.len(),
{
    if s.len() == 0 {
        0
    } else {
        digits_value(s.drop_last()) * 10 + digit_value(s.last())
    }
}

/// The digits of a numeral, after one optional leading `+`.
pub open spec fn unsigned_digits(s: Seq<char>) -> Seq<char> {
    if s.len() > 0 && s[0] == '+' { s.drop_first() } else { s }
}

pub open spec fn all_digits(s: Seq<char>) -> bool {
    forall|i: int| 0 <= i < s.len() ==> is_digit(#[trigger] s[i])
}

/// A `usize` written in decimal, as std's `parse` reads one: an optional
/// `+`, then at least one digit, and a value that fits.
pub open spec fn parse_usize_spec(s: Seq<char>) -> Option<usize> {
    let d = unsigned_digits(s);
    if d.len() > 0 && all_digits(d) && digits_value(d) <= usize::MAX {
        Some(digits_value(d) as usize)
    } else {
        None
    }
}

pub open spec fn parse_bool_spec(s: Seq<char>) -> Option<bool> {
    if s == bool_seq(true) {
        Some(true)
    } else if s == bool_seq(false) {
        Some(false)
    } else {
        None
    }
}

/// Why the arguments could not be read.
#[derive(Clone, Copy, Debug, PartialEq, Eq, Structural)]
pub enum ArgError {
    /// Fewer than six arguments.
    Missing,
    /// The width, height or mode is not a number.
    BadNumber,
    /// Autoplay or mute is neither `true` nor `false`.
    BadBool,
}

/// What the process was asked to show, and how.
pub struct PreviewArgs {
    pub xsize: usize,
    pub ysize: usize,
    pub video: bool,
    pub autoplay: bool,
    pub mute: bool,
    pub path: String,
}

pub struct ArgsView {
    pub xsize: usize,
    pub ysize: usize,
    pub video: bool,
    pub autoplay: bool,
    pub mute: bool,
    pub path: Seq<char>,
}

impl View for PreviewArgs {
    type V = ArgsView;

    open spec fn view(&self) -> ArgsView {
        ArgsView {
            xsize: self.xsize,
            ysize: self.ysize,
            video: self.video,
            autoplay: self.autoplay,
            mute: self.mute,
            path: self.path@,
        }
    }
}

/// The arguments read in order; mode `1` is video, any other number an
/// image. Arguments after the sixth are ignored.
pub open spec fn parse_args_spec(args: Seq<Seq<char>>) -> Result<ArgsView, ArgError> {
    if args.len() < 6 {
        Err(ArgError::Missing)
    } else if parse_usize_spec(args[0]) is None || parse_usize_spec(args[1]) is None
        || parse_usize_spec(args[2]) is None {
        Err(ArgError::BadNumber)
    } else if parse_bool_spec(args[3]) is None || parse_bool_spec(args[4]) is None {
        Err(ArgError::BadBool)
    } else {
        Ok(ArgsView {
            xsize: parse_usize_spec(args[0])->0,
            ysize: parse_usize_spec(args[1])->0,
            video: parse_usize_spec(args[2])->0 == 1,
            autoplay: parse_bool_spec(args[3])->0,
            mute: parse_bool_spec(args[4])->0,
            path: args[5],
        })
    }
}

proof fn lemma_digits_grow(d: Seq<char>, j: int)
    requires
        0 <= j < d.len(),
    ensures
        digits_value(d.take(j + 1)) >= digits_value(d.take(j)),
        digits_value(d.take(j + 1)) == digits_value(d.take(j)) * 10 + digit_value(d[j]),
{
    assert(d.take(j + 1).drop_last() =~= d.take(j));
}

/// Reads a decimal `usize`.
pub fn parse_usize(s: &str) -> (r: Option<usize>)
    ensures
        r == parse_usize_spec(s@),
{
    let n = s.unicode_len();
    let mut i: usize = 0;
    if n > 0 && s.get_char(0) == '+' {
        i = 1;
    }
    let start = i;
    let ghost d = unsigned_digits(s@);
    proof {
        assert(d.len() == n - start);
        assert(forall|k: int| 0 <= k < d.len() ==> #[trigger] d[k] == s@[start + k]);
    }
    if start == n {
        return None;
    }
    let mut v: usize = 0;
    let mut overflow = false;
    while i < n
        invariant
            n == s@.len(),
            d == unsigned_digits(s@),
            d.len() == n - start,
            forall|k: int| 0 <= k < d.len() ==> #[trigger] d[k] == s@[start + k],
            start <= i <= n,
            all_digits(d.take(i - start)),
            !overflow ==> v == digits_value(d.take(i - start)),
            overflow ==> digits_value(d.take(i - start)) > usize::MAX,
        decreases n - i,
    {
        let c = s.get_char(i);
        if !('0' <= c && c <= '9') {
            assert(!is_digit(d[i - start]));
            return None;
        }
        let dv = (c as u32 - '0' as u32) as usize;
        proof {
            lemma_digits_grow(d, i - start);
            assert(d.take(i - start + 1).drop_last() =~= d.take(i - start));
            assert forall|k: int| 0 <= k < i - start + 1 implies is_digit(#[trigger] d.take(i - start + 1)[k]) by {
                if k < i - start {
                    assert(d.take(i - start + 1)[k] == d.take(i - start)[k]);
                }
            }
        }
        if !overflow {
            match v.checked_mul(10) {
                Some(m) => match m.checked_add(dv) {
                    Some(a) => v = a,
                    None => overflow = true,
                },
                None => overflow = true,
            }
        }
        i = i + 1;
    }
    proof {
        assert(d.take(n - start) =~= d);
    }
    if overflow {
        None
    } else {
        Some(v)
    }
}

/// Reads `true` or `false`.
pub fn parse_bool(s: &str) -> (r: Option<bool>)
    ensures
        r == parse_bool_spec(s@),
{
    let n = s.unicode_len();
    if n == 4 && s.get_char(0) == 't' && s.get_char(1) == 'r' && s.get_char(2) == 'u'
        && s.get_char(3) == 'e' {
        assert(s@ =~= bool_seq(true));
        Some(true)
    } else if n == 5 && s.get_char(0) == 'f' && s.get_char(1) == 'a' && s.get_char(2) == 'l'
        && s.get_char(3) == 's' && s.get_char(4) == 'e' {
        assert(s@ =~= bool_seq(false));
        Some(false)
    } else {
        proof {
            if s@ == bool_seq(true) {
                assert(s@[0] == 't' && s@[1] == 'r' && s@[2] == 'u' && s@[3] == 'e');
            }
            if s@ == bool_seq(false) {
                assert(s@[0] == 'f' && s@[1] == 'a' && s@[2] == 'l' && s@[3] == 's' && s@[4] == 'e');
            }
        }
        None
    }
}

/// Reads the six arguments of the process, its own name left out.
pub fn parse_args(args: &Vec<String>) -> (r: Result<PreviewArgs, ArgError>)
    ensures
        match r {
            Ok(a) => parse_args_spec(args@.map_values(|s: String| s@)) == Ok::<ArgsView, ArgError>(a@),
            Err(e) => parse_args_spec(args@.map_values(|s: String| s@)) == Err::<ArgsView, ArgError>(e),
        },
{
    let ghost v = args@.map_values(|s: String| s@);
    if args.len() < 6 {
        return Err(ArgError::Missing);
    }
    let xsize = parse_usize(args[0].as_str());
    let ysize = parse_usize(args[1].as_str());
    let mode = parse_usize(args[2].as_str());
    let (xsize, ysize, mode) = match (xsize, ysize, mode) {
        (Some(x), Some(y), Some(m)) => (x, y, m),
        _ => return Err(ArgError::BadNumber),
    };
    let autoplay = parse_bool(args[3].as_str());
    let mute = parse_bool(args[4].as_str());
    let (autoplay, mute) = match (autoplay, mute) {
        (Some(a), Some(m)) => (a, m),
        _ => return Err(ArgError::BadBool),
    };
    let a = PreviewArgs { xsize, ysize, video: mode == 1, autoplay, mute, path: args[5].clone() };
    assert(a@ == parse_args_spec(v)->Ok_0);
    Ok(a)
}

proof fn lemma_digit_char(d: nat)
    requires
        d < 10,
    ensures
        is_digit(digit_char(d)),
        digit_value(digit_char(d)) == d,
        digit_char(d) != '+',
{
}

proof fn lemma_decimal_digits(n: nat)
    ensures
        decimal(n).len() > 0,
        all_digits(decimal(n)),
        digits_value(decimal(n)) == n,
    decreases n,
{
    if n < 10 {
        lemma_digit_char(n);
        assert(seq![digit_char(n)].drop_last() =~= Seq::<char>::empty());
        assert(digits_value(Seq::<char>::empty()) == 0);
        assert(digits_value(seq![digit_char(n)]) == n);
    } else {
        lemma_decimal_digits(n / 10);
        lemma_digit_char(n % 10);
        let d = decimal(n);
        let h = decimal(n / 10);
        assert(d == h + seq![digit_char(n % 10)]);
        assert(d.drop_last() =~= h);
        assert(d.last() == digit_char(n % 10));
        assert((n / 10) * 10 + n % 10 == n);
        assert(digits_value(d) == digits_value(h) * 10 + digit_value(d.last()));
        assert forall|i: int| 0 <= i < d.len() implies is_digit(#[trigger] d[i]) by {
            if i < h.len() {
                assert(d[i] == h[i]);
            }
        }
    }
}

/// A number written in decimal reads back as itself.
pub proof fn lemma_decimal_round_trip(n: usize)
    ensures
        parse_usize_spec(decimal(n as nat)) == Some(n),
{
    lemma_decimal_digits(n as nat);
    assert(is_digit(decimal(n as nat)[0]));
}

/// The process reads back the arguments it was started with: the grid,
/// video mode, both toggles and the path.
pub proof fn lemma_spawn_args_round_trip(xsize: usize, ysize: usize, autoplay: bool, mute: bool, file: Seq<char>)
    ensures
        parse_args_spec(spawn_args_spec(xsize as nat, ysize as nat, autoplay, mute, file))
            == Ok::<ArgsView, ArgError>(ArgsView { xsize, ysize, video: true, autoplay, mute, path: file }),
{
    lemma_decimal_round_trip(xsize);
    lemma_decimal_round_trip(ysize);
    lemma_decimal_round_trip(1);
    assert(decimal(1) =~= seq!['1']);
}

} // verus!
