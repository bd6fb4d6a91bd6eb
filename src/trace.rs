//! Frames of an error trace, and the trace that orders them.

use vstd::prelude::*;
use vstd::string::*;

verus! {

/// Location in the source where a [`Frame`] was captured.
#[derive(Clone, Copy, Debug)]
pub struct Frame {
    /// Name of the source file.
    pub file: &'static str,
    /// Line number in that file.
    pub line: u32,
    /// Absolute path of the enclosing module.
    pub module: &'static str,
}

/// Ordered frames, the earliest captured first.
#[derive(Clone, Debug)]
pub struct Trace(Vec<Frame>);

impl View for Trace {
    type V = Seq<Frame>;

    closed spec fn view(&self) -> Seq<Frame> {
        self.0@
    }
}

/// The character of a decimal digit.
pub open spec fn digit_char(d: nat) -> char {
    if d == 0 {
        '0'
    } else if d == 1 {
        '1'
    } else if d == 2 {
        '2'
    } else if d == 3 {
        '3'
    } else if d == 4 {
        '4'
    } else if d == 5 {
        '5'
    } else if d == 6 {
        '6'
    } else if d == 7 {
        '7'
    } else if d == 8 {
        '8'
    } else {
        '9'
    }
}

/// Decimal notation of `n`, without leading zeros.
pub open spec fn decimal(n: nat) -> Seq<char>
    decreases n,
{
    if n < 10 {
        seq![digit_char(n)]
    } else {
        decimal(n / 10).push(digit_char(n % 10))
    }
}

/// Text of a frame: its module, then on the next line `  at <file>:<line>`.
pub open spec fn frame_text(f: Frame) -> Seq<char> {
    f.module@ + seq!['\n', ' ', ' ', 'a', 't', ' '] + f.file@ + seq![':'] + decimal(f.line as nat)
}

/// The line that opens the text of every trace.
pub open spec fn trace_header() -> Seq<char> {
    seq!['e', 'r', 'r', 'o', 'r', ' ', 't', 'r', 'a', 'c', 'e', ':']
}

/// Text of a trace: the header, then each frame on lines of its own, in order.
pub open spec fn trace_text(frames: Seq<Frame>) -> Seq<char>
    decreases frames.len(),
{
    if frames.len() == 0 {
        trace_header()
    } else {
        trace_text(frames.drop_last()) + seq!['\n'] + frame_text(frames.last())
    }
}

/// The one-character string of a decimal digit.
fn digit_str(d: u32) -> (r: &'static str)
    requires
        d < 10,
    ensures
        r@ == seq![digit_char(d as nat)],
{
    let s = if d == 0 {
        "0"
    } else if d == 1 {
        "1"
    } else if d == 2 {
        "2"
    } else if d == 3 {
        "3"
    } else if d == 4 {
        "4"
    } else if d == 5 {
        "5"
    } else if d == 6 {
        "6"
    } else if d == 7 {
        "7"
    } else if d == 8 {
        "8"
    } else {
        "9"
    };
    proof {
        reveal_strlit("0");
        reveal_strlit("1");
        reveal_strlit("2");
        reveal_strlit("3");
        reveal_strlit("4");
        reveal_strlit("5");
        reveal_strlit("6");
        reveal_strlit("7");
        reveal_strlit("8");
        reveal_strlit("9");
    }
    assert(s@ =~= seq![digit_char(d as nat)]);
    s
}

/// Decimal notation of `n`.
fn decimal_string(n: u32) -> (r: String)
    ensures
        r@ == decimal(n as nat),
    decreases n,
{
    if n < 10 {
        String::from_str(digit_str(n))
    } else {
        let mut s = decimal_string(n / 10);
        s.append(digit_str(n % 10));
        s
    }
}

impl Frame {
    /// Renders this frame as `<module>\n  at <file>:<line>`.
    pub fn to_string(&self) -> (r: String)
        ensures
            r@ == frame_text(*self),
    {
        let mut s = String::from_str(self.module);
        s.append("\n  at ");
        s.append(self.file);
        s.append(":");
        let line = decimal_string(self.line);
        s.append(line.as_str());
        proof {
            reveal_strlit("\n  at ");
            reveal_strlit(":");
        }
        assert(s@ =~= frame_text(*self));
        s
    }
}

impl Trace {
    /// Builds a trace out of the given frames, in their order.
    pub fn new(frames: Vec<Frame>) -> (r: Trace)
        ensures
            r@ == frames@,
    {
        Trace(frames)
    }

    /// Appends a frame after the last one.
    pub fn push(&mut self, f: Frame)
        ensures
            final(self)@ == old(self)@.push(f),
    {
        self.0.push(f);
    }

    /// Number of frames.
    pub fn len(&self) -> (r: usize)
        ensures
            r == self@.len(),
    {
        self.0.len()
    }

    /// Whether the trace holds no frame.
    pub fn is_empty(&self) -> (r: bool)
        ensures
            r == (self@.len() == 0),
    {
        self.0.len() == 0
    }

    /// The frames, earliest first.
    pub fn frames(&self) -> (r: &Vec<Frame>)
        ensures
            r@ == self@,
    {
        &self.0
    }

    /// Renders the header `error trace:` followed by each frame on lines of
    /// its own, in order.
    pub fn to_string(&self) -> (r: String)
        ensures
            r@ == trace_text(self@),
    {
        let mut s = String::from_str("error trace:");
        proof {
            reveal_strlit("error trace:");
            assert(s@ =~= trace_text(self@.subrange(0, 0)));
        }
        let mut i: usize = 0;
        while i < self.0.len()
            invariant
                i <= self@.len(),
                s@ == trace_text(self@.subrange(0, i as int)),
            decreases self@.len() - i,
        {
            s.append("\n");
            let text = self.0[i].to_string();
            s.append(text.as_str());
            proof {
                reveal_strlit("\n");
                let before = self@.subrange(0, i as int);
                let after = self@.subrange(0, i + 1);
                assert(after.drop_last() =~= before);
                assert(s@ =~= trace_text(after));
            }
            i = i + 1;
        }
        assert(self@.subrange(0, self@.len() as int) =~= self@);
        s
    }
}

impl std::ops::Deref for Trace {
    type Target = Vec<Frame>;

    /// The frames, earliest first.
    fn deref(&self) -> (r: &Vec<Frame>)
        ensures
            r@ == self@,
    {
        &self.0
    }
}

impl std::ops::DerefMut for Trace {
    /// The frames, earliest first, for changing in place.
    fn deref_mut(&mut self) -> (r: &mut Vec<Frame>)
        ensures
            r@ == old(self)@,
            final(self)@ == final(r)@,
    {
        &mut self.0
    }
}

} // verus!
