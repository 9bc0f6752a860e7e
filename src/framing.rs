//! Newline framing of requests and responses on byte-stream transports.
use vstd::prelude::*;
use vstd::utf8::encode_utf8;

verus! {

/// The complete non-empty lines of a text, without their newlines, and the
/// unfinished line that follows the last newline.
pub open spec fn split_lines(s: Seq<char>) -> (Seq<Seq<char>>, Seq<char>)
    decreases s.len(),
{
    if s.len() == 0 {
        (Seq::empty(), Seq::empty())
    } else {
        let (lines, cur) = split_lines(s.drop_last());
        if s.last() == '\n' {
            (
                if cur.len() > 0 {
                    lines.push(cur)
                } else {
                    lines
                },
                Seq::empty(),
            )
        } else {
            (lines, cur.push(s.last()))
        }
    }
}

/// Takes the complete requests out of what has been read so far: one per
/// non-empty line. Returns them and the number of characters that they and
/// their newlines take; the rest stays for the next read.
pub fn extract_requests(buf: &str) -> (r: (Vec<String>, usize))
    ensures
        r.0@.map_values(|f: String| f@) == split_lines(buf@).0,
        r.1 + split_lines(buf@).1.len() == buf@.len(),
        buf@.subrange(r.1 as int, buf@.len() as int) == split_lines(buf@).1,
{
    let n = buf.unicode_len();
    let mut frames: Vec<String> = Vec::new();
    let mut start: usize = 0;
    let mut i: usize = 0;
    assert(buf@.subrange(0, 0) =~= Seq::<char>::empty());
    while i < n
        invariant
            n == buf@.len(),
            start <= i <= n,
            frames@.map_values(|f: String| f@) == split_lines(buf@.subrange(0, i as int)).0,
            buf@.subrange(start as int, i as int) == split_lines(buf@.subrange(0, i as int)).1,
        decreases n - i,
    {
        let ghost pre = buf@.subrange(0, i as int);
        let ghost next = buf@.subrange(0, i + 1);
        assert(next.drop_last() =~= pre);
        assert(next.last() == buf@[i as int]);
        let c = buf.get_char(i);
        if c == '\n' {
            if i > start {
                let f = buf.substring_char(start, i).to_owned();
                frames.push(f);
            }
            i += 1;
            start = i;
            assert(buf@.subrange(start as int, i as int) =~= Seq::<char>::empty());
        } else {
            i += 1;
            assert(buf@.subrange(start as int, i as int) =~= buf@.subrange(
                start as int,
                i - 1,
            ).push(c));
        }
        assert(frames@.map_values(|f: String| f@) =~= split_lines(next).0);
    }
    assert(buf@.subrange(0, n as int) =~= buf@);
    (frames, start)
}

/// What a stream writer sends for one response: its text and a newline, or
/// nothing where there is no response.
pub fn frame_response(r: Option<String>) -> (t: String)
    ensures
        match r {
            Some(s) => t@ == s@ + "\n"@,
            None => t@.len() == 0,
        },
{
    match r {
        Some(s) => {
            let mut t = s;
            t.append("\n");
            t
        },
        None => String::new(),
    }
}

/// The longest unfinished request a connection may hold, in bytes of its
/// UTF-8 encoding.
pub const MAX_REQUEST_LEN: usize = 65536;

/// What a connection has read but not yet handed on: the start of a
/// request whose newline has not arrived.
pub struct FrameReader {
    pending: String,
}

impl View for FrameReader {
    type V = Seq<char>;

    closed spec fn view(&self) -> Seq<char> {
        self.pending@
    }
}

impl FrameReader {
    pub fn new() -> (r: FrameReader)
        ensures
            r@ == Seq::<char>::empty(),
    {
        FrameReader { pending: String::new() }
    }

    /// Adds what was just read and takes out every request that is now
    /// complete; the unfinished rest is kept.
    pub fn feed(&mut self, chunk: &str) -> (r: Vec<String>)
        ensures
            r@.map_values(|f: String| f@) == split_lines(old(self)@ + chunk@).0,
            final(self)@ == split_lines(old(self)@ + chunk@).1,
    {
        let mut all = self.pending.clone();
        all.append(chunk);
        let (frames, used) = extract_requests(all.as_str());
        let n = all.as_str().unicode_len();
        let rest = all.as_str().substring_char(used, n).to_owned();
        self.pending = rest;
        frames
    }

    /// The size of the unfinished request in bytes (a string in memory
    /// has fewer bytes than a `usize` counts).
    pub closed spec fn byte_len(&self) -> usize {
        encode_utf8(self.pending@).len() as usize
    }

    /// The unfinished request takes more bytes than a connection may hold;
    /// the transport then ends the connection.
    pub fn is_overfull(&self) -> (r: bool)
        ensures
            r == (self.byte_len() > MAX_REQUEST_LEN),
    {
        self.pending.as_str().len() > MAX_REQUEST_LEN
    }
}

} // verus!
