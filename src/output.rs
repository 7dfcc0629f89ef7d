//! The server's console output, relayed line by line to the interface.
use vstd::prelude::*;

verus! {

/// The event name under which each line reaches the interface.
pub const LOG_EVENT: &'static str = "server-log";

/// Which output stream of the server a line came from.
#[derive(Clone, Copy, Debug, PartialEq, Eq, Structural)]
pub enum Stream {
    Stdout,
    Stderr,
}

/// One line of the server's output, as delivered to the sink.
pub struct OutputLine {
    pub stream: Stream,
    pub text: String,
}

/// The lines delivered for a stream's reads, in order: each line that
/// decoded, and nothing for one that did not.
pub open spec fn relayed_spec(reads: Seq<Option<Seq<char>>>) -> Seq<Seq<char>>
    decreases reads.len(),
{
    if reads.len() == 0 {
        Seq::empty()
    } else {
        let before = relayed_spec(reads.drop_last());
        match reads.last() {
            Some(line) => before.push(line),
            None => before,
        }
    }
}

/// What a reader delivers for one read of `stream`: the line, where it
/// decoded; a line that did not decode is skipped and the reading goes on.
pub fn relay_line(stream: Stream, read: Option<String>) -> (r: Option<OutputLine>)
    ensures
        match read {
            Some(line) => r matches Some(out) && out.stream == stream && out.text@ == line@,
            None => r is None,
        },
{
    match read {
        Some(text) => Some(OutputLine { stream, text }),
        None => None,
    }
}

/// Relays a stream's reads in order: what the sink receives for them.
pub fn relay_lines(stream: Stream, reads: &Vec<Option<String>>) -> (r: Vec<OutputLine>)
    ensures
        r@.len() == relayed_spec(texts(reads@)).len(),
        forall|i: int|
            0 <= i < r@.len() ==> (#[trigger] r@[i]).stream == stream && r@[i].text@
                == relayed_spec(texts(reads@))[i],
{
    let mut out: Vec<OutputLine> = Vec::new();
    let mut k: usize = 0;
    while k < reads.len()
        invariant
            k <= reads@.len(),
            out@.len() == relayed_spec(texts(reads@.subrange(0, k as int))).len(),
            forall|i: int|
                0 <= i < out@.len() ==> (#[trigger] out@[i]).stream == stream && out@[i].text@
                    == relayed_spec(texts(reads@.subrange(0, k as int)))[i],
        decreases reads.len() - k,
    {
        let read = match &reads[k] {
            Some(line) => Some(line.clone()),
            None => None,
        };
        assert(texts(reads@.subrange(0, k + 1)).drop_last() =~= texts(reads@.subrange(0, k as int)));
        assert(texts(reads@.subrange(0, k + 1)).last() == opt_text(reads@[k as int]));
        assert(opt_text(read) == opt_text(reads@[k as int]));
        match relay_line(stream, read) {
            Some(line) => {
                out.push(line);
            },
            None => {},
        }
        k = k + 1;
    }
    assert(reads@.subrange(0, reads@.len() as int) =~= reads@);
    out
}

pub open spec fn texts(reads: Seq<Option<String>>) -> Seq<Option<Seq<char>>> {
    reads.map_values(|o: Option<String>| opt_text(o))
}

pub open spec fn opt_text(o: Option<String>) -> Option<Seq<char>> {
    match o {
        Some(s) => Some(s@),
        None => None,
    }
}

} // verus!
