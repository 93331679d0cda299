//! Reassembly of raw output chunks into logical lines.
//!
//! Bytes arrive from a running remote command in arbitrary chunks. A line is
//! complete at the first `'\n'`; a trailing `'\r'` before it is dropped
//! (CRLF); a `'\r'` with more text after it on the same line overwrites what
//! came before, as a terminal would. The lines produced depend only on the
//! reassembled content, never on where the chunk boundaries fell.

use vstd::prelude::*;
use vstd::string::StrSliceExecFns;
use vstd::string::StringExecFns;

use crate::text::find_char;
use crate::text::lemma_find_char_from_properties;

verus! {

/// Index of the last `'\r'` in `t`, or `-1` if there is none.
pub open spec fn last_cr(t: Seq<char>) -> int
    decreases t.len(),
{
    if t.len() == 0 {
        -1
    } else if t.last() == '\r' {
        t.len() - 1
    } else {
        last_cr(t.drop_last())
    }
}

pub proof fn lemma_last_cr_properties(t: Seq<char>)
    ensures
        -1 <= last_cr(t) < t.len(),
        last_cr(t) >= 0 ==> t[last_cr(t)] == '\r',
        forall|j: int| last_cr(t) < j < t.len() ==> t[j] != '\r',
    decreases t.len(),
{
    if t.len() > 0 && t.last() != '\r' {
        lemma_last_cr_properties(t.drop_last());
        assert forall|j: int| last_cr(t) < j < t.len() implies t[j] != '\r' by {
            if j < t.len() - 1 {
                assert(t[j] == t.drop_last()[j]);
            }
        }
    }
}

pub proof fn lemma_last_cr_exact(t: Seq<char>, k: int)
    requires
        -1 <= k < t.len(),
        k >= 0 ==> t[k] == '\r',
        forall|j: int| k < j < t.len() ==> t[j] != '\r',
    ensures
        last_cr(t) == k,
    decreases t.len(),
{
    if t.len() > 0 && t.last() != '\r' {
        lemma_last_cr_exact(t.drop_last(), k);
    }
}

/// The line emitted for one raw segment (the text between two newlines): a
/// trailing `'\r'` is dropped, then only the text after the last remaining
/// `'\r'` survives.
pub open spec fn cook_segment(seg: Seq<char>) -> Seq<char> {
    let t = if seg.len() > 0 && seg.last() == '\r' {
        seg.drop_last()
    } else {
        seg
    };
    t.skip(last_cr(t) + 1)
}

/// The text of the current, not yet completed line after consuming `content`:
/// everything after the last `'\n'`.
pub open spec fn residual_of(content: Seq<char>) -> Seq<char>
    decreases content.len(),
{
    if content.len() == 0 {
        Seq::empty()
    } else if content.last() == '\n' {
        Seq::empty()
    } else {
        residual_of(content.drop_last()).push(content.last())
    }
}

/// The completed lines in `content`: one cooked segment per `'\n'`, in order.
pub open spec fn lines_of(content: Seq<char>) -> Seq<Seq<char>>
    decreases content.len(),
{
    if content.len() == 0 {
        Seq::empty()
    } else if content.last() == '\n' {
        lines_of(content.drop_last()).push(cook_segment(residual_of(content.drop_last())))
    } else {
        lines_of(content.drop_last())
    }
}

/// The final line flushed when the stream closes: the cooked residual.
pub open spec fn flush_of(content: Seq<char>) -> Seq<char> {
    cook_segment(residual_of(content))
}

pub proof fn lemma_residual_no_newline(s: Seq<char>)
    ensures
        forall|j: int| 0 <= j < residual_of(s).len() ==> residual_of(s)[j] != '\n',
    decreases s.len(),
{
    if s.len() > 0 && s.last() != '\n' {
        lemma_residual_no_newline(s.drop_last());
        let r0 = residual_of(s.drop_last());
        assert forall|j: int| 0 <= j < residual_of(s).len() implies residual_of(s)[j] != '\n' by {
            if j < r0.len() {
                assert(residual_of(s)[j] == r0[j]);
            } else {
                assert(residual_of(s)[j] == s.last());
            }
        }
    }
}

/// Content without a newline completes no line and is all residual.
pub proof fn lemma_no_newline(u: Seq<char>)
    requires
        forall|j: int| 0 <= j < u.len() ==> u[j] != '\n',
    ensures
        lines_of(u) == Seq::<Seq<char>>::empty(),
        residual_of(u) == u,
    decreases u.len(),
{
    if u.len() > 0 {
        assert(u.last() != '\n');
        lemma_no_newline(u.drop_last());
        assert(residual_of(u.drop_last()).push(u.last()) =~= u);
    }
}

/// Splitting consumed content anywhere: the lines of `s + t` are the lines of
/// `s` followed by what `t` completes on top of the residual of `s`.
pub proof fn lemma_lines_of_split(s: Seq<char>, t: Seq<char>)
    ensures
        lines_of(s + t) == lines_of(s) + lines_of(residual_of(s) + t),
        residual_of(s + t) == residual_of(residual_of(s) + t),
    decreases t.len(),
{
    lemma_residual_no_newline(s);
    if t.len() == 0 {
        assert(s + t =~= s);
        assert(residual_of(s) + t =~= residual_of(s));
        lemma_no_newline(residual_of(s));
        assert(lines_of(s) + lines_of(residual_of(s)) =~= lines_of(s));
    } else {
        let t0 = t.drop_last();
        let c = t.last();
        lemma_lines_of_split(s, t0);
        assert((s + t).drop_last() =~= s + t0);
        assert((s + t).last() == c);
        assert((residual_of(s) + t).drop_last() =~= residual_of(s) + t0);
        assert((residual_of(s) + t).last() == c);
        if c == '\n' {
            assert(lines_of(s + t) == lines_of(s + t0).push(
                cook_segment(residual_of(s + t0)),
            ));
            assert(lines_of(residual_of(s) + t) == lines_of(residual_of(s) + t0).push(
                cook_segment(residual_of(residual_of(s) + t0)),
            ));
            assert(lines_of(s) + lines_of(residual_of(s) + t) =~= lines_of(s) + lines_of(
                residual_of(s) + t0,
            ) + seq![cook_segment(residual_of(residual_of(s) + t0))]);
            assert(lines_of(s + t0).push(cook_segment(residual_of(s + t0))) =~= lines_of(s + t0)
                + seq![cook_segment(residual_of(s + t0))]);
        }
    }
}

/// Consuming one whole line: a newline-free segment followed by `'\n'` and
/// the rest yields the cooked segment, then whatever the rest yields.
pub proof fn lemma_lines_of_line(seg: Seq<char>, rest: Seq<char>)
    requires
        forall|j: int| 0 <= j < seg.len() ==> seg[j] != '\n',
    ensures
        lines_of(seg + seq!['\n'] + rest) == seq![cook_segment(seg)] + lines_of(rest),
        residual_of(seg + seq!['\n'] + rest) == residual_of(rest),
{
    let s = seg + seq!['\n'];
    lemma_lines_of_split(s, rest);
    assert(seg + seq!['\n'] + rest =~= s + rest);
    assert(s.last() == '\n');
    assert(s.drop_last() =~= seg);
    lemma_no_newline(seg);
    assert(lines_of(s) =~= seq![cook_segment(seg)]);
    assert(residual_of(s) =~= Seq::<char>::empty());
    assert(residual_of(s) + rest =~= rest);
    assert(lines_of(s) + lines_of(rest) =~= seq![cook_segment(seg)] + lines_of(rest));
}

/// The views of a batch of emitted lines.
pub open spec fn line_views(v: Seq<String>) -> Seq<Seq<char>> {
    v.map_values(|s: String| s@)
}

/// A terminal overwrite: a carriage return with more text after it on the
/// same line discards everything before it, so the segment `pre + '\r' +
/// post` emits the same line as `post` alone.
pub proof fn lemma_carriage_return_overwrites(pre: Seq<char>, post: Seq<char>)
    requires
        post.len() > 0,
    ensures
        cook_segment(pre + seq!['\r'] + post) == cook_segment(post),
{
    let whole = pre + seq!['\r'] + post;
    assert(whole.len() == pre.len() + 1 + post.len());
    if post.last() == '\r' {
        let t = whole.drop_last();
        let tp = post.drop_last();
        assert(whole.last() == '\r');
        assert(t =~= pre + seq!['\r'] + tp);
        lemma_last_cr_properties(tp);
        let k = last_cr(tp);
        if k >= 0 {
            lemma_last_cr_exact(t, pre.len() + 1 + k);
            assert(t.skip(pre.len() + 1 + k + 1) =~= tp.skip(k + 1));
        } else {
            lemma_last_cr_exact(t, pre.len() as int);
            assert(t.skip(pre.len() as int + 1) =~= tp.skip(0));
        }
    } else {
        assert(whole.last() == post.last());
        lemma_last_cr_properties(post);
        let k = last_cr(post);
        if k >= 0 {
            lemma_last_cr_exact(whole, pre.len() + 1 + k);
            assert(whole.skip(pre.len() + 1 + k + 1) =~= post.skip(k + 1));
        } else {
            lemma_last_cr_exact(whole, pre.len() as int);
            assert(whole.skip(pre.len() as int + 1) =~= post.skip(0));
        }
    }
}

/// The content a sequence of chunks reassembles to.
pub open spec fn concat_chunks(chunks: Seq<Seq<char>>) -> Seq<char>
    decreases chunks.len(),
{
    if chunks.len() == 0 {
        Seq::empty()
    } else {
        concat_chunks(chunks.drop_last()) + chunks.last()
    }
}

/// Chunk-boundary independence: two chunkings that reassemble to identical
/// content complete exactly the same lines and flush the same final line.
/// [`LineAssembler::feed`] ties an assembler to this statement: the lines it
/// emits are exactly `lines_of` of its concatenated input.
pub proof fn lemma_chunk_boundary_independence(a: Seq<Seq<char>>, b: Seq<Seq<char>>)
    requires
        concat_chunks(a) == concat_chunks(b),
    ensures
        lines_of(concat_chunks(a)) == lines_of(concat_chunks(b)),
        flush_of(concat_chunks(a)) == flush_of(concat_chunks(b)),
{
}

/// Cooks one raw segment: drops a trailing `'\r'`, then keeps only the text
/// after the last remaining `'\r'`.
fn cook_line(seg: &str) -> (r: String)
    ensures
        r@ == cook_segment(seg@),
{
    let n = seg.unicode_len();
    let end = if n > 0 && seg.get_char(n - 1) == '\r' {
        n - 1
    } else {
        n
    };
    let ghost t = if seg@.len() > 0 && seg@.last() == '\r' {
        seg@.drop_last()
    } else {
        seg@
    };
    proof {
        assert(t =~= seg@.take(end as int));
    }
    let mut i: usize = end;
    while i > 0 && seg.get_char(i - 1) != '\r'
        invariant
            0 <= i <= end <= n,
            n == seg@.len(),
            t == seg@.take(end as int),
            forall|j: int| i <= j < end ==> seg@[j] != '\r',
        decreases i,
    {
        i = i - 1;
    }
    proof {
        assert(forall|j: int| i <= j < t.len() ==> t[j] == seg@[j]);
        if i > 0 {
            lemma_last_cr_exact(t, i - 1);
        } else {
            lemma_last_cr_exact(t, -1);
        }
        assert(seg@.subrange(i as int, end as int) =~= t.skip(last_cr(t) + 1));
    }
    seg.substring_char(i, end).to_owned()
}

/// Reassembles chunks of command output into logical lines.
///
/// Feeding chunks and collecting the returned batches yields exactly
/// [`lines_of`] of the concatenated content, whatever the chunk boundaries;
/// [`Self::take_residual`] yields the final flushed line.
pub struct LineAssembler {
    buffer: String,
    fed: Ghost<Seq<char>>,
}

impl LineAssembler {
    /// All content fed so far.
    pub closed spec fn fed(&self) -> Seq<char> {
        self.fed@
    }

    /// The buffer holds exactly the text after the last consumed newline.
    pub closed spec fn wf(&self) -> bool {
        self.buffer@ == residual_of(self.fed@)
    }

    pub fn new() -> (r: LineAssembler)
        ensures
            r.wf(),
            r.fed() == Seq::<char>::empty(),
    {
        let r = LineAssembler { buffer: String::new(), fed: Ghost(Seq::empty()) };
        proof {
            assert(residual_of(Seq::<char>::empty()) =~= Seq::<char>::empty());
        }
        r
    }

    /// Consumes one chunk and returns the lines it completes, in order.
    pub fn feed(&mut self, chunk: &str) -> (lines: Vec<String>)
        requires
            old(self).wf(),
        ensures
            final(self).wf(),
            final(self).fed() == old(self).fed() + chunk@,
            lines_of(old(self).fed()) + line_views(lines@) == lines_of(final(self).fed()),
    {
        let ghost fed0 = self.fed@;
        self.buffer.append(chunk);
        proof {
            self.fed@ = self.fed@ + chunk@;
            lemma_lines_of_split(fed0, chunk@);
        }
        let mut lines: Vec<String> = Vec::new();
        proof {
            assert(line_views(lines@) =~= Seq::<Seq<char>>::empty());
            assert(lines_of(fed0) + line_views(lines@) + lines_of(self.buffer@) =~= lines_of(
                self.fed@,
            ));
        }
        loop
            invariant_except_break
                self.fed@ == fed0 + chunk@,
                lines_of(fed0) + line_views(lines@) + lines_of(self.buffer@) == lines_of(
                    self.fed@,
                ),
                residual_of(self.buffer@) == residual_of(self.fed@),
            ensures
                self.fed@ == fed0 + chunk@,
                lines_of(fed0) + line_views(lines@) == lines_of(self.fed@),
                self.buffer@ == residual_of(self.fed@),
            decreases self.buffer@.len(),
        {
            let n = self.buffer.unicode_len();
            proof {
                lemma_find_char_from_properties(self.buffer@, '\n', 0);
            }
            let p = find_char(self.buffer.as_str(), '\n', 0);
            if p == n {
                proof {
                    lemma_no_newline(self.buffer@);
                    assert(lines_of(fed0) + line_views(lines@) + lines_of(self.buffer@) =~= lines_of(
                        fed0,
                    ) + line_views(lines@));
                }
                break;
            }
            let seg = self.buffer.as_str().substring_char(0, p);
            let cooked = cook_line(seg);
            let ghost seg_view = seg@;
            let ghost buf_before = self.buffer@;
            let ghost lines_before = lines@;
            lines.push(cooked);
            let rest = self.buffer.as_str().substring_char(p + 1, n).to_owned();
            self.buffer = rest;
            proof {
                assert(buf_before =~= seg_view + seq!['\n'] + self.buffer@);
                lemma_lines_of_line(seg_view, self.buffer@);
                assert(line_views(lines@) =~= line_views(lines_before).push(cook_segment(seg_view)));
                assert(lines_of(fed0) + line_views(lines_before) + (seq![
                    cook_segment(seg_view),
                ] + lines_of(self.buffer@)) =~= lines_of(fed0) + line_views(lines@) + lines_of(
                    self.buffer@,
                ));
            }
        }
        lines
    }

    /// Flushes the residual buffered content as the final line; the assembler
    /// is empty afterwards. The caller suppresses it when blank.
    pub fn take_residual(&mut self) -> (r: String)
        requires
            old(self).wf(),
        ensures
            r@ == flush_of(old(self).fed()),
            final(self).wf(),
            final(self).fed() == Seq::<char>::empty(),
    {
        let r = cook_line(self.buffer.as_str());
        self.buffer = String::new();
        proof {
            self.fed@ = Seq::empty();
            assert(residual_of(Seq::<char>::empty()) =~= Seq::<char>::empty());
        }
        r
    }
}

} // verus!
