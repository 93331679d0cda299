//! The streaming parser for one remote command's output.
//!
//! Raw byte chunks go into the transcript unchanged; for line splitting they
//! are first decoded (and, under a pseudo-terminal, stripped of escape
//! sequences), then reassembled into logical lines. Every non-blank line
//! becomes one progress message: classified into a rebuild detail for
//! rebuild-class commands, tagged with the repository-sync phase otherwise.

use vstd::prelude::*;
use vstd::string::StrSliceExecFns;

use crate::classify::classify_spec;
use crate::classify::parse_rebuild_progress;
use crate::decode::ansi_stripped;
use crate::decode::lossy_of;
use crate::decode::strip_ansi;
use crate::decode::utf8_lossy;
use crate::lines::flush_of;
use crate::lines::line_views;
use crate::lines::lines_of;
use crate::lines::LineAssembler;
use crate::phase::PhaseView;
use crate::phase::ProgressUpdate;
use crate::phase::ProgressUpdateView;
use crate::phase::UpdatePhase;
use crate::text::str_trim;
use crate::text::trim_spec;

verus! {

/// The characters a chunk contributes to line splitting: under a
/// pseudo-terminal the escape sequences are stripped first. The raw
/// transcript keeps the original bytes either way.
pub open spec fn display_of(b: Seq<u8>, pty: bool) -> Seq<char> {
    if pty {
        lossy_of(ansi_stripped(b))
    } else {
        lossy_of(b)
    }
}

/// The progress message one completed, non-blank line produces: for a
/// rebuild-class command the trimmed line is classified into a detail (an
/// empty detail when no marker matches); otherwise the line is tagged with
/// the repository-sync phase.
pub open spec fn line_event(
    hostname: Seq<char>,
    is_rebuild: bool,
    line: Seq<char>,
) -> ProgressUpdateView {
    ProgressUpdateView {
        hostname: hostname,
        phase: if is_rebuild {
            PhaseView::Rebuilding {
                detail: match classify_spec(trim_spec(line)) {
                    Some(d) => d,
                    None => Seq::empty(),
                },
            }
        } else {
            PhaseView::SyncingRepo
        },
        output_line: Some(trim_spec(line)),
    }
}

/// The progress messages a batch of completed lines produces, in order: one
/// per line that is not blank after trimming.
pub open spec fn events_of_lines(
    hostname: Seq<char>,
    is_rebuild: bool,
    lines: Seq<Seq<char>>,
) -> Seq<ProgressUpdateView>
    decreases lines.len(),
{
    if lines.len() == 0 {
        Seq::empty()
    } else {
        let rest = events_of_lines(hostname, is_rebuild, lines.drop_last());
        if trim_spec(lines.last()).len() == 0 {
            rest
        } else {
            rest.push(line_event(hostname, is_rebuild, lines.last()))
        }
    }
}

/// The views of a batch of progress messages.
pub open spec fn event_views(v: Seq<ProgressUpdate>) -> Seq<ProgressUpdateView> {
    v.map_values(|e: ProgressUpdate| e@)
}

/// Parses the streamed output of one remote command into a transcript and
/// progress messages.
pub struct CommandStreamParser {
    hostname: String,
    is_rebuild: bool,
    assembler: LineAssembler,
    raw: Vec<u8>,
}

impl CommandStreamParser {
    /// The host the messages are attributed to.
    pub closed spec fn hostname(&self) -> Seq<char> {
        self.hostname@
    }

    /// Whether lines are classified into rebuild details.
    pub closed spec fn is_rebuild(&self) -> bool {
        self.is_rebuild
    }

    /// The display content fed to line splitting so far.
    pub closed spec fn fed(&self) -> Seq<char> {
        self.assembler.fed()
    }

    /// The raw transcript bytes so far.
    pub closed spec fn raw(&self) -> Seq<u8> {
        self.raw@
    }

    pub closed spec fn wf(&self) -> bool {
        self.assembler.wf()
    }

    pub fn new(hostname: String, is_rebuild: bool) -> (r: CommandStreamParser)
        ensures
            r.wf(),
            r.hostname() == hostname@,
            r.is_rebuild() == is_rebuild,
            r.fed() == Seq::<char>::empty(),
            r.raw() == Seq::<u8>::empty(),
    {
        CommandStreamParser {
            hostname,
            is_rebuild,
            assembler: LineAssembler::new(),
            raw: Vec::new(),
        }
    }

    /// Turns a batch of completed lines into progress messages.
    fn events_for_lines(&self, batch: &Vec<String>) -> (events: Vec<ProgressUpdate>)
        ensures
            event_views(events@) == events_of_lines(
                self.hostname(),
                self.is_rebuild(),
                line_views(batch@),
            ),
    {
        let mut events: Vec<ProgressUpdate> = Vec::new();
        proof {
            assert(event_views(events@) =~= events_of_lines(
                self.hostname(),
                self.is_rebuild(),
                line_views(batch@).take(0),
            ));
        }
        let mut i: usize = 0;
        while i < batch.len()
            invariant
                0 <= i <= batch@.len(),
                event_views(events@) == events_of_lines(
                    self.hostname(),
                    self.is_rebuild(),
                    line_views(batch@).take(i as int),
                ),
            decreases batch@.len() - i,
        {
            let ghost evs_before = events@;
            let line = &batch[i];
            let trimmed = str_trim(line.as_str());
            if trimmed.unicode_len() > 0 {
                let phase = if self.is_rebuild {
                    match parse_rebuild_progress(trimmed) {
                        Some(d) => UpdatePhase::Rebuilding { detail: d },
                        None => UpdatePhase::Rebuilding { detail: String::new() },
                    }
                } else {
                    UpdatePhase::SyncingRepo
                };
                events.push(
                    ProgressUpdate {
                        hostname: self.hostname.clone(),
                        phase,
                        output_line: Some(trimmed.to_owned()),
                    },
                );
            }
            proof {
                let lv = line_views(batch@);
                assert(lv.take(i + 1).drop_last() =~= lv.take(i as int));
                assert(lv.take(i + 1).last() == batch@[i as int]@);
                if trim_spec(batch@[i as int]@).len() == 0 {
                    assert(event_views(events@) =~= event_views(evs_before));
                } else {
                    assert(event_views(events@) =~= event_views(evs_before).push(
                        line_event(self.hostname(), self.is_rebuild(), batch@[i as int]@),
                    ));
                }
            }
            i = i + 1;
        }
        proof {
            assert(line_views(batch@).take(batch@.len() as int) =~= line_views(batch@));
        }
        events
    }

    /// Consumes one raw chunk: appends it to the transcript, feeds its display
    /// form to line reassembly, and returns the progress messages of the lines
    /// it completed.
    pub fn feed(&mut self, chunk: &[u8]) -> (events: Vec<ProgressUpdate>)
        requires
            old(self).wf(),
        ensures
            final(self).wf(),
            final(self).hostname() == old(self).hostname(),
            final(self).is_rebuild() == old(self).is_rebuild(),
            final(self).raw() == old(self).raw() + chunk@,
            final(self).fed() == old(self).fed() + display_of(chunk@, old(self).is_rebuild()),
            event_views(events@) == events_of_lines(
                old(self).hostname(),
                old(self).is_rebuild(),
                lines_of(final(self).fed()).skip(lines_of(old(self).fed()).len() as int),
            ),
    {
        let ghost raw0 = self.raw@;
        let mut k: usize = 0;
        while k < chunk.len()
            invariant
                0 <= k <= chunk@.len(),
                self.raw@ == raw0 + chunk@.take(k as int),
                self.assembler == old(self).assembler,
                self.hostname@ == old(self).hostname@,
                self.is_rebuild == old(self).is_rebuild,
            decreases chunk@.len() - k,
        {
            self.raw.push(chunk[k]);
            proof {
                assert(raw0 + chunk@.take(k + 1) =~= (raw0 + chunk@.take(k as int)).push(
                    chunk@[k as int],
                ));
            }
            k = k + 1;
        }
        proof {
            assert(raw0 + chunk@.take(chunk@.len() as int) =~= raw0 + chunk@);
        }
        let display: String = if self.is_rebuild {
            let stripped = strip_ansi(chunk);
            utf8_lossy(stripped.as_slice())
        } else {
            utf8_lossy(chunk)
        };
        let ghost fed0 = self.assembler.fed();
        let batch = self.assembler.feed(display.as_str());
        proof {
            let all = lines_of(self.assembler.fed());
            let before = lines_of(fed0);
            assert(all == before + line_views(batch@));
            assert((before + line_views(batch@)).skip(before.len() as int) =~= line_views(batch@));
        }
        self.events_for_lines(&batch)
    }

    /// Flushes any residual buffered content as one final line and returns its
    /// progress message; a blank residual produces none.
    pub fn finish(&mut self) -> (events: Vec<ProgressUpdate>)
        requires
            old(self).wf(),
        ensures
            final(self).wf(),
            final(self).hostname() == old(self).hostname(),
            final(self).is_rebuild() == old(self).is_rebuild(),
            final(self).raw() == old(self).raw(),
            event_views(events@) == events_of_lines(
                old(self).hostname(),
                old(self).is_rebuild(),
                seq![flush_of(old(self).fed())],
            ),
    {
        let last = self.assembler.take_residual();
        let batch: Vec<String> = vec![last];
        proof {
            assert(line_views(batch@) =~= seq![flush_of(old(self).fed())]);
        }
        self.events_for_lines(&batch)
    }

    /// The full transcript of the command so far, decoded from the raw bytes.
    pub fn transcript(&self) -> (r: String)
        ensures
            r@ == lossy_of(self.raw()),
    {
        utf8_lossy(self.raw.as_slice())
    }
}

} // verus!
