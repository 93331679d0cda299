//! The progress table: hostname to latest phase and accumulated transcript.
//!
//! Pipelines emit progress messages; one owner applies them here in arrival
//! order, and a renderer reads the table. Applying a message replaces the
//! host's phase and appends its output line. Because no pipeline emits a
//! message after a terminal one for its host, a host that the table shows as
//! `Success` or `Failed` never changes again; that is proved below.

use vstd::prelude::*;
use vstd::string::StrSliceExecFns;
use vstd::string::StringExecFns;

use crate::host::token_hostname;
use crate::phase::PhaseView;
use crate::phase::ProgressUpdate;
use crate::phase::ProgressUpdateView;
use crate::phase::ServerProgress;
use crate::phase::ServerProgressView;
use crate::text::find_char;
use crate::text::str_eq;
use crate::text::lemma_find_char_from_properties;

verus! {

/// One message applied to one entry: the phase is replaced; an output line,
/// when present, is appended with a newline.
pub open spec fn entry_apply(p: ServerProgressView, e: ProgressUpdateView) -> ServerProgressView {
    ServerProgressView {
        phase: e.phase,
        full_output: match e.output_line {
            Some(l) => p.full_output + l + "\n"@,
            None => p.full_output,
        },
    }
}

/// One message applied to the table: only the named host's entry changes.
pub open spec fn table_apply(
    hosts: Seq<Seq<char>>,
    entries: Seq<ServerProgressView>,
    e: ProgressUpdateView,
) -> Seq<ServerProgressView> {
    entries.map(
        |i: int, p: ServerProgressView|
            if hosts[i] == e.hostname {
                entry_apply(p, e)
            } else {
                p
            },
    )
}

/// A stream of messages applied in order.
pub open spec fn table_run(
    hosts: Seq<Seq<char>>,
    entries: Seq<ServerProgressView>,
    es: Seq<ProgressUpdateView>,
) -> Seq<ServerProgressView>
    decreases es.len(),
{
    if es.len() == 0 {
        entries
    } else {
        table_run(hosts, table_apply(hosts, entries, es.first()), es.skip(1))
    }
}

/// How pipelines emit: no message follows a terminal message for the same
/// host.
pub open spec fn no_event_after_terminal(es: Seq<ProgressUpdateView>) -> bool {
    forall|i: int, j: int|
        0 <= i < j < es.len() && es[i].hostname == es[j].hostname
            ==> !es[i].phase.is_terminal()
}

pub proof fn lemma_table_run_len(
    hosts: Seq<Seq<char>>,
    entries: Seq<ServerProgressView>,
    es: Seq<ProgressUpdateView>,
)
    ensures
        table_run(hosts, entries, es).len() == entries.len(),
    decreases es.len(),
{
    if es.len() > 0 {
        lemma_table_run_len(hosts, table_apply(hosts, entries, es.first()), es.skip(1));
    }
}

/// Running a concatenation is running the parts one after the other.
pub proof fn lemma_table_run_split(
    hosts: Seq<Seq<char>>,
    entries: Seq<ServerProgressView>,
    a: Seq<ProgressUpdateView>,
    b: Seq<ProgressUpdateView>,
)
    ensures
        table_run(hosts, entries, a + b) == table_run(hosts, table_run(hosts, entries, a), b),
    decreases a.len(),
{
    if a.len() == 0 {
        assert(a + b =~= b);
    } else {
        assert((a + b).first() == a.first());
        assert((a + b).skip(1) =~= a.skip(1) + b);
        lemma_table_run_split(hosts, table_apply(hosts, entries, a.first()), a.skip(1), b);
    }
}

/// An entry whose host no message names does not change.
pub proof fn lemma_untouched_entry_fixed(
    hosts: Seq<Seq<char>>,
    entries: Seq<ServerProgressView>,
    es: Seq<ProgressUpdateView>,
    i: int,
)
    requires
        hosts.len() == entries.len(),
        0 <= i < entries.len(),
        forall|j: int| 0 <= j < es.len() ==> es[j].hostname != hosts[i],
    ensures
        table_run(hosts, entries, es)[i] == entries[i],
    decreases es.len(),
{
    if es.len() > 0 {
        let entries1 = table_apply(hosts, entries, es.first());
        assert(entries1[i] == entries[i]);
        assert(forall|j: int| 0 <= j < es.skip(1).len() ==> es.skip(1)[j] == es[j + 1]);
        lemma_untouched_entry_fixed(hosts, entries1, es.skip(1), i);
    }
}

/// An entry can only show a terminal phase after a terminal message named its
/// host.
pub proof fn lemma_terminal_needs_event(
    hosts: Seq<Seq<char>>,
    entries: Seq<ServerProgressView>,
    es: Seq<ProgressUpdateView>,
    i: int,
)
    requires
        hosts.len() == entries.len(),
        0 <= i < entries.len(),
        !entries[i].phase.is_terminal(),
        table_run(hosts, entries, es)[i].phase.is_terminal(),
    ensures
        exists|j: int|
            0 <= j < es.len() && es[j].hostname == hosts[i] && es[j].phase.is_terminal(),
    decreases es.len(),
{
    let entries1 = table_apply(hosts, entries, es.first());
    if entries1[i].phase.is_terminal() {
        assert(es.first().hostname == hosts[i] && es.first().phase.is_terminal());
        assert(es[0].hostname == hosts[i] && es[0].phase.is_terminal());
    } else {
        lemma_terminal_needs_event(hosts, entries1, es.skip(1), i);
        let j = choose|j: int|
            0 <= j < es.skip(1).len() && es.skip(1)[j].hostname == hosts[i] && es.skip(
                1,
            )[j].phase.is_terminal();
        assert(es[j + 1].hostname == hosts[i] && es[j + 1].phase.is_terminal());
    }
}

/// Terminal-state monotonicity: when messages arrive as pipelines emit them
/// (none follows a terminal message for the same host) and every entry starts
/// non-terminal, an entry that shows a terminal phase after any prefix of the
/// stream stands unchanged at the end of the stream.
pub proof fn lemma_terminal_monotone(
    hosts: Seq<Seq<char>>,
    entries: Seq<ServerProgressView>,
    es: Seq<ProgressUpdateView>,
    p: int,
    i: int,
)
    requires
        hosts.len() == entries.len(),
        no_event_after_terminal(es),
        forall|k: int| 0 <= k < entries.len() ==> !entries[k].phase.is_terminal(),
        0 <= p <= es.len(),
        0 <= i < entries.len(),
        table_run(hosts, entries, es.take(p))[i].phase.is_terminal(),
    ensures
        table_run(hosts, entries, es)[i] == table_run(hosts, entries, es.take(p))[i],
{
    let pre = es.take(p);
    let post = es.skip(p);
    assert(es =~= pre + post);
    lemma_table_run_split(hosts, entries, pre, post);
    let entries_p = table_run(hosts, entries, pre);
    lemma_table_run_len(hosts, entries, pre);
    lemma_terminal_needs_event(hosts, entries, pre, i);
    let j = choose|j: int|
        0 <= j < pre.len() && pre[j].hostname == hosts[i] && pre[j].phase.is_terminal();
    assert forall|q: int| 0 <= q < post.len() implies post[q].hostname != hosts[i] by {
        if post[q].hostname == hosts[i] {
            assert(es[j] == pre[j]);
            assert(es[p + q] == post[q]);
            assert(es[j].hostname == es[p + q].hostname && es[j].phase.is_terminal());
            assert(false);
        }
    }
    lemma_untouched_entry_fixed(hosts, entries_p, post, i);
}

/// The live progress table, written through [`ProgressTable::apply`] by one
/// owner and read by the renderer.
pub struct ProgressTable {
    hosts: Vec<String>,
    entries: Vec<ServerProgress>,
}

impl ProgressTable {
    /// The hostnames, in insertion order.
    pub closed spec fn hosts_view(&self) -> Seq<Seq<char>> {
        self.hosts@.map_values(|s: String| s@)
    }

    /// The entries, aligned with [`Self::hosts_view`].
    pub closed spec fn entries_view(&self) -> Seq<ServerProgressView> {
        self.entries@.map_values(|p: ServerProgress| p@)
    }

    /// One entry per host, hostnames unique.
    pub open spec fn wf(&self) -> bool {
        &&& self.hosts_view().len() == self.entries_view().len()
        &&& forall|i: int, j: int|
            0 <= i < j < self.hosts_view().len() ==> self.hosts_view()[i] != self.hosts_view()[j]
    }

    pub open spec fn contains_host(&self, h: Seq<char>) -> bool {
        exists|i: int| 0 <= i < self.hosts_view().len() && self.hosts_view()[i] == h
    }

    pub fn len(&self) -> (r: usize)
        requires
            self.wf(),
        ensures
            r == self.hosts_view().len(),
            r == self.entries_view().len(),
    {
        self.hosts.len()
    }

    /// The hostname of the entry at `i`.
    pub fn host_at(&self, i: usize) -> (r: String)
        requires
            self.wf(),
            i < self.hosts_view().len(),
        ensures
            r@ == self.hosts_view()[i as int],
    {
        self.hosts[i].clone()
    }

    /// The progress record at `i`, for rendering.
    pub fn progress_at(&self, i: usize) -> (r: &ServerProgress)
        requires
            self.wf(),
            i < self.entries_view().len(),
        ensures
            r@ == self.entries_view()[i as int],
    {
        &self.entries[i]
    }

    /// The progress record of `hostname`, when the table has it.
    pub fn find(&self, hostname: &str) -> (r: Option<&ServerProgress>)
        requires
            self.wf(),
        ensures
            match r {
                Some(p) => self.contains_host(hostname@) && exists|i: int|
                    0 <= i < self.hosts_view().len() && self.hosts_view()[i] == hostname@
                        && p@ == self.entries_view()[i],
                None => !self.contains_host(hostname@),
            },
    {
        let n = self.hosts.len();
        let mut i: usize = 0;
        while i < n && !str_eq(self.hosts[i].as_str(), hostname)
            invariant
                0 <= i <= n,
                n == self.hosts@.len(),
                self.wf(),
                forall|j: int| 0 <= j < i ==> self.hosts_view()[j] != hostname@,
            decreases n - i,
        {
            i = i + 1;
        }
        if i < n {
            proof {
                assert(self.hosts_view()[i as int] == self.hosts@[i as int]@);
                assert(self.hosts_view()[i as int] == hostname@);
                assert(self.entries_view()[i as int] == self.entries@[i as int]@);
            }
            Some(&self.entries[i])
        } else {
            None
        }
    }

    /// Whether every host has reached a terminal phase.
    pub fn all_terminal(&self) -> (r: bool)
        requires
            self.wf(),
        ensures
            r == forall|i: int|
                0 <= i < self.entries_view().len() ==> self.entries_view()[i].phase.is_terminal(),
    {
        let n = self.entries.len();
        let mut i: usize = 0;
        while i < n && self.entries[i].phase.is_terminal()
            invariant
                0 <= i <= n,
                n == self.entries@.len(),
                forall|j: int| 0 <= j < i ==> self.entries_view()[j].phase.is_terminal(),
            decreases n - i,
        {
            proof {
                assert(self.entries_view()[i as int] == self.entries@[i as int]@);
            }
            i = i + 1;
        }
        proof {
            if i < n {
                assert(self.entries_view()[i as int] == self.entries@[i as int]@);
                assert(!self.entries_view()[i as int].phase.is_terminal());
            }
        }
        i == n
    }

    /// Applies one progress message: replaces the named host's phase and
    /// appends its output line; a message for an unknown host is ignored.
    pub fn apply(&mut self, event: &ProgressUpdate)
        requires
            old(self).wf(),
        ensures
            final(self).wf(),
            final(self).hosts_view() == old(self).hosts_view(),
            final(self).entries_view() == table_apply(
                old(self).hosts_view(),
                old(self).entries_view(),
                event@,
            ),
    {
        let n = self.hosts.len();
        let mut i: usize = 0;
        while i < n && !(self.hosts[i] == event.hostname)
            invariant
                0 <= i <= n,
                n == self.hosts@.len(),
                self.wf(),
                self == old(self),
                forall|j: int| 0 <= j < i ==> self.hosts_view()[j] != event.hostname@,
            decreases n - i,
        {
            i = i + 1;
        }
        if i < n {
            let mut output = self.entries[i].full_output.clone();
            if let Some(line) = &event.output_line {
                output.append(line.as_str());
                output.append("\n");
            }
            let updated = ServerProgress { phase: event.phase.clone_phase(), full_output: output };
            let ghost updated_view = updated@;
            self.entries[i] = updated;
            proof {
                assert(updated_view == entry_apply(old(self).entries_view()[i as int], event@));
                assert(old(self).hosts_view()[i as int] == old(self).hosts@[i as int]@);
                assert(old(self).hosts_view()[i as int] == event.hostname@);
                assert forall|j: int| 0 <= j < self.hosts@.len() && j != i implies old(
                    self,
                ).hosts_view()[j] != event.hostname@ by {
                    if j > i {
                        assert(old(self).hosts_view()[i as int] != old(self).hosts_view()[j]);
                    }
                }
                assert(self.entries_view() =~= table_apply(
                    old(self).hosts_view(),
                    old(self).entries_view(),
                    event@,
                ));
            }
        } else {
            proof {
                assert(self.entries_view() =~= table_apply(
                    old(self).hosts_view(),
                    old(self).entries_view(),
                    event@,
                ));
            }
        }
    }
}

/// `h` is the hostname of one of the first `bound` selected tokens.
pub open spec fn drawn_host(h: Seq<char>, servers: Seq<String>, bound: int) -> bool {
    exists|k: int| 0 <= k < bound && token_hostname(servers[k]@) == h
}

/// Every hostname in `hosts` is the hostname of one of the first `bound`
/// selected tokens.
pub open spec fn hosts_drawn_from(hosts: Seq<Seq<char>>, servers: Seq<String>, bound: int) -> bool {
    forall|w: int|
        0 <= w < hosts.len() ==> #[trigger] drawn_host(hosts[w], servers, bound)
}

pub proof fn lemma_hosts_drawn_from_mono(
    hosts: Seq<Seq<char>>,
    servers: Seq<String>,
    a: int,
    b: int,
)
    requires
        hosts_drawn_from(hosts, servers, a),
        a <= b,
    ensures
        hosts_drawn_from(hosts, servers, b),
{
    assert forall|w: int|
        0 <= w < hosts.len() implies #[trigger] drawn_host(hosts[w], servers, b) by {
        assert(drawn_host(hosts[w], servers, a));
        let k = choose|k: int| 0 <= k < a && token_hostname(servers[k]@) == hosts[w];
        assert(0 <= k < b && token_hostname(servers[k]@) == hosts[w]);
    }
}

/// One `Pending` entry per selected host token, keyed by the text before the
/// token's first `:` (the whole token when it has none); duplicate hostnames
/// collapse into one entry.
pub fn create_progress_map(servers: &Vec<String>) -> (r: ProgressTable)
    ensures
        r.wf(),
        forall|k: int|
            0 <= k < servers@.len() ==> r.contains_host(token_hostname(#[trigger] servers@[k]@)),
        hosts_drawn_from(r.hosts_view(), servers@, servers@.len() as int),
        forall|i: int|
            0 <= i < r.entries_view().len() ==> (#[trigger] r.entries_view()[i]).phase
                == PhaseView::Pending && r.entries_view()[i].full_output.len() == 0,
{
    let mut table = ProgressTable { hosts: Vec::new(), entries: Vec::new() };
    let mut i: usize = 0;
    while i < servers.len()
        invariant
            0 <= i <= servers@.len(),
            table.wf(),
            forall|k: int|
                0 <= k < i ==> table.contains_host(token_hostname(#[trigger] servers@[k]@)),
            hosts_drawn_from(table.hosts_view(), servers@, i as int),
            forall|k: int|
                0 <= k < table.entries_view().len() ==> (#[trigger] table.entries_view()[k]).phase
                    == PhaseView::Pending && table.entries_view()[k].full_output.len() == 0,
        decreases servers@.len() - i,
    {
        let token = &servers[i];
        proof {
            lemma_find_char_from_properties(token@, ':', 0);
        }
        let p = find_char(token.as_str(), ':', 0);
        let hostname = token.as_str().substring_char(0, p).to_owned();
        let ghost key = hostname@;
        proof {
            assert(key == token_hostname(servers@[i as int]@));
        }
        let n = table.hosts.len();
        let mut j: usize = 0;
        while j < n && !(table.hosts[j] == hostname)
            invariant
                0 <= j <= n,
                n == table.hosts@.len(),
                hostname@ == key,
                forall|k: int| 0 <= k < j ==> table.hosts_view()[k] != key,
            decreases n - j,
        {
            proof {
                assert(table.hosts_view()[j as int] == table.hosts@[j as int]@);
            }
            j = j + 1;
        }
        let ghost table_before = table;
        if j == n {
            table.hosts.push(hostname);
            table.entries.push(ServerProgress::new());
            proof {
                assert(table.hosts_view() =~= table_before.hosts_view().push(key));
                assert(table.entries_view() =~= table_before.entries_view().push(
                    table.entries@[n as int]@,
                ));
                assert forall|a: int, b: int|
                    0 <= a < b < table.hosts_view().len() implies table.hosts_view()[a]
                    != table.hosts_view()[b] by {
                    if b == n {
                        assert(table.hosts_view()[a] == table_before.hosts_view()[a]);
                        assert(table_before.hosts_view()[a] != key);
                    } else {
                        assert(table.hosts_view()[a] == table_before.hosts_view()[a]);
                        assert(table.hosts_view()[b] == table_before.hosts_view()[b]);
                    }
                }
                assert forall|w: int|
                    0 <= w < table.hosts_view().len() implies #[trigger] drawn_host(
                    table.hosts_view()[w],
                    servers@,
                    i + 1,
                ) by {
                    if w < n {
                        assert(table.hosts_view()[w] == table_before.hosts_view()[w]);
                        assert(drawn_host(table_before.hosts_view()[w], servers@, i as int));
                        let k = choose|k: int|
                            0 <= k < i && token_hostname(servers@[k]@) == table_before.hosts_view()[w];
                        assert(0 <= k < i + 1 && token_hostname(servers@[k]@)
                            == table.hosts_view()[w]);
                    } else {
                        assert(table.hosts_view()[w] == key);
                        assert(0 <= i < i + 1 && token_hostname(servers@[i as int]@)
                            == table.hosts_view()[w]);
                    }
                }
                assert forall|k: int| 0 <= k < i + 1 implies table.contains_host(
                    token_hostname(#[trigger] servers@[k]@),
                ) by {
                    if k < i {
                        let w = choose|w: int|
                            0 <= w < table_before.hosts_view().len()
                                && table_before.hosts_view()[w] == token_hostname(servers@[k]@);
                        assert(table.hosts_view()[w] == token_hostname(servers@[k]@));
                    } else {
                        assert(table.hosts_view()[n as int] == token_hostname(servers@[k]@));
                    }
                }
            }
        } else {
            proof {
                lemma_hosts_drawn_from_mono(table.hosts_view(), servers@, i as int, i + 1);
                assert(table.hosts_view()[j as int] == table.hosts@[j as int]@);
                assert(table.hosts_view()[j as int] == key);
                assert forall|k: int| 0 <= k < i + 1 implies table.contains_host(
                    token_hostname(#[trigger] servers@[k]@),
                ) by {
                    if k == i {
                        assert(table.hosts_view()[j as int] == token_hostname(servers@[k]@));
                    }
                }
            }
        }
        i = i + 1;
    }
    table
}

} // verus!
