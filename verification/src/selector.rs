//! Selection state for the host-picking screen: a cursor over the discovered
//! hosts and a checkbox per host. The drawing and the key decoding live
//! outside; every state change is here, with its contract.

use vstd::prelude::*;

verus! {

/// The tokens chosen on `servers` under `selected`, in order.
pub open spec fn chosen_tokens(servers: Seq<String>, selected: Seq<bool>) -> Seq<Seq<char>>
    decreases servers.len(),
{
    if servers.len() == 0 {
        Seq::empty()
    } else {
        let rest = chosen_tokens(servers.drop_last(), selected.drop_last());
        if selected[servers.len() - 1] {
            rest.push(servers.last()@)
        } else {
            rest
        }
    }
}

/// The host-selection screen's state: the discovered host tokens, which are
/// ticked, and where the cursor stands.
pub struct ServerSelector {
    pub servers: Vec<String>,
    pub selected: Vec<bool>,
    pub cursor: usize,
}

impl ServerSelector {
    /// One checkbox per host; the cursor stays on the list.
    pub open spec fn wf(&self) -> bool {
        &&& self.selected@.len() == self.servers@.len()
        &&& (self.servers@.len() > 0 ==> self.cursor() < self.servers@.len())
    }

    /// Where the cursor stands.
    pub open spec fn cursor(&self) -> int {
        self.cursor as int
    }

    /// A fresh selector: nothing ticked, cursor on the first host.
    pub fn new(servers: Vec<String>) -> (r: ServerSelector)
        ensures
            r.wf(),
            r.servers@ == servers@,
            r.selected@.len() == servers@.len(),
            forall|i: int| 0 <= i < r.selected@.len() ==> !r.selected@[i],
            r.cursor() == 0,
    {
        let n = servers.len();
        let mut selected: Vec<bool> = Vec::new();
        let mut i: usize = 0;
        while i < n
            invariant
                0 <= i <= n,
                selected@.len() == i,
                forall|j: int| 0 <= j < i ==> !selected@[j],
            decreases n - i,
        {
            selected.push(false);
            i = i + 1;
        }
        ServerSelector { servers, selected, cursor: 0 }
    }

    /// Moves the cursor down, wrapping at the end of the list.
    pub fn next(&mut self)
        requires
            old(self).wf(),
            old(self).servers@.len() > 0,
        ensures
            final(self).wf(),
            final(self).servers@ == old(self).servers@,
            final(self).selected@ == old(self).selected@,
            final(self).cursor() == (old(self).cursor() + 1) % (old(self).servers@.len() as int),
    {
        let n = self.servers.len();
        self.cursor = (self.cursor + 1) % n;
    }

    /// Moves the cursor up, wrapping at the top of the list.
    pub fn previous(&mut self)
        requires
            old(self).wf(),
            old(self).servers@.len() > 0,
        ensures
            final(self).wf(),
            final(self).servers@ == old(self).servers@,
            final(self).selected@ == old(self).selected@,
            final(self).cursor() == if old(self).cursor() == 0 {
                old(self).servers@.len() - 1
            } else {
                old(self).cursor() - 1
            },
    {
        if self.cursor == 0 {
            self.cursor = self.servers.len() - 1;
        } else {
            self.cursor = self.cursor - 1;
        }
    }

    /// Ticks or unticks the host under the cursor.
    pub fn toggle_selected(&mut self)
        requires
            old(self).wf(),
            old(self).servers@.len() > 0,
        ensures
            final(self).wf(),
            final(self).servers@ == old(self).servers@,
            final(self).cursor() == old(self).cursor(),
            final(self).selected@ == old(self).selected@.update(
                old(self).cursor(),
                !old(self).selected@[old(self).cursor()],
            ),
    {
        let i = self.cursor;
        let v = self.selected[i];
        self.selected[i] = !v;
    }

    /// Ticks every host, or unticks every host when all are already ticked.
    pub fn toggle_all(&mut self)
        requires
            old(self).wf(),
        ensures
            final(self).wf(),
            final(self).servers@ == old(self).servers@,
            final(self).cursor() == old(self).cursor(),
            final(self).selected@.len() == old(self).selected@.len(),
            forall|i: int|
                0 <= i < final(self).selected@.len() ==> final(self).selected@[i] == !(forall|
                    j: int,
                |
                    0 <= j < old(self).selected@.len() ==> old(self).selected@[j]),
    {
        let n = self.selected.len();
        let mut k: usize = 0;
        let mut all = true;
        while k < n
            invariant
                0 <= k <= n,
                n == self.selected@.len(),
                all == (forall|j: int| 0 <= j < k ==> self.selected@[j]),
            decreases n - k,
        {
            if !self.selected[k] {
                all = false;
            }
            k = k + 1;
        }
        let value = !all;
        let mut replaced: Vec<bool> = Vec::new();
        let mut i: usize = 0;
        while i < n
            invariant
                0 <= i <= n,
                replaced@.len() == i,
                forall|j: int| 0 <= j < i ==> replaced@[j] == value,
            decreases n - i,
        {
            replaced.push(value);
            i = i + 1;
        }
        self.selected = replaced;
    }

    /// The ticked host tokens, in list order.
    pub fn get_selected_servers(&self) -> (r: Vec<String>)
        requires
            self.wf(),
        ensures
            r@.map_values(|s: String| s@) == chosen_tokens(self.servers@, self.selected@),
    {
        let n = self.servers.len();
        let mut r: Vec<String> = Vec::new();
        let mut i: usize = 0;
        while i < n
            invariant
                0 <= i <= n,
                n == self.servers@.len(),
                n == self.selected@.len(),
                r@.map_values(|s: String| s@) == chosen_tokens(
                    self.servers@.take(i as int),
                    self.selected@.take(i as int),
                ),
            decreases n - i,
        {
            let ghost before = r@;
            if self.selected[i] {
                r.push(self.servers[i].clone());
            }
            proof {
                let sv = self.servers@;
                let sl = self.selected@;
                assert(sv.take(i + 1).drop_last() =~= sv.take(i as int));
                assert(sl.take(i + 1).drop_last() =~= sl.take(i as int));
                assert(sv.take(i + 1).last() == sv[i as int]);
                if sl[i as int] {
                    assert(r@.map_values(|s: String| s@) =~= before.map_values(|s: String| s@).push(
                        sv[i as int]@,
                    ));
                } else {
                    assert(r@.map_values(|s: String| s@) =~= before.map_values(|s: String| s@));
                }
            }
            i = i + 1;
        }
        proof {
            assert(self.servers@.take(n as int) =~= self.servers@);
            assert(self.selected@.take(n as int) =~= self.selected@);
        }
        r
    }
}

} // verus!
