//! The registry of panels, by the label of their window.
//!
//! A [`Store`] holds each panel that was registered and not closed since,
//! one to a label. Its view is the map from label to record; what the
//! commands of the host do to it, and what they answer, is the rule of
//! [`command_step`] and [`command_reply`].

use vstd::prelude::*;
use crate::error::Error;
use crate::native::NativeCall;
use crate::raw_nspanel::{PanelModel, RawNSPanel, WindowHandle};
use crate::registry::{command_reply, command_step, registry_wf, Command, Reply};
use crate::state::{lemma_step_keeps_valid, PanelRequest, PanelState, WebviewPanelConfig};

verus! {

/// The messages that a command gives rise to, and the address of the native
/// window that they are for.
#[derive(Debug)]
pub struct Batch {
    pub window: usize,
    pub calls: Vec<NativeCall>,
}

impl View for Batch {
    type V = Reply;

    open spec fn view(&self) -> Reply {
        Reply { window: self.window, calls: self.calls@ }
    }
}

/// Whether `r` is the answer that the rule gives.
pub open spec fn replies(expected: Result<Reply, Error>, r: Result<Batch, Error>) -> bool {
    match expected {
        Ok(reply) => r is Ok && r->Ok_0@ == reply,
        Err(e) => r is Err && r->Err_0 == e,
    }
}

/// The panels as contracts see them.
spec fn models(panels: Seq<RawNSPanel>) -> Seq<PanelModel> {
    panels.map_values(|p: RawNSPanel| p@)
}

/// No two panels have the same label.
spec fn distinct(ms: Seq<PanelModel>) -> bool {
    forall|i: int, j: int| 0 <= i < j < ms.len() ==> ms[i].label != ms[j].label
}

/// No panel is closed, and each has a valid record.
spec fn live(ms: Seq<PanelModel>) -> bool {
    forall|i: int| 0 <= i < ms.len() ==> (#[trigger] ms[i]).state.wf() && ms[i].state.alive
}

/// Whether a panel has the label.
spec fn holds(ms: Seq<PanelModel>, label: Seq<char>) -> bool {
    exists|i: int| 0 <= i < ms.len() && (#[trigger] ms[i]).label == label
}

/// The place of a panel with the label.
spec fn place(ms: Seq<PanelModel>, label: Seq<char>) -> int {
    choose|i: int| 0 <= i < ms.len() && (#[trigger] ms[i]).label == label
}

/// The map from label to record.
spec fn map_of(ms: Seq<PanelModel>) -> Map<Seq<char>, PanelState> {
    Map::new(|l: Seq<char>| holds(ms, l), |l: Seq<char>| ms[place(ms, l)].state)
}

/// Among distinct labels, a panel is found at its own place.
proof fn lemma_place(ms: Seq<PanelModel>, i: int)
    requires
        distinct(ms),
        0 <= i < ms.len(),
    ensures
        holds(ms, ms[i].label),
        place(ms, ms[i].label) == i,
        map_of(ms).dom().contains(ms[i].label),
        map_of(ms)[ms[i].label] == ms[i].state,
{
    assert(ms[i].label == ms[i].label);
    let k = place(ms, ms[i].label);
    assert(0 <= k < ms.len() && ms[k].label == ms[i].label);
    if k < i {
        assert(ms[k].label != ms[i].label);
    } else if i < k {
        assert(ms[i].label != ms[k].label);
    }
}

/// A label that no panel has is not in the map.
proof fn lemma_absent(ms: Seq<PanelModel>, label: Seq<char>)
    requires
        forall|i: int| 0 <= i < ms.len() ==> (#[trigger] ms[i]).label != label,
    ensures
        !map_of(ms).dom().contains(label),
{
}

/// A panel with a new label, put at the end, is one more entry of the map.
proof fn lemma_push(ms: Seq<PanelModel>, m: PanelModel)
    requires
        distinct(ms),
        forall|i: int| 0 <= i < ms.len() ==> (#[trigger] ms[i]).label != m.label,
    ensures
        distinct(ms.push(m)),
        map_of(ms.push(m)) == map_of(ms).insert(m.label, m.state),
{
    let after = ms.push(m);
    assert(distinct(after));
    assert forall|l: Seq<char>| map_of(after).dom().contains(l) <==> map_of(ms).insert(
        m.label,
        m.state,
    ).dom().contains(l) by {
        if holds(after, l) {
            let k = place(after, l);
            if k < ms.len() {
                assert(ms[k].label == l);
            }
        }
        if holds(ms, l) {
            let k = place(ms, l);
            assert(after[k].label == l);
        }
        if l == m.label {
            assert(after[ms.len() as int].label == l);
        }
    }
    assert forall|l: Seq<char>| #[trigger] map_of(after).dom().contains(l) implies map_of(after)[l]
        == map_of(ms).insert(m.label, m.state)[l] by {
        let k = place(after, l);
        lemma_place(after, k);
        if k < ms.len() {
            lemma_place(ms, k);
        }
    }
    assert(map_of(after) =~= map_of(ms).insert(m.label, m.state));
}

/// A panel put in the place of the one with its label is that label's new
/// entry in the map.
proof fn lemma_update(ms: Seq<PanelModel>, i: int, m: PanelModel)
    requires
        distinct(ms),
        0 <= i < ms.len(),
        ms[i].label == m.label,
    ensures
        distinct(ms.update(i, m)),
        map_of(ms.update(i, m)) == map_of(ms).insert(m.label, m.state),
{
    let after = ms.update(i, m);
    assert(distinct(after)) by {
        assert forall|a: int, b: int| 0 <= a < b < after.len() implies after[a].label
            != after[b].label by {
            assert(ms[a].label != ms[b].label);
        }
    }
    assert forall|l: Seq<char>| map_of(after).dom().contains(l) <==> map_of(ms).insert(
        m.label,
        m.state,
    ).dom().contains(l) by {
        if holds(after, l) {
            let k = place(after, l);
            assert(ms[k].label == l);
        }
        if holds(ms, l) {
            let k = place(ms, l);
            assert(after[k].label == l);
        }
        if l == m.label {
            assert(after[i].label == l);
        }
    }
    assert forall|l: Seq<char>| #[trigger] map_of(after).dom().contains(l) implies map_of(after)[l]
        == map_of(ms).insert(m.label, m.state)[l] by {
        let k = place(after, l);
        lemma_place(after, k);
        lemma_place(ms, k);
    }
    assert(map_of(after) =~= map_of(ms).insert(m.label, m.state));
}

/// A panel taken out leaves the map without its label.
proof fn lemma_remove(ms: Seq<PanelModel>, i: int)
    requires
        distinct(ms),
        0 <= i < ms.len(),
    ensures
        distinct(ms.remove(i)),
        map_of(ms.remove(i)) == map_of(ms).remove(ms[i].label),
{
    let after = ms.remove(i);
    let at = |k: int| if k < i { k } else { k + 1 };
    assert forall|k: int| 0 <= k < after.len() implies after[k] == ms[at(k)] by {}
    assert(distinct(after)) by {
        assert forall|a: int, b: int| 0 <= a < b < after.len() implies after[a].label
            != after[b].label by {
            assert(ms[at(a)].label != ms[at(b)].label);
        }
    }
    assert forall|l: Seq<char>| map_of(after).dom().contains(l) <==> map_of(ms).remove(
        ms[i].label,
    ).dom().contains(l) by {
        if holds(after, l) {
            let k = place(after, l);
            assert(ms[at(k)].label == l);
            lemma_place(ms, at(k));
            lemma_place(ms, i);
        }
        if holds(ms, l) && l != ms[i].label {
            let k = place(ms, l);
            let back = if k < i { k } else { k - 1 };
            assert(after[back].label == l);
        }
    }
    assert forall|l: Seq<char>| #[trigger] map_of(after).dom().contains(l) implies map_of(after)[l]
        == map_of(ms).remove(ms[i].label)[l] by {
        let k = place(after, l);
        lemma_place(after, k);
        lemma_place(ms, at(k));
    }
    assert(map_of(after) =~= map_of(ms).remove(ms[i].label));
}

/// The map of distinct, live panels is a valid registry with one entry to
/// a panel.
proof fn lemma_valid(ms: Seq<PanelModel>)
    requires
        distinct(ms),
        live(ms),
    ensures
        registry_wf(map_of(ms)),
        map_of(ms).dom().len() == ms.len(),
    decreases ms.len(),
{
    if ms.len() == 0 {
        assert(map_of(ms).dom() =~= Set::empty());
    } else {
        let rest = ms.drop_last();
        assert forall|i: int| 0 <= i < rest.len() implies (#[trigger] rest[i]).label
            != ms.last().label by {
            assert(rest[i] == ms[i]);
        }
        assert(distinct(rest)) by {
            assert forall|a: int, b: int| 0 <= a < b < rest.len() implies rest[a].label
                != rest[b].label by {
                assert(ms[a].label != ms[b].label);
            }
        }
        assert(live(rest)) by {
            assert forall|i: int| 0 <= i < rest.len() implies (#[trigger] rest[i]).state.wf()
                && rest[i].state.alive by {
                assert(rest[i] == ms[i]);
            }
        }
        lemma_valid(rest);
        lemma_push(rest, ms.last());
        lemma_absent(rest, ms.last().label);
        assert(rest.push(ms.last()) =~= ms);
        assert(map_of(ms).dom() =~= map_of(rest).dom().insert(ms.last().label));
    }
    assert forall|l: Seq<char>| #[trigger] map_of(ms).dom().contains(l) implies map_of(ms)[l].wf()
        && map_of(ms)[l].alive by {
        let k = place(ms, l);
        lemma_place(ms, k);
    }
}

/// The registry of panels.
#[derive(Debug)]
pub struct Store {
    panels: Vec<RawNSPanel>,
}

impl View for Store {
    type V = Map<Seq<char>, PanelState>;

    closed spec fn view(&self) -> Map<Seq<char>, PanelState> {
        map_of(models(self.panels@))
    }
}

impl Default for Store {
    /// The empty registry.
    fn default() -> (r: Store)
        ensures
            r@ == Map::<Seq<char>, PanelState>::empty(),
    {
        Store::new()
    }
}

impl Store {
    /// A label has one panel, and no registered panel is closed.
    #[verifier::type_invariant]
    spec fn inv(self) -> bool {
        distinct(models(self.panels@)) && live(models(self.panels@))
    }

    /// The empty registry.
    pub fn new() -> (r: Store)
        ensures
            r@ == Map::<Seq<char>, PanelState>::empty(),
    {
        let r = Store { panels: Vec::new() };
        assert(r@ =~= Map::<Seq<char>, PanelState>::empty());
        r
    }

    /// The place of the panel with the label, if there is one.
    fn find(&self, label: &String) -> (r: Option<usize>)
        ensures
            match r {
                Some(i) => i < self.panels.len() && models(self.panels@)[i as int].label == label@,
                None => forall|i: int|
                    0 <= i < self.panels.len() ==> (#[trigger] models(self.panels@)[i]).label
                        != label@,
            },
    {
        let mut i: usize = 0;
        while i < self.panels.len()
            invariant
                i <= self.panels.len(),
                forall|k: int| 0 <= k < i ==> (#[trigger] models(self.panels@)[k]).label != label@,
            decreases self.panels.len() - i,
        {
            if self.panels[i].is_labelled(label) {
                return Some(i);
            }
            i = i + 1;
        }
        None
    }

    /// The number of registered panels.
    pub fn len(&self) -> (r: usize)
        ensures
            registry_wf(self@),
            r == self@.dom().len(),
    {
        proof {
            use_type_invariant(self);
            lemma_valid(models(self.panels@));
        }
        self.panels.len()
    }

    /// Whether a panel is registered under the label.
    pub fn contains(&self, label: &str) -> (r: bool)
        ensures
            r == self@.dom().contains(label@),
    {
        let wanted = label.to_owned();
        proof {
            use_type_invariant(self);
        }
        match self.find(&wanted) {
            Some(i) => {
                proof {
                    lemma_place(models(self.panels@), i as int);
                }
                true
            },
            None => {
                proof {
                    lemma_absent(models(self.panels@), label@);
                }
                false
            },
        }
    }

    /// The panel registered under the label; `PanelNotFound` where there is
    /// none.
    pub fn lookup(&self, label: &str) -> (r: Result<&RawNSPanel, Error>)
        ensures
            registry_wf(self@),
            match r {
                Ok(panel) => self@.dom().contains(label@) && panel@ == (PanelModel {
                    label: label@,
                    state: self@[label@],
                }),
                Err(e) => !self@.dom().contains(label@) && e == Error::PanelNotFound,
            },
    {
        let wanted = label.to_owned();
        proof {
            use_type_invariant(self);
            lemma_valid(models(self.panels@));
        }
        match self.find(&wanted) {
            Some(i) => {
                proof {
                    lemma_place(models(self.panels@), i as int);
                }
                Ok(&self.panels[i])
            },
            None => {
                proof {
                    lemma_absent(models(self.panels@), label@);
                }
                Err(Error::PanelNotFound)
            },
        }
    }

    /// Registers a panel under the label of its window, in place of any
    /// panel registered under it. A closed panel is refused with
    /// `InvalidHandle`.
    pub fn register(&mut self, panel: RawNSPanel) -> (r: Result<(), Error>)
        ensures
            panel@.state.alive ==> r is Ok && final(self)@ == old(self)@.insert(
                panel@.label,
                panel@.state,
            ),
            !panel@.state.alive ==> r is Err && r->Err_0 == Error::InvalidHandle && final(self)@
                == old(self)@,
    {
        proof {
            use_type_invariant(&*self);
            use_type_invariant(&panel);
        }
        if panel.is_closed() {
            return Err(Error::InvalidHandle);
        }
        let wanted = panel.label().to_owned();
        let found = self.find(&wanted);
        let ghost before = models(self.panels@);
        let mut taken: Vec<RawNSPanel> = Vec::new();
        core::mem::swap(&mut self.panels, &mut taken);
        match found {
            Some(i) => {
                taken[i] = panel;
                proof {
                    lemma_update(before, i as int, panel@);
                    assert(models(taken@) =~= before.update(i as int, panel@));
                }
            },
            None => {
                taken.push(panel);
                proof {
                    lemma_push(before, panel@);
                    assert(models(taken@) =~= before.push(panel@));
                }
            },
        }
        proof {
            assert(live(models(taken@)));
        }
        core::mem::swap(&mut self.panels, &mut taken);
        Ok(())
    }

    /// Converts a window and registers its panel under the window's label,
    /// in place of any panel registered under it. A window that was
    /// converted before is first cleared of the tracking area that it was
    /// given then. A window that is nil, or has no content view, is refused
    /// with `InvalidHandle`.
    pub fn convert(&mut self, window: WindowHandle, config: WebviewPanelConfig) -> (r: Result<
        Batch,
        Error,
    >)
        ensures
            final(self)@ == command_step(
                old(self)@,
                Command::Convert { label: window.label@, native: window.native, config },
            ),
            replies(
                command_reply(
                    old(self)@,
                    Command::Convert { label: window.label@, native: window.native, config },
                ),
                r,
            ),
    {
        let address = window.native.ns_window;
        let stale = match self.lookup(window.label.as_str()) {
            Ok(earlier) => earlier.handle() == address && earlier.state().tracking.is_some(),
            Err(_) => false,
        };
        match RawNSPanel::from_window(window, config) {
            Ok((panel, mut configuring)) => {
                let mut calls = Vec::new();
                if stale {
                    calls.push(NativeCall::RemoveTrackingArea);
                }
                calls.append(&mut configuring);
                self.register(panel)?;
                Ok(Batch { window: address, calls })
            },
            Err(e) => Err(e),
        }
    }

    /// Asks `request` of the panel registered under the label, and takes
    /// the panel out of the registry if the request closes it.
    /// `PanelNotFound` where no panel is registered under the label.
    pub fn dispatch(&mut self, label: &str, request: PanelRequest) -> (r: Result<Batch, Error>)
        ensures
            final(self)@ == command_step(
                old(self)@,
                Command::Dispatch { label: label@, request },
            ),
            replies(command_reply(old(self)@, Command::Dispatch { label: label@, request }), r),
    {
        let wanted = label.to_owned();
        proof {
            use_type_invariant(&*self);
        }
        let ghost before = models(self.panels@);
        match self.find(&wanted) {
            None => {
                proof {
                    lemma_absent(before, label@);
                }
                Err(Error::PanelNotFound)
            },
            Some(i) => {
                proof {
                    lemma_place(before, i as int);
                    lemma_step_keeps_valid(before[i as int].state, request);
                }
                let mut taken: Vec<RawNSPanel> = Vec::new();
                core::mem::swap(&mut self.panels, &mut taken);
                let mut panel = taken.remove(i);
                let address = panel.handle();
                let answer = panel.apply(request);
                if panel.is_closed() {
                    proof {
                        lemma_remove(before, i as int);
                        assert(models(taken@) =~= before.remove(i as int));
                    }
                } else {
                    taken.insert(i, panel);
                    proof {
                        lemma_update(before, i as int, panel@);
                        assert(models(taken@) =~= before.update(i as int, panel@));
                    }
                }
                proof {
                    assert(live(models(taken@)));
                        }
                core::mem::swap(&mut self.panels, &mut taken);
                match answer {
                    Ok(calls) => Ok(Batch { window: address, calls }),
                    Err(e) => Err(e),
                }
            },
        }
    }

    /// Forgets every panel. Nothing is sent to their windows.
    pub fn reset(&mut self)
        ensures
            final(self)@ == Map::<Seq<char>, PanelState>::empty(),
    {
        let mut taken: Vec<RawNSPanel> = Vec::new();
        core::mem::swap(&mut self.panels, &mut taken);
        assert(self@ =~= Map::<Seq<char>, PanelState>::empty());
    }
}

} // verus!
