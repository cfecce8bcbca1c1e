//! Pseudo-retained windows for an immediate-mode GUI: long-lived,
//! self-deciding UI elements that persist across frames, mutate shared
//! application state, and can spawn siblings, until they vote to
//! terminate.
//!
//! Create a [`PersistentWindow`] and push it to a
//! [`PersistentWindowManager`] once, then call `render` each frame to keep
//! rendering it with access to the shared state until its behaviour
//! returns false.

use vstd::prelude::*;

verus! {

/// Declares `egui::Context` — the opaque immediate-mode GUI frame
/// context — so that it can be handed through to window behaviours.
/// Nothing of its inside is visible here; behaviours use it to declare
/// widgets for the current frame only.
#[verifier::external_type_specification]
#[verifier::external_body]
pub struct ExEguiContext(egui::Context);

/// Allocates window identifiers: monotonically increasing, never reused.
/// Share one generator across every manager in the process, so that ids
/// stay unique process-wide and callers can correlate windows by them.
pub struct WindowIdGenerator {
    next: u64,
}

impl WindowIdGenerator {
    /// The identifier the next allocation will return; every identifier
    /// handed out so far is below it.
    pub closed spec fn spec_next(&self) -> u64 {
        self.next
    }

    /// A generator whose first identifier is zero.
    pub fn new() -> (g: WindowIdGenerator)
        ensures
            g.spec_next() == 0,
    {
        WindowIdGenerator { next: 0 }
    }

    /// Hand out the next identifier. Identifiers increase strictly until
    /// the counter's range is exhausted, after which the last value
    /// repeats rather than wrapping back over identifiers already handed
    /// out.
    pub fn fresh_id(&mut self) -> (id: u64)
        ensures
            id == old(self).spec_next(),
            final(self).spec_next() == (if old(self).spec_next() < u64::MAX {
                (old(self).spec_next() + 1) as u64
            } else {
                u64::MAX
            }),
    {
        let id = self.next;
        if self.next < u64::MAX {
            self.next = self.next + 1;
        }
        id
    }
}

/// One window's behaviour: opaque captured state, a single re-entrant
/// render method, and a boolean continuation signal.
///
/// The method is invoked once per frame with the window's own id, an
/// append-only list for newly spawned sibling behaviours, read access to
/// the GUI frame context, and exclusive access to the shared application
/// state. It returns false when the window is ready to close and will keep
/// being rendered as long as it returns true.
pub trait WindowBehavior<S>: Sized {
    /// Declare this window's widgets for the current frame. Behaviours
    /// pushed onto `spawned` join the manager at the end of the pass and
    /// become eligible starting from the next `render` call.
    fn render(
        &mut self,
        id: u64,
        spawned: &mut Vec<Self>,
        gui: &egui::Context,
        state: &mut S,
    ) -> bool;
}

/// A long-lived window: a process-unique identifier assigned at
/// construction from the shared generator, plus its behaviour.
pub struct PersistentWindow<B> {
    id: u64,
    behavior: B,
}

impl<B> PersistentWindow<B> {
    /// The identifier assigned at construction.
    pub closed spec fn spec_id(&self) -> u64 {
        self.id
    }

    /// The behaviour this window carries.
    pub closed spec fn spec_behavior(&self) -> B {
        self.behavior
    }

    /// A window storing `behavior` unchanged, with the generator's next
    /// identifier.
    pub fn new(ids: &mut WindowIdGenerator, behavior: B) -> (w: PersistentWindow<B>)
        ensures
            w.spec_id() == old(ids).spec_next(),
            w.spec_behavior() == behavior,
            final(ids).spec_next() == (if old(ids).spec_next() < u64::MAX {
                (old(ids).spec_next() + 1) as u64
            } else {
                u64::MAX
            }),
    {
        PersistentWindow { id: ids.fresh_id(), behavior }
    }

    /// Invoke the behaviour once with this window's id. Returns false when
    /// the window is ready to close. Whatever the behaviour decides, the
    /// window keeps its identifier.
    pub fn render<S>(
        &mut self,
        spawned: &mut Vec<B>,
        gui: &egui::Context,
        state: &mut S,
    ) -> (keep: bool) where B: WindowBehavior<S>
        ensures
            final(self).spec_id() == old(self).spec_id(),
    {
        self.behavior.render(self.id, spawned, gui, state)
    }
}

/// The identifiers of a sequence of windows, in order.
pub open spec fn ids_of<B>(ws: Seq<PersistentWindow<B>>) -> Seq<u64> {
    ws.map_values(|w: PersistentWindow<B>| w.spec_id())
}

/// `s` filtered by the mask `keep`: the elements whose mask entry is
/// true, in their original order.
pub open spec fn mask_filter(s: Seq<u64>, keep: Seq<bool>) -> Seq<u64>
    decreases s.len(),
{
    if s.len() == 0 || keep.len() == 0 {
        Seq::empty()
    } else {
        let rest = mask_filter(s.drop_last(), keep.drop_last());
        if keep.last() {
            rest.push(s.last())
        } else {
            rest
        }
    }
}

/// Maintains an ordered sequence of [`PersistentWindow`]s; insertion order
/// defines render order within a frame, with no priority reordering.
pub struct PersistentWindowManager<B> {
    windows: Vec<PersistentWindow<B>>,
}

impl<B> View for PersistentWindowManager<B> {
    type V = Seq<PersistentWindow<B>>;

    closed spec fn view(&self) -> Seq<PersistentWindow<B>> {
        self.windows@
    }
}

impl<B> PersistentWindowManager<B> {
    /// A manager with no windows.
    pub fn new() -> (m: PersistentWindowManager<B>)
        ensures
            m@ == Seq::<PersistentWindow<B>>::empty(),
    {
        PersistentWindowManager { windows: Vec::new() }
    }

    /// Append a window, which will keep being rendered until its
    /// behaviour signals completion.
    pub fn push(&mut self, window: PersistentWindow<B>)
        ensures
            final(self)@ == old(self)@.push(window),
    {
        self.windows.push(window);
    }

    /// Apply one behaviour's continuation flag: a window whose behaviour
    /// returned true is retained at the back of the sequence, one whose
    /// behaviour returned false is dropped. [`Self::render`] calls this
    /// once per visited window, with exactly the flag its behaviour
    /// returned; given the flag, the outcome is fixed here.
    pub fn apply_continuation(&mut self, window: PersistentWindow<B>, keep: bool)
        ensures
            final(self)@ == (if keep {
                old(self)@.push(window)
            } else {
                old(self)@
            }),
    {
        if keep {
            self.windows.push(window);
        }
    }

    /// Admit spawned behaviours as windows: every element of `spawned`,
    /// in order, is wrapped in a window with the generator's next
    /// identifier and appended at the back; nothing else changes. While
    /// the generator is not exhausted the appended identifiers are
    /// exactly consecutive, from its initial next value on, and its next
    /// value advances by exactly the number of admitted windows.
    pub fn admit_spawned(&mut self, ids: &mut WindowIdGenerator, spawned: Vec<B>)
        ensures
            final(self)@.len() == old(self)@.len() + spawned@.len(),
            forall|i: int|
                0 <= i < old(self)@.len() ==> #[trigger] final(self)@[i] == old(self)@[i],
            forall|j: int|
                0 <= j < spawned@.len() ==> (#[trigger] final(self)@[old(self)@.len()
                    + j]).spec_behavior() == spawned@[j],
            forall|j: int|
                0 <= j < spawned@.len() ==> old(ids).spec_next() <= (
                #[trigger] final(self)@[old(self)@.len() + j]).spec_id()
                    <= final(ids).spec_next(),
            final(ids).spec_next() >= old(ids).spec_next(),
            final(ids).spec_next() < u64::MAX ==> {
                &&& final(ids).spec_next() == old(ids).spec_next() + spawned@.len()
                &&& forall|j: int|
                    0 <= j < spawned@.len() ==> (#[trigger] final(self)@[old(self)@.len()
                        + j]).spec_id() == old(ids).spec_next() + j
            },
            spawned@.len() == 0 ==> final(self)@ == old(self)@ && final(ids).spec_next()
                == old(ids).spec_next(),
    {
        let ghost w0: Seq<PersistentWindow<B>> = self.windows@;
        let ghost sp0: Seq<B> = spawned@;
        let mut spawned = spawned;
        let ghost mut k: int = 0;

        while spawned.len() > 0
            invariant
                0 <= k <= sp0.len(),
                spawned@ == sp0.skip(k),
                self.windows@.len() == w0.len() + k,
                forall|i: int| 0 <= i < w0.len() ==> #[trigger] self.windows@[i] == w0[i],
                forall|j: int|
                    0 <= j < k ==> (#[trigger] self.windows@[w0.len() + j]).spec_behavior()
                        == sp0[j],
                forall|j: int|
                    0 <= j < k ==> old(ids).spec_next() <= (#[trigger] self.windows@[w0.len()
                        + j]).spec_id() <= ids.spec_next(),
                ids.spec_next() >= old(ids).spec_next(),
                old(ids).spec_next() + k >= ids.spec_next(),
                ids.spec_next() < u64::MAX ==> ids.spec_next() == old(ids).spec_next() + k,
                ids.spec_next() < u64::MAX ==> forall|j: int|
                    0 <= j < k ==> (#[trigger] self.windows@[w0.len() + j]).spec_id()
                        == old(ids).spec_next() + j,
            decreases spawned.len(),
        {
            let ghost sp_pre = spawned@;
            let b = spawned.remove(0);
            proof {
                assert(b == sp_pre[0]);
                assert(sp_pre[0] == sp0[k]);
                assert(spawned@ =~= sp0.skip(k + 1));
            }
            let ghost wpre = self.windows@;
            let w = PersistentWindow::new(ids, b);
            self.windows.push(w);
            proof {
                k = k + 1;
                assert(self.windows@ == wpre.push(w));
            }
        }

        proof {
            assert(spawned@.len() == 0);
            assert(sp0.skip(k).len() == sp0.len() - k);
            assert(k == sp0.len());
            if sp0.len() == 0 {
                assert(self.windows@ =~= w0);
            }
        }
    }

    /// Render every current window once, in order, then admit the
    /// behaviours spawned during the pass as new windows at the back.
    ///
    /// Each window present at the start of the call is visited exactly
    /// once, in the order it occupies in the sequence, and the flag its
    /// behaviour returns is applied by [`Self::apply_continuation`]: a
    /// window whose behaviour returns false is dropped at the end of the
    /// pass, without affecting the relative order of the remainder.
    /// Spawned windows are not rendered in the pass that spawned them:
    /// [`Self::admit_spawned`] appends them after all pre-existing
    /// windows, and they become eligible from the next call on.
    ///
    /// Which windows survive and what is spawned are the behaviours'
    /// decisions — they are the callers' code — so the postcondition
    /// quantifies over them: some decision per initial window, order
    /// preserved, nothing visited twice, followed by exactly the freshly
    /// allocated identifiers — consecutive from the generator's initial
    /// next value, which advances by exactly their number, while the
    /// generator is not exhausted. On an empty manager nothing runs and
    /// nothing changes.
    pub fn render<S>(
        &mut self,
        state: &mut S,
        gui: &egui::Context,
        ids: &mut WindowIdGenerator,
    ) where B: WindowBehavior<S>
        ensures
            final(ids).spec_next() >= old(ids).spec_next(),
            old(self)@.len() == 0 ==> final(self)@ == old(self)@ && final(ids).spec_next()
                == old(ids).spec_next(),
            exists|keep: Seq<bool>, fresh: Seq<u64>|
                #![trigger keep.len(), fresh.len()]
                {
                    &&& keep.len() == old(self)@.len()
                    &&& ids_of(final(self)@) == mask_filter(ids_of(old(self)@), keep) + fresh
                    &&& forall|j: int|
                        0 <= j < fresh.len() ==> old(ids).spec_next() <= #[trigger] fresh[j]
                            <= final(ids).spec_next()
                    &&& final(ids).spec_next() < u64::MAX ==> {
                        &&& final(ids).spec_next() == old(ids).spec_next() + fresh.len()
                        &&& forall|j: int|
                            0 <= j < fresh.len() ==> #[trigger] fresh[j]
                                == old(ids).spec_next() + j
                    }
                },
    {
        let ghost oids: Seq<u64> = ids_of(self.windows@);
        let mut work: Vec<PersistentWindow<B>> = Vec::new();
        std::mem::swap(&mut work, &mut self.windows);
        let mut spawned: Vec<B> = Vec::new();
        let ghost mut keep: Seq<bool> = Seq::empty();

        proof {
            assert(ids_of(self.windows@) =~= Seq::<u64>::empty());
            assert(mask_filter(oids.take(0), keep) == Seq::<u64>::empty());
        }

        while work.len() > 0
            invariant
                keep.len() <= oids.len(),
                work@.len() + keep.len() == oids.len(),
                forall|i: int|
                    0 <= i < work@.len() ==> #[trigger] work@[i].spec_id() == oids[keep.len()
                        + i],
                ids_of(self.windows@) == mask_filter(oids.take(keep.len() as int), keep),
                oids.len() == 0 ==> spawned@.len() == 0,
            decreases work.len(),
        {
            let ghost k: int = keep.len() as int;
            let ghost pre = work@;
            let mut w = work.remove(0);
            proof {
                assert(w == pre[0]);
                assert(w.spec_id() == oids[k]);
                assert forall|i: int| 0 <= i < work@.len() implies #[trigger] work@[i].spec_id()
                    == oids[k + 1 + i] by {
                    assert(work@[i] == pre[i + 1]);
                }
            }
            let ghost kept_pre = self.windows@;
            let keep_w = w.render(&mut spawned, gui, state);
            self.apply_continuation(w, keep_w);
            proof {
                let kb = keep;
                keep = keep.push(keep_w);
                let s = oids.take(k + 1);
                assert(s.len() == k + 1);
                assert(s.drop_last() =~= oids.take(k));
                assert(keep.drop_last() =~= kb);
                assert(s.last() == oids[k]);
                assert(mask_filter(s, keep) == (if keep_w {
                    mask_filter(oids.take(k), kb).push(oids[k])
                } else {
                    mask_filter(oids.take(k), kb)
                }));
                if keep_w {
                    assert(ids_of(self.windows@) =~= ids_of(kept_pre).push(w.spec_id()));
                }
            }
        }

        proof {
            assert(oids.take(keep.len() as int) =~= oids);
        }

        let ghost mid: Seq<u64> = ids_of(self.windows@);
        let ghost pre_admit: Seq<PersistentWindow<B>> = self.windows@;
        let ghost sp: Seq<B> = spawned@;

        proof {
            assert(mid.len() == pre_admit.len());
        }

        self.admit_spawned(ids, spawned);

        proof {
            let n: int = pre_admit.len() as int;
            let fresh = ids_of(self.windows@).skip(n);
            assert(ids_of(self.windows@).len() == self.windows@.len());
            assert(fresh.len() == sp.len());
            assert forall|j: int| 0 <= j < fresh.len() implies #[trigger] fresh[j] == (
            self.windows@[n + j]).spec_id() by {
                assert(fresh[j] == ids_of(self.windows@)[n + j]);
            }
            assert forall|i: int| 0 <= i < ids_of(self.windows@).len() implies #[trigger] ids_of(
                self.windows@,
            )[i] == (mid + fresh)[i] by {
                if i < n {
                    assert(self.windows@[i] == pre_admit[i]);
                    assert(ids_of(pre_admit)[i] == pre_admit[i].spec_id());
                }
            }
            assert(ids_of(self.windows@) =~= mid + fresh);
            if oids.len() == 0 {
                assert(keep.len() == 0);
                assert(pre_admit.len() == 0);
                assert(sp.len() == 0);
                assert(self.windows@ =~= old(self)@);
            }
            assert({
                &&& keep.len() == oids.len()
                &&& ids_of(self.windows@) == mask_filter(oids, keep) + fresh
                &&& forall|j: int|
                    0 <= j < fresh.len() ==> old(ids).spec_next() <= #[trigger] fresh[j]
                        <= ids.spec_next()
                &&& ids.spec_next() < u64::MAX ==> {
                    &&& ids.spec_next() == old(ids).spec_next() + fresh.len()
                    &&& forall|j: int|
                        0 <= j < fresh.len() ==> #[trigger] fresh[j] == old(ids).spec_next()
                            + j
                }
            });
        }
    }
}

/// Every identifier allocated before some point is below the generator's
/// next value then; every identifier allocated from that point on is at
/// least it. So a window spawned during a pass has an identifier strictly
/// greater than all identifiers allocated earlier — in particular greater
/// than every window already in any manager.
pub proof fn lemma_fresh_ids_exceed_prior(prior: Seq<u64>, fresh: Seq<u64>, next: u64)
    requires
        forall|i: int| 0 <= i < prior.len() ==> #[trigger] prior[i] < next,
        forall|j: int| 0 <= j < fresh.len() ==> #[trigger] fresh[j] >= next,
    ensures
        forall|i: int, j: int|
            0 <= i < prior.len() && 0 <= j < fresh.len() ==> #[trigger] prior[i] < #[trigger] fresh[j],
{
}

} // verus!
