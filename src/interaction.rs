use vstd::prelude::*;

use crate::components::{Player, PlayerLockState};
use crate::dialogue::{Dialogue, DialogueDisplay, DialogueQueue, DisplayView, PageView};
use crate::spatial::{hits, Point, SpatialIndex, NPC};

verus! {

/// How close, in hundredths of a world unit, the player must stand to an NPC to talk to it.
pub const INTERACT_RADIUS: u32 = 400;

/// The lines an NPC has to say, as plain text.
pub open spec fn script(npc: NPC) -> Seq<Seq<char>> {
    npc.lines@.map_values(|s: String| s@)
}

/// A page spoken by `npc`.
pub open spec fn page_of(npc: NPC, line: Seq<char>) -> PageView {
    PageView { title: npc.name@, text: line, image: npc.image }
}

/// The pages of `lines`, spoken by `npc`, in the same order.
pub open spec fn pages_of(npc: NPC, lines: Seq<Seq<char>>) -> Seq<PageView> {
    lines.map_values(|l: Seq<char>| page_of(npc, l))
}

/// The display that a conversation with `npc` opens with: its first line on
/// screen, the rest queued in the order written.
pub open spec fn conversation(npc: NPC) -> DisplayView {
    DisplayView { page: page_of(npc, script(npc)[0]), queue: pages_of(npc, script(npc).skip(1)) }
}

/// The displays opened for the entities `ids`, in that order; an entity that names
/// no NPC, or an NPC without lines, opens none.
pub open spec fn opened(npcs: Seq<NPC>, ids: Seq<usize>) -> Seq<DisplayView>
    decreases ids.len(),
{
    if ids.len() == 0 {
        Seq::empty()
    } else {
        let rest = opened(npcs, ids.drop_last());
        let id = ids.last();
        if id < npcs.len() && script(npcs[id as int]).len() > 0 {
            rest.push(conversation(npcs[id as int]))
        } else {
            rest
        }
    }
}

/// The player's lock state and the open dialogue displays, as plain values.
pub struct SessionView {
    pub lock: PlayerLockState,
    pub displays: Seq<DisplayView>,
}

/// The player is locked exactly while some conversation is open.
pub open spec fn well_formed(s: SessionView) -> bool {
    (s.lock == PlayerLockState::Locked) <==> s.displays.len() > 0
}

/// The session after the player, unlocked at `p`, presses interact: one
/// conversation opens for each NPC in range, and the player locks if any did.
pub open spec fn triggered(s: SessionView, npcs: Seq<NPC>, p: Point) -> SessionView {
    let o = opened(npcs, hits(npcs, p, INTERACT_RADIUS));
    SessionView {
        lock: if o.len() > 0 { PlayerLockState::Locked } else { s.lock },
        displays: s.displays + o,
    }
}

/// A display with pages left, moved on to its next page (the one queued last).
pub open spec fn advance_one(d: DisplayView) -> DisplayView {
    DisplayView { page: d.queue.last(), queue: d.queue.drop_last() }
}

/// Every display with pages left moves on one page; the others close.
pub open spec fn advanced_displays(ds: Seq<DisplayView>) -> Seq<DisplayView>
    decreases ds.len(),
{
    if ds.len() == 0 {
        Seq::empty()
    } else {
        let rest = advanced_displays(ds.drop_last());
        if ds.last().queue.len() > 0 {
            rest.push(advance_one(ds.last()))
        } else {
            rest
        }
    }
}

/// The session after an advance: the player is unlocked once no display is left.
pub open spec fn advanced(s: SessionView) -> SessionView {
    let ds = advanced_displays(s.displays);
    SessionView {
        lock: if ds.len() == 0 { PlayerLockState::Unlocked } else { PlayerLockState::Locked },
        displays: ds,
    }
}

pub open spec fn displays_view(v: Seq<DialogueDisplay>) -> Seq<DisplayView> {
    v.map_values(|d: DialogueDisplay| d@)
}

/// Builds the display that a conversation with `npc` opens with, or nothing
/// when the NPC has no lines.
pub fn open_conversation(npc: &NPC) -> (r: Option<DialogueDisplay>)
    ensures
        script(*npc).len() == 0 ==> r is None,
        script(*npc).len() > 0 ==> r is Some && r->0@ == conversation(*npc),
{
    let n = npc.lines.len();
    if n == 0 {
        return None;
    }
    let first = Dialogue { text: npc.lines[0].clone(), title: npc.name.clone(), image: npc.image };
    let mut queue = DialogueQueue::new();
    let mut i: usize = 1;
    while i < n
        invariant
            n == npc.lines@.len(),
            1 <= i <= n,
            queue@ == pages_of(*npc, script(*npc).subrange(1, i as int)),
        decreases n - i,
    {
        let page = Dialogue { text: npc.lines[i].clone(), title: npc.name.clone(), image: npc.image };
        queue.push(page);
        assert(pages_of(*npc, script(*npc).subrange(1, i + 1)) =~= pages_of(
            *npc,
            script(*npc).subrange(1, i as int),
        ).push(page@));
        i = i + 1;
    }
    assert(script(*npc).subrange(1, n as int) =~= script(*npc).skip(1));
    Some(DialogueDisplay::new(first, queue))
}

/// The player together with the dialogue displays on screen.
pub struct DialogueSession {
    pub player: Player,
    pub displays: Vec<DialogueDisplay>,
}

impl View for DialogueSession {
    type V = SessionView;

    open spec fn view(&self) -> SessionView {
        SessionView { lock: self.player.lock, displays: displays_view(self.displays@) }
    }
}

impl DialogueSession {
    /// An unlocked player and no conversation.
    pub fn new() -> (r: DialogueSession)
        ensures
            r@.lock == PlayerLockState::Unlocked,
            r@.displays.len() == 0,
            well_formed(r@),
    {
        DialogueSession { player: Player::new(), displays: Vec::new() }
    }

    /// True while at least one conversation is on screen.
    pub fn is_open(&self) -> (r: bool)
        ensures
            r == (self@.displays.len() > 0),
    {
        self.displays.len() > 0
    }

    /// One frame of the interaction trigger. When interact was pressed this frame
    /// and the player is unlocked, a conversation opens with every NPC within
    /// reach of `player_pos`, and the player locks if any opened. Otherwise
    /// nothing changes; in particular nothing opens while the player is locked.
    pub fn trigger_interaction(
        &mut self,
        interact_pressed: bool,
        player_pos: Point,
        index: &SpatialIndex,
    )
        ensures
            final(self)@ == (if interact_pressed && old(self)@.lock == PlayerLockState::Unlocked {
                triggered(old(self)@, index.npcs@, player_pos)
            } else {
                old(self)@
            }),
    {
        if !interact_pressed || !self.player.is_active() {
            return;
        }
        let ids = index.query_within(player_pos, INTERACT_RADIUS);
        let ghost npcs = index.npcs@;
        let ghost start = self@;
        let mut k: usize = 0;
        while k < ids.len()
            invariant
                k <= ids@.len(),
                npcs == index.npcs@,
                ids@ == hits(npcs, player_pos, INTERACT_RADIUS),
                self@ == (SessionView {
                    lock: if opened(npcs, ids@.take(k as int)).len() > 0 {
                        PlayerLockState::Locked
                    } else {
                        start.lock
                    },
                    displays: start.displays + opened(npcs, ids@.take(k as int)),
                }),
            decreases ids@.len() - k,
        {
            let id = ids[k];
            assert(ids@.take(k + 1).drop_last() =~= ids@.take(k as int));
            assert(ids@.take(k + 1).last() == id);
            match index.get(id) {
                Some(npc) => {
                    match open_conversation(npc) {
                        Some(d) => {
                            assert(d@ == conversation(npcs[id as int]));
                            assert(opened(npcs, ids@.take(k + 1)) == opened(
                                npcs,
                                ids@.take(k as int),
                            ).push(d@));
                            self.player.lock = PlayerLockState::Locked;
                            let ghost shown = self.displays@;
                            self.displays.push(d);
                            assert(displays_view(self.displays@) =~= displays_view(shown).push(
                                d@,
                            ));
                            assert(displays_view(self.displays@) =~= start.displays + opened(
                                npcs,
                                ids@.take(k + 1),
                            ));
                        },
                        None => {},
                    }
                },
                None => {},
            }
            k = k + 1;
        }
        assert(ids@.take(ids@.len() as int) =~= ids@);
    }

    /// One frame of the presentation lifecycle. When the advance key was released
    /// this frame, every display with pages left is replaced by one showing its
    /// next page, every display without is closed, and the player is unlocked
    /// once no display is left. Otherwise nothing changes.
    pub fn advance_dialogue(&mut self, advance_released: bool)
        ensures
            final(self)@ == (if advance_released {
                advanced(old(self)@)
            } else {
                old(self)@
            }),
    {
        if !advance_released {
            return;
        }
        let ghost orig = self@.displays;
        let mut pending: Vec<DialogueDisplay> = Vec::new();
        std::mem::swap(&mut pending, &mut self.displays);
        assert(displays_view(self.displays@) =~= advanced_displays(orig.take(0)));
        while pending.len() > 0
            invariant
                pending@.len() <= orig.len(),
                displays_view(pending@) == orig.skip(orig.len() - pending@.len()),
                displays_view(self.displays@) == advanced_displays(
                    orig.take(orig.len() - pending@.len()),
                ),
            decreases pending@.len(),
        {
            let ghost c = orig.len() - pending@.len();
            let ghost before = pending@;
            assert(displays_view(before)[0] == orig.skip(c)[0]);
            let d = pending.remove(0);
            assert(d@ == orig[c]);
            assert(displays_view(pending@) =~= orig.skip(c + 1)) by {
                assert forall|j: int| 0 <= j < pending@.len() implies displays_view(pending@)[j]
                    == orig.skip(c + 1)[j] by {
                    assert(pending@[j] == before[j + 1]);
                    assert(displays_view(before)[j + 1] == orig.skip(c)[j + 1]);
                }
            }
            assert(orig.take(c + 1).drop_last() =~= orig.take(c));
            let DialogueDisplay { page: _, queue: mut queue } = d;
            match queue.take_next() {
                Some(p) => {
                    let next = DialogueDisplay::new(p, queue);
                    self.displays.push(next);
                    assert(displays_view(self.displays@) =~= advanced_displays(orig.take(c + 1)));
                },
                None => {},
            }
        }
        assert(orig.take(orig.len() as int) =~= orig);
        if self.displays.len() == 0 {
            self.player.lock = PlayerLockState::Unlocked;
        } else {
            self.player.lock = PlayerLockState::Locked;
        }
    }
}

/// Triggering from an unlocked player locks the player exactly when a
/// conversation opened, and otherwise leaves the session as it was.
pub proof fn lemma_trigger_locks(s: SessionView, npcs: Seq<NPC>, p: Point)
    requires
        s.lock == PlayerLockState::Unlocked,
    ensures
        triggered(s, npcs, p).displays.len() > s.displays.len() ==> triggered(s, npcs, p).lock
            == PlayerLockState::Locked,
        triggered(s, npcs, p).displays.len() == s.displays.len() ==> triggered(s, npcs, p) == s,
{
    let o = opened(npcs, hits(npcs, p, INTERACT_RADIUS));
    if o.len() == 0 {
        assert(s.displays + o =~= s.displays);
    }
}

/// The player is locked exactly while a conversation is open, before and after
/// every trigger and every advance.
pub proof fn lemma_well_formed_preserved(s: SessionView, npcs: Seq<NPC>, p: Point)
    requires
        well_formed(s),
    ensures
        s.lock == PlayerLockState::Unlocked ==> well_formed(triggered(s, npcs, p)),
        well_formed(advanced(s)),
{
}

/// A conversation whose first page is `a` and whose queue holds `b` then `c`
/// shows `a`, then `c`, then `b`, and closes on the third advance, unlocking the player.
pub proof fn lemma_last_in_first_out(a: PageView, b: PageView, c: PageView)
    ensures
        ({
            let s0 = SessionView {
                lock: PlayerLockState::Locked,
                displays: seq![DisplayView { page: a, queue: seq![b, c] }],
            };
            let s1 = advanced(s0);
            let s2 = advanced(s1);
            let s3 = advanced(s2);
            &&& s1.displays == seq![DisplayView { page: c, queue: seq![b] }]
            &&& s1.lock == PlayerLockState::Locked
            &&& s2.displays == seq![DisplayView { page: b, queue: Seq::<PageView>::empty() }]
            &&& s2.lock == PlayerLockState::Locked
            &&& s3.displays.len() == 0
            &&& s3.lock == PlayerLockState::Unlocked
        }),
{
    let d0 = DisplayView { page: a, queue: seq![b, c] };
    let d1 = DisplayView { page: c, queue: seq![b] };
    let d2 = DisplayView { page: b, queue: Seq::<PageView>::empty() };
    assert(advanced_displays(Seq::<DisplayView>::empty()) =~= Seq::<DisplayView>::empty());
    assert(Seq::<DisplayView>::empty().push(d1) =~= seq![d1]);
    assert(Seq::<DisplayView>::empty().push(d2) =~= seq![d2]);
    assert(seq![d0].drop_last() =~= Seq::<DisplayView>::empty());
    assert(seq![d0].last() == d0);
    assert(seq![b, c].drop_last() =~= seq![b]);
    assert(advance_one(d0) == d1);
    assert(advanced_displays(seq![d0]) =~= seq![d1]);
    assert(seq![d1].drop_last() =~= Seq::<DisplayView>::empty());
    assert(seq![d1].last() == d1);
    assert(seq![b].drop_last() =~= Seq::<PageView>::empty());
    assert(advance_one(d1) == d2);
    assert(advanced_displays(seq![d1]) =~= seq![d2]);
    assert(seq![d2].drop_last() =~= Seq::<DisplayView>::empty());
    assert(seq![d2].last() == d2);
    assert(advanced_displays(seq![d2]) =~= Seq::<DisplayView>::empty());
}

/// An advance when no open display has pages left closes them all and unlocks
/// the player; an advance with nothing open leaves a well-formed session as it was.
pub proof fn lemma_advance_exhausted(s: SessionView)
    ensures
        (forall|i: int| 0 <= i < s.displays.len() ==> #[trigger] s.displays[i].queue.len() == 0)
            ==> advanced(s) == (SessionView {
            lock: PlayerLockState::Unlocked,
            displays: Seq::empty(),
        }),
        well_formed(s) && s.displays.len() == 0 ==> advanced(s) == s,
{
    if forall|i: int| 0 <= i < s.displays.len() ==> #[trigger] s.displays[i].queue.len() == 0 {
        lemma_advanced_empty(s.displays);
    }
    if s.displays.len() == 0 {
        assert(advanced_displays(s.displays) =~= s.displays);
    }
}

proof fn lemma_advanced_empty(ds: Seq<DisplayView>)
    requires
        forall|i: int| 0 <= i < ds.len() ==> #[trigger] ds[i].queue.len() == 0,
    ensures
        advanced_displays(ds) =~= Seq::<DisplayView>::empty(),
    decreases ds.len(),
{
    if ds.len() > 0 {
        let rest = ds.drop_last();
        assert forall|i: int| 0 <= i < rest.len() implies #[trigger] rest[i].queue.len() == 0 by {
            assert(rest[i] == ds[i]);
        }
        lemma_advanced_empty(rest);
        assert(ds.last() == ds[ds.len() - 1]);
    }
}

} // verus!
