use std::collections::VecDeque;
use vstd::prelude::*;

verus! {

broadcast use vstd::string::group_string_axioms;

/// A bounding box of a live HTML element, small (tooltip, button) or large
/// (modal, sidebar), that the native canvas must leave uncovered. The
/// engine reads only whether the box is still active; its geometry `G` is
/// carried along for the renderer.
#[derive(Debug, Clone, Copy)]
pub struct DirtyRect<G> {
    pub geometry: G,
    pub is_active: bool,
}

impl<G> DirtyRect<G> {
    /// A freshly registered, active box.
    pub fn new(geometry: G) -> (rect: Self)
        ensures
            rect.geometry == geometry,
            rect.is_active,
    {
        DirtyRect { geometry, is_active: true }
    }
}

/// Whether a box is still on screen.
pub open spec fn is_active_rect<G>(r: DirtyRect<G>) -> bool {
    r.is_active
}

/// The boxes of `rects` that are still active, in their order.
pub open spec fn active_rects<G>(rects: Seq<DirtyRect<G>>) -> Seq<DirtyRect<G>> {
    rects.filter(|r: DirtyRect<G>| is_active_rect(r))
}

/// The texts of a queue of JavaScript trigger names.
pub open spec fn trigger_views(triggers: Seq<String>) -> Seq<Seq<char>> {
    triggers.map_values(|t: String| t@)
}

/// Every box that survives a clearing is active.
pub proof fn lemma_cleared_boxes_are_active<G>(rects: Seq<DirtyRect<G>>)
    ensures
        forall|i: int| 0 <= i < active_rects(rects).len() ==> #[trigger] active_rects(rects)[i].is_active,
{
    assert forall|i: int| 0 <= i < active_rects(rects).len() implies #[trigger] active_rects(
        rects,
    )[i].is_active by {
        rects.lemma_filter_pred(|r: DirtyRect<G>| is_active_rect(r), i);
    }
}

/// Clearing twice is clearing once.
pub proof fn lemma_clear_idempotent<G>(rects: Seq<DirtyRect<G>>)
    ensures
        active_rects(active_rects(rects)) == active_rects(rects),
    decreases rects.len(),
{
    reveal(Seq::filter);
    if rects.len() > 0 {
        lemma_clear_idempotent(rects.drop_last());
        let rest = active_rects(rects.drop_last());
        if rects.last().is_active {
            assert(active_rects(rects) == rest.push(rects.last()));
            assert(rest.push(rects.last()).drop_last() =~= rest);
        }
    }
}

/// A box registered while active survives the next clearing, after the
/// survivors of the earlier boxes; a box registered inactive does not.
pub proof fn lemma_registered_box_survives<G>(rects: Seq<DirtyRect<G>>, rect: DirtyRect<G>)
    ensures
        rect.is_active ==> active_rects(rects.push(rect)) == active_rects(rects).push(rect),
        !rect.is_active ==> active_rects(rects.push(rect)) == active_rects(rects),
{
    reveal(Seq::filter);
    assert(rects.push(rect).drop_last() =~= rects);
}

/// After a hard refresh only the top navigation bar is punched, and a later
/// clearing keeps it.
pub proof fn lemma_hard_refresh_leaves_nav_bar<G>(top_nav: G)
    ensures
        active_rects(seq![DirtyRect { geometry: top_nav, is_active: true }]) == seq![
            DirtyRect { geometry: top_nav, is_active: true },
        ],
{
    lemma_registered_box_survives(Seq::empty(), DirtyRect { geometry: top_nav, is_active: true });
    reveal(Seq::filter);
    assert(Seq::<DirtyRect<G>>::empty().push(DirtyRect { geometry: top_nav, is_active: true })
        =~= seq![DirtyRect { geometry: top_nav, is_active: true }]);
    assert(active_rects(Seq::<DirtyRect<G>>::empty()) =~= Seq::<DirtyRect<G>>::empty());
}

/// The geometries of the boxes that are still active, in order: the zones
/// where the native canvas is punched through for HTML.
pub open spec fn punch_zones<G>(rects: Seq<DirtyRect<G>>) -> Seq<G> {
    active_rects(rects).map_values(|r: DirtyRect<G>| r.geometry)
}

/// Clearing expired boxes never changes the zones the layout punches: the
/// punching zones already leave closed elements out.
pub proof fn lemma_clear_keeps_punch_zones<G>(rects: Seq<DirtyRect<G>>)
    ensures
        punch_zones(active_rects(rects)) == punch_zones(rects),
{
    lemma_clear_idempotent(rects);
}

/// Collects the punching zones of the registered boxes.
pub fn active_punch_zones<G: Copy>(rects: &Vec<DirtyRect<G>>) -> (zones: Vec<G>)
    ensures
        zones@ == punch_zones(rects@),
{
    let mut zones: Vec<G> = Vec::new();
    let mut i: usize = 0;
    while i < rects.len()
        invariant
            i <= rects.len(),
            zones@ == punch_zones(rects@.take(i as int)),
        decreases rects.len() - i,
    {
        let r = rects[i];
        proof {
            let all = rects@;
            assert(all.take(i + 1).drop_last() =~= all.take(i as int));
            assert(all.take(i + 1).last() == all[i as int]);
            reveal(Seq::filter);
        }
        if r.is_active {
            zones.push(r.geometry);
            proof {
                let pre = active_rects(rects@.take(i as int));
                assert(active_rects(rects@.take(i + 1)) == pre.push(r));
                assert(pre.push(r).map_values(|q: DirtyRect<G>| q.geometry) =~= pre.map_values(
                    |q: DirtyRect<G>| q.geometry,
                ).push(r.geometry));
            }
        }
        i = i + 1;
    }
    proof {
        assert(rects@.take(i as int) =~= rects@);
    }
    zones
}

/// GPU driver that turns HTML DOM render buffers into GPU textures.
pub struct UltralightGpuDriver {
    pub is_gpu_accelerated: bool,
}

impl UltralightGpuDriver {
    /// A driver with GPU acceleration on.
    pub fn new() -> (driver: Self)
        ensures
            driver.is_gpu_accelerated,
    {
        UltralightGpuDriver { is_gpu_accelerated: true }
    }

    /// Drops cached GPU textures during a hard refresh; the driver keeps no
    /// state of its own, so nothing observable changes.
    pub fn flush_gpu_cache(&self) {
    }
}

/// HTML/DOM engine wrapper: tracks the dirty rectangles punched through the
/// native canvas and the queue of triggers sent from JavaScript.
pub struct UltralightEngine<G> {
    pub is_initialized: bool,
    pub gpu_driver: UltralightGpuDriver,
    pub active_dirty_rects: Vec<DirtyRect<G>>,
    pub pending_js_triggers: VecDeque<String>,
}

impl<G: Copy> UltralightEngine<G> {
    /// An initialized engine with no boxes and no pending triggers.
    pub fn new() -> (engine: Self)
        ensures
            engine.is_initialized,
            engine.gpu_driver.is_gpu_accelerated,
            engine.active_dirty_rects@ == Seq::<DirtyRect<G>>::empty(),
            engine.pending_js_triggers@ == Seq::<String>::empty(),
    {
        UltralightEngine {
            is_initialized: true,
            gpu_driver: UltralightGpuDriver::new(),
            active_dirty_rects: Vec::new(),
            pending_js_triggers: VecDeque::new(),
        }
    }

    /// Registers the bounding box of an HTML element for layer punching.
    pub fn register_dirty_rect(&mut self, rect: DirtyRect<G>)
        ensures
            final(self).active_dirty_rects@ == old(self).active_dirty_rects@.push(rect),
            final(self).pending_js_triggers@ == old(self).pending_js_triggers@,
            final(self).is_initialized == old(self).is_initialized,
            final(self).gpu_driver == old(self).gpu_driver,
    {
        self.active_dirty_rects.push(rect);
    }

    /// Drops the boxes of closed elements, keeping the active ones in order.
    pub fn clear_expired_rects(&mut self)
        ensures
            final(self).active_dirty_rects@ == active_rects(old(self).active_dirty_rects@),
            forall|i: int|
                0 <= i < final(self).active_dirty_rects@.len() ==> #[trigger] final(self).active_dirty_rects@[i].is_active,
            forall|i: int|
                0 <= i < old(self).active_dirty_rects@.len() && old(self).active_dirty_rects@[i].is_active
                    ==> final(self).active_dirty_rects@.contains(
                    #[trigger] old(self).active_dirty_rects@[i],
                ),
            final(self).active_dirty_rects@.len() <= old(self).active_dirty_rects@.len(),
            final(self).pending_js_triggers@ == old(self).pending_js_triggers@,
            final(self).is_initialized == old(self).is_initialized,
            final(self).gpu_driver == old(self).gpu_driver,
    {
        let mut kept: Vec<DirtyRect<G>> = Vec::new();
        let mut i: usize = 0;
        while i < self.active_dirty_rects.len()
            invariant
                i <= self.active_dirty_rects.len(),
                self.active_dirty_rects@ == old(self).active_dirty_rects@,
                self.pending_js_triggers@ == old(self).pending_js_triggers@,
                self.is_initialized == old(self).is_initialized,
                self.gpu_driver == old(self).gpu_driver,
                kept@ == active_rects(self.active_dirty_rects@.take(i as int)),
            decreases self.active_dirty_rects.len() - i,
        {
            let r = self.active_dirty_rects[i];
            proof {
                let all = self.active_dirty_rects@;
                assert(all.take(i + 1).drop_last() =~= all.take(i as int));
                assert(all.take(i + 1).last() == all[i as int]);
                reveal(Seq::filter);
            }
            if r.is_active {
                kept.push(r);
            }
            i = i + 1;
        }
        proof {
            let all = self.active_dirty_rects@;
            assert(all.take(i as int) =~= all);
            lemma_cleared_boxes_are_active(all);
            all.lemma_filter_len(|r: DirtyRect<G>| is_active_rect(r));
            assert forall|k: int| 0 <= k < all.len() && all[k].is_active implies active_rects(
                all,
            ).contains(#[trigger] all[k]) by {
                all.lemma_filter_contains(|r: DirtyRect<G>| is_active_rect(r), k);
            }
        }
        self.active_dirty_rects = kept;
    }

    /// Normal refresh: reloads the HTML surface and keeps caches; only the
    /// boxes of closed elements go.
    pub fn normal_refresh(&mut self)
        ensures
            final(self).active_dirty_rects@ == active_rects(old(self).active_dirty_rects@),
            final(self).pending_js_triggers@ == old(self).pending_js_triggers@,
            final(self).is_initialized == old(self).is_initialized,
            final(self).gpu_driver == old(self).gpu_driver,
    {
        self.clear_expired_rects();
    }

    /// Hard refresh: wipes every box and pending trigger, flushes the GPU
    /// cache and registers the top navigation bar `top_nav` again.
    pub fn hard_refresh(&mut self, top_nav: G)
        ensures
            final(self).active_dirty_rects@ == seq![DirtyRect { geometry: top_nav, is_active: true }],
            final(self).pending_js_triggers@ == Seq::<String>::empty(),
            final(self).is_initialized == old(self).is_initialized,
            final(self).gpu_driver == old(self).gpu_driver,
    {
        self.active_dirty_rects.clear();
        self.register_dirty_rect(DirtyRect::new(top_nav));
        self.gpu_driver.flush_gpu_cache();
        self.pending_js_triggers.clear();
    }

    /// Queues a trigger sent from JavaScript, after those already waiting.
    pub fn receive_js_trigger(&mut self, trigger_name: &str)
        ensures
            trigger_views(final(self).pending_js_triggers@) == trigger_views(
                old(self).pending_js_triggers@,
            ).push(trigger_name@),
            final(self).active_dirty_rects@ == old(self).active_dirty_rects@,
            final(self).is_initialized == old(self).is_initialized,
            final(self).gpu_driver == old(self).gpu_driver,
    {
        self.pending_js_triggers.push_back(trigger_name.to_string());
        proof {
            assert(trigger_views(self.pending_js_triggers@) =~= trigger_views(
                old(self).pending_js_triggers@,
            ).push(trigger_name@));
        }
    }

    /// Renders the dynamic HTML surface of this frame, dropping closed boxes.
    pub fn render_html_surface(&mut self)
        ensures
            final(self).active_dirty_rects@ == active_rects(old(self).active_dirty_rects@),
            final(self).pending_js_triggers@ == old(self).pending_js_triggers@,
            final(self).is_initialized == old(self).is_initialized,
            final(self).gpu_driver == old(self).gpu_driver,
    {
        self.clear_expired_rects();
    }
}

} // verus!
