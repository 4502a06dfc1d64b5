use vstd::prelude::*;

verus! {

/// Routes pointer events either to the HTML layer or to the native layers.
pub struct EventRouter {
    pub is_mouse_over_html: bool,
}

/// Some HTML layer contains the pointer.
pub open spec fn any_hit(hits: Seq<bool>) -> bool {
    exists|i: int| 0 <= i < hits.len() && #[trigger] hits[i]
}

impl EventRouter {
    /// A router that has not seen the pointer over HTML yet.
    pub fn new() -> (router: Self)
        ensures
            !router.is_mouse_over_html,
    {
        EventRouter { is_mouse_over_html: false }
    }

    /// Routes a pointer event given, for each HTML layer, whether it
    /// contains the pointer. Returns `true` when the HTML layer handles the
    /// event, `false` when egui and the native canvas do.
    pub fn route_layer_hits(&mut self, hits: &Vec<bool>) -> (to_html: bool)
        ensures
            to_html == any_hit(hits@),
            final(self).is_mouse_over_html == to_html,
    {
        let mut found = false;
        let mut i: usize = 0;
        while i < hits.len()
            invariant
                i <= hits.len(),
                found == exists|k: int| 0 <= k < i && #[trigger] hits@[k],
            decreases hits.len() - i,
        {
            if hits[i] {
                found = true;
            }
            i = i + 1;
        }
        self.is_mouse_over_html = found;
        found
    }
}

} // verus!
