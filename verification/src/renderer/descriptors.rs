use vstd::prelude::*;
use crate::renderer::swapchain::{SwapchainStateView, FRAMES_IN_FLIGHT};

verus! {

/// One item per frame in flight (a uniform buffer, a descriptor set, ...),
/// looked up by frame slot.
pub struct PerFrame<T> {
    items: Vec<T>,
}

impl<T> View for PerFrame<T> {
    type V = Seq<T>;

    closed spec fn view(&self) -> Seq<T> {
        self.items@
    }
}

impl<T> PerFrame<T> {
    /// There is exactly one item per frame in flight.
    pub open spec fn wf(&self) -> bool {
        self@.len() == FRAMES_IN_FLIGHT
    }

    /// Builds the items by calling `make` with each frame slot in turn.
    pub fn from_fn<G: Fn(usize) -> T>(make: G) -> (per_frame: Self)
        requires
            forall|i: usize| i < FRAMES_IN_FLIGHT ==> #[trigger] make.requires((i,)),
        ensures
            per_frame.wf(),
            forall|i: usize| i < FRAMES_IN_FLIGHT ==> make.ensures((i,), #[trigger] per_frame@[i as int]),
    {
        let mut items: Vec<T> = Vec::new();
        let mut i: usize = 0;
        while i < FRAMES_IN_FLIGHT
            invariant
                i <= FRAMES_IN_FLIGHT,
                items@.len() == i,
                forall|k: usize| k < FRAMES_IN_FLIGHT ==> #[trigger] make.requires((k,)),
                forall|k: usize| k < i ==> make.ensures((k,), #[trigger] items@[k as int]),
            decreases FRAMES_IN_FLIGHT - i,
        {
            let item = make(i);
            items.push(item);
            i = i + 1;
        }
        PerFrame { items }
    }

    /// Builds one item per frame from the item of the same frame here.
    pub fn map_ref<U, G: Fn(&T) -> U>(&self, make: G) -> (mapped: PerFrame<U>)
        requires
            self.wf(),
            forall|i: int| 0 <= i < FRAMES_IN_FLIGHT ==> make.requires((&#[trigger] self@[i],)),
        ensures
            mapped.wf(),
            forall|i: int| 0 <= i < FRAMES_IN_FLIGHT ==> make.ensures((&self@[i],), #[trigger] mapped@[i]),
    {
        let mut items: Vec<U> = Vec::new();
        let mut i: usize = 0;
        while i < FRAMES_IN_FLIGHT
            invariant
                i <= FRAMES_IN_FLIGHT,
                self.wf(),
                items@.len() == i,
                forall|k: int| 0 <= k < FRAMES_IN_FLIGHT ==> make.requires((&#[trigger] self@[k],)),
                forall|k: int| 0 <= k < i ==> make.ensures((&self@[k],), #[trigger] items@[k]),
            decreases FRAMES_IN_FLIGHT - i,
        {
            let item = make(&self.items[i]);
            items.push(item);
            i = i + 1;
        }
        PerFrame { items }
    }

    /// The item of frame slot `frame_index`.
    pub fn get(&self, frame_index: usize) -> (item: &T)
        requires
            self.wf(),
            frame_index < FRAMES_IN_FLIGHT,
        ensures
            *item == self@[frame_index as int],
    {
        &self.items[frame_index]
    }
}


/// The frame slot of any well-formed swapchain state indexes every per-frame
/// collection, so looking up the current frame's resources never fails.
pub proof fn law_current_frame_indexes_per_frame<F, T>(state: SwapchainStateView<F>, items: PerFrame<T>)
    requires
        state.wf(),
        items.wf(),
    ensures
        0 <= state.current_frame < items@.len(),
{
}

} // verus!
