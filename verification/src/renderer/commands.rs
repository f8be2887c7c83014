use vstd::prelude::*;

verus! {

/// The integer parameters of the single draw the renderer records per frame.
#[derive(Clone, Copy, Debug)]
pub struct DrawPlan {
    /// The rendered area: the swapchain image's width and height.
    pub render_area_extent: [u32; 2],
    /// Rendering covers one array layer.
    pub layer_count: u32,
    /// Every vertex of the mesh is drawn.
    pub vertex_count: u32,
    /// One instance.
    pub instance_count: u32,
    pub first_vertex: u32,
    pub first_instance: u32,
}

/// Plans the frame's rendering pass and draw: the render area is the first
/// two sides of the target image's extent, one layer, and one instance of
/// all `vertex_count` vertices from the start.
pub fn plan_draw(image_extent: [u32; 3], vertex_count: u32) -> (plan: DrawPlan)
    ensures
        plan.render_area_extent@ == image_extent@.subrange(0, 2),
        plan.layer_count == 1,
        plan.vertex_count == vertex_count,
        plan.instance_count == 1,
        plan.first_vertex == 0,
        plan.first_instance == 0,
{
    let render_area_extent: [u32; 2] = [image_extent[0], image_extent[1]];
    proof {
        assert(render_area_extent@ =~= image_extent@.subrange(0, 2));
    }
    DrawPlan {
        render_area_extent,
        layer_count: 1,
        vertex_count,
        instance_count: 1,
        first_vertex: 0,
        first_instance: 0,
    }
}

} // verus!
