use vstd::prelude::*;

verus! {

/// Settings of the renderer: the size of the render targets and how many cascades
/// of radiance probes are generated each frame.
#[derive(Clone, Copy, Debug)]
pub struct AppOptions {
    pub window_dimensions: (u32, u32),
    pub num_cascades: u32,
}

impl AppOptions {
    /// The options the window starts with: a 512 x 512 target and six cascades.
    pub open spec fn spec_default() -> AppOptions {
        AppOptions { window_dimensions: (512, 512), num_cascades: 6 }
    }
}

impl Default for AppOptions {
    fn default() -> (options: AppOptions)
        ensures
            options == AppOptions::spec_default(),
            options.window_dimensions == (512u32, 512u32),
            options.num_cascades == 6,
    {
        AppOptions { window_dimensions: (512, 512), num_cascades: 6 }
    }
}

} // verus!
