use vstd::prelude::*;

verus! {

/// Rendering mode of the unified custom cursor.
#[derive(Debug, Clone, Copy, PartialEq, Eq, Structural)]
pub enum CursorRenderMode {
    GPUAccelerated,
    CPUSoftware,
}

impl CursorRenderMode {
    /// The shader cursor when a GPU is present, the software cursor otherwise.
    pub fn for_hardware(has_gpu: bool) -> (mode: CursorRenderMode)
        ensures
            mode == (if has_gpu {
                CursorRenderMode::GPUAccelerated
            } else {
                CursorRenderMode::CPUSoftware
            }),
    {
        if has_gpu {
            CursorRenderMode::GPUAccelerated
        } else {
            CursorRenderMode::CPUSoftware
        }
    }

    /// The crosshair colour: emerald cyan on the GPU path, gold yellow on
    /// the software path.
    pub fn crosshair_rgb(&self) -> (rgb: [u8; 3])
        ensures
            rgb@ == (match *self {
                CursorRenderMode::GPUAccelerated => seq![0u8, 255u8, 180u8],
                CursorRenderMode::CPUSoftware => seq![255u8, 200u8, 0u8],
            }),
    {
        let rgb = match self {
            CursorRenderMode::GPUAccelerated => [0u8, 255u8, 180u8],
            CursorRenderMode::CPUSoftware => [255u8, 200u8, 0u8],
        };
        assert(rgb@ =~= (match *self {
            CursorRenderMode::GPUAccelerated => seq![0u8, 255u8, 180u8],
            CursorRenderMode::CPUSoftware => seq![255u8, 200u8, 0u8],
        }));
        rgb
    }
}

} // verus!
