use vstd::prelude::*;

verus! {

/// Active graphics API of the candlestick chart.
#[derive(Debug, Clone, Copy, PartialEq, Eq, Structural)]
pub enum GraphicsMode {
    WebGL2Standard,
    WebGPUNextGen,
}

impl GraphicsMode {
    /// The mode a chart engine starts in: WebGL2 on an OpenGL backend,
    /// WebGPU on every other backend.
    pub fn for_backend(is_gl_backend: bool) -> (mode: GraphicsMode)
        ensures
            mode == (if is_gl_backend {
                GraphicsMode::WebGL2Standard
            } else {
                GraphicsMode::WebGPUNextGen
            }),
    {
        if is_gl_backend {
            GraphicsMode::WebGL2Standard
        } else {
            GraphicsMode::WebGPUNextGen
        }
    }

    /// The pipeline a paint callback draws with: the WebGL2 one when the
    /// user forces WebGL mode, else the WebGPU one.
    pub fn for_paint(force_webgl_mode: bool) -> (mode: GraphicsMode)
        ensures
            mode == (if force_webgl_mode {
                GraphicsMode::WebGL2Standard
            } else {
                GraphicsMode::WebGPUNextGen
            }),
    {
        if force_webgl_mode {
            GraphicsMode::WebGL2Standard
        } else {
            GraphicsMode::WebGPUNextGen
        }
    }
}

} // verus!
