use crate::text::{contains_pattern, has_substring};
use vstd::prelude::*;

verus! {

broadcast use vstd::string::group_string_axioms;

/// Layer technology detected for a UI region.
#[derive(Debug, Clone, Copy, PartialEq, Eq, Structural)]
pub enum LayerTechnology {
    UltralightHTML,
    WebGPUNative,
    WebGL2Fallback,
    Canvas2DFast,
    EguiRustNative,
}

/// Engine signatures found in a web project bundle.
#[derive(Debug, Clone, Copy, PartialEq, Eq, Structural)]
pub struct CodeSignatures {
    pub has_webgpu_canvas: bool,
    pub has_webgl_canvas: bool,
    pub has_canvas_2d: bool,
    pub has_html_dom: bool,
    pub has_egui_rust: bool,
}

/// One region of the layer allocation plan: the engine that draws it and its caption.
#[derive(Debug)]
pub struct RegionSlot {
    pub tech: LayerTechnology,
    pub label: String,
}

/// `index.html` mentions a canvas or a chart.
pub open spec fn html_shows_canvas(html: Seq<char>) -> bool {
    has_substring(html, "canvas"@) || has_substring(html, "chart"@)
}

/// `index.html` mentions a 2D drawing context.
pub open spec fn html_shows_canvas_2d(html: Seq<char>) -> bool {
    has_substring(html, "2d"@) || has_substring(html, "getContext('2d')"@)
}

/// `index.html` mentions the egui engine.
pub open spec fn html_shows_egui(html: Seq<char>) -> bool {
    has_substring(html, "egui"@) || has_substring(html, "data-engine=\"egui\""@)
        || has_substring(html, "rust-egui"@)
}

/// A script uses WebGPU.
pub open spec fn js_shows_webgpu(js: Seq<char>) -> bool {
    has_substring(js, "navigator.gpu"@) || has_substring(js, "requestAdapter"@)
        || has_substring(js, "lightweight-charts"@) || has_substring(js, "getContext(\"webgpu\")"@)
        || has_substring(js, "createShaderModule"@)
}

/// A script uses WebGL.
pub open spec fn js_shows_webgl(js: Seq<char>) -> bool {
    has_substring(js, "webgl2"@) || has_substring(js, "getContext(\"webgl2\")"@)
        || has_substring(js, "webgl"@)
}

/// A script uses a 2D canvas context.
pub open spec fn js_shows_canvas_2d(js: Seq<char>) -> bool {
    has_substring(js, "getContext(\"2d\")"@) || has_substring(js, "2d"@)
        || has_substring(js, "CanvasRenderingContext2D"@)
}

/// A script belongs to the egui engine.
pub open spec fn js_shows_egui(js: Seq<char>) -> bool {
    has_substring(js, "egui"@) || has_substring(js, "eframe"@) || has_substring(js, "rust_egui"@)
}

/// Some script uses WebGPU.
pub open spec fn some_script_webgpu(scripts: Seq<Seq<char>>) -> bool {
    exists|i: int| 0 <= i < scripts.len() && #[trigger] js_shows_webgpu(scripts[i])
}

/// Some script uses WebGL.
pub open spec fn some_script_webgl(scripts: Seq<Seq<char>>) -> bool {
    exists|i: int| 0 <= i < scripts.len() && #[trigger] js_shows_webgl(scripts[i])
}

/// Some script uses a 2D canvas context.
pub open spec fn some_script_canvas_2d(scripts: Seq<Seq<char>>) -> bool {
    exists|i: int| 0 <= i < scripts.len() && #[trigger] js_shows_canvas_2d(scripts[i])
}

/// Some script belongs to the egui engine.
pub open spec fn some_script_egui(scripts: Seq<Seq<char>>) -> bool {
    exists|i: int| 0 <= i < scripts.len() && #[trigger] js_shows_egui(scripts[i])
}

/// What the inspector concludes from the bundle's `index.html` (when it
/// could be read) and its scripts. The HTML DOM layer is always present.
pub open spec fn signatures_of(html: Option<Seq<char>>, scripts: Seq<Seq<char>>) -> CodeSignatures {
    CodeSignatures {
        has_webgpu_canvas: (html matches Some(h) && html_shows_canvas(h)) || some_script_webgpu(
            scripts,
        ),
        has_webgl_canvas: some_script_webgl(scripts),
        has_canvas_2d: (html matches Some(h) && html_shows_canvas_2d(h)) || some_script_canvas_2d(
            scripts,
        ),
        has_html_dom: true,
        has_egui_rust: (html matches Some(h) && html_shows_egui(h)) || some_script_egui(scripts),
    }
}

/// The signatures after also scanning `index.html`.
pub open spec fn with_html(s: CodeSignatures, html: Seq<char>) -> CodeSignatures {
    CodeSignatures {
        has_webgpu_canvas: s.has_webgpu_canvas || html_shows_canvas(html),
        has_canvas_2d: s.has_canvas_2d || html_shows_canvas_2d(html),
        has_egui_rust: s.has_egui_rust || html_shows_egui(html),
        ..s
    }
}

/// The signatures after also scanning one script.
pub open spec fn with_script(s: CodeSignatures, js: Seq<char>) -> CodeSignatures {
    CodeSignatures {
        has_webgpu_canvas: s.has_webgpu_canvas || js_shows_webgpu(js),
        has_webgl_canvas: s.has_webgl_canvas || js_shows_webgl(js),
        has_canvas_2d: s.has_canvas_2d || js_shows_canvas_2d(js),
        has_egui_rust: s.has_egui_rust || js_shows_egui(js),
        ..s
    }
}

/// The engine that draws the chart region: WebGPU first, then WebGL, then
/// Canvas 2D; no chart region when none of them was found.
pub open spec fn chart_technology_of(s: CodeSignatures) -> Option<LayerTechnology> {
    if s.has_webgpu_canvas {
        Some(LayerTechnology::WebGPUNative)
    } else if s.has_webgl_canvas {
        Some(LayerTechnology::WebGL2Fallback)
    } else if s.has_canvas_2d {
        Some(LayerTechnology::Canvas2DFast)
    } else {
        None
    }
}

/// The regions of the layer allocation plan, in drawing order: the egui
/// toolbar when egui was found, the HTML header always, then the chart.
pub open spec fn planned_regions(s: CodeSignatures) -> Seq<(LayerTechnology, Seq<char>)> {
    let toolbar = if s.has_egui_rust {
        seq![(LayerTechnology::EguiRustNative, "Native Egui Rust Engine Layer"@)]
    } else {
        Seq::empty()
    };
    let chart = match chart_technology_of(s) {
        Some(t) => seq![(t, "Native WGPU/WebGL/2D Graphics Layer (Layering Punching)"@)],
        None => Seq::empty(),
    };
    toolbar + seq![(LayerTechnology::UltralightHTML, "Ultralight HTML/CSS DOM Layer"@)] + chart
}

/// Technology and caption of each slot.
pub open spec fn slot_views(slots: Seq<RegionSlot>) -> Seq<(LayerTechnology, Seq<char>)> {
    slots.map_values(|r: RegionSlot| (r.tech, r.label@))
}

impl CodeSignatures {
    /// The engine that draws the chart region, if there is one.
    pub fn chart_technology(&self) -> (tech: Option<LayerTechnology>)
        ensures
            tech == chart_technology_of(*self),
            self.has_webgpu_canvas ==> tech == Some(LayerTechnology::WebGPUNative),
            !self.has_webgpu_canvas && self.has_webgl_canvas ==> tech == Some(
                LayerTechnology::WebGL2Fallback,
            ),
            !self.has_webgpu_canvas && !self.has_webgl_canvas && self.has_canvas_2d ==> tech
                == Some(LayerTechnology::Canvas2DFast),
            !self.has_webgpu_canvas && !self.has_webgl_canvas && !self.has_canvas_2d ==> tech
                is None,
    {
        if self.has_webgpu_canvas {
            Some(LayerTechnology::WebGPUNative)
        } else if self.has_webgl_canvas {
            Some(LayerTechnology::WebGL2Fallback)
        } else if self.has_canvas_2d {
            Some(LayerTechnology::Canvas2DFast)
        } else {
            None
        }
    }

    /// Left edge, in points, of the chart region: right of the egui toolbar
    /// when there is one, else right of the slim HTML sidebar.
    pub fn chart_left(&self) -> (x: u32)
        ensures
            x == (if self.has_egui_rust { 220u32 } else { 52u32 }),
    {
        if self.has_egui_rust {
            220
        } else {
            52
        }
    }
}

/// The views of a list of strings.
pub open spec fn string_views(strings: Seq<String>) -> Seq<Seq<char>> {
    strings.map_values(|s: String| s@)
}

/// The view of an optional string slice.
pub open spec fn opt_str_view(s: Option<&str>) -> Option<Seq<char>> {
    match s {
        Some(t) => Some(t@),
        None => None,
    }
}

/// Zero-config code inspector: scans web project bundles for WebGPU,
/// WebGL2, Canvas 2D, HTML and egui engine signatures and plans the layers.
pub struct CodeInspector;

impl CodeInspector {
    /// Signatures before anything was scanned: only the HTML DOM layer.
    pub fn initial_signatures() -> (sigs: CodeSignatures)
        ensures
            sigs == signatures_of(None, Seq::empty()),
    {
        CodeSignatures {
            has_webgpu_canvas: false,
            has_webgl_canvas: false,
            has_canvas_2d: false,
            has_html_dom: true,
            has_egui_rust: false,
        }
    }

    /// Adds what the bundle's `index.html` reveals.
    pub fn scan_index_html(sigs: &mut CodeSignatures, html: &str)
        ensures
            *final(sigs) == with_html(*old(sigs), html@),
            has_substring(html@, "canvas"@) || has_substring(html@, "chart"@) ==> final(sigs).has_webgpu_canvas,
            has_substring(html@, "2d"@) ==> final(sigs).has_canvas_2d,
            has_substring(html@, "egui"@) ==> final(sigs).has_egui_rust,
            final(sigs).has_webgl_canvas == old(sigs).has_webgl_canvas,
            old(sigs).has_webgpu_canvas ==> final(sigs).has_webgpu_canvas,
            old(sigs).has_canvas_2d ==> final(sigs).has_canvas_2d,
            old(sigs).has_egui_rust ==> final(sigs).has_egui_rust,
            final(sigs).has_html_dom == old(sigs).has_html_dom,
    {
        if contains_pattern(html, "canvas") || contains_pattern(html, "chart") {
            sigs.has_webgpu_canvas = true;
        }
        if contains_pattern(html, "2d") || contains_pattern(html, "getContext('2d')") {
            sigs.has_canvas_2d = true;
        }
        if contains_pattern(html, "egui") || contains_pattern(html, "data-engine=\"egui\"")
            || contains_pattern(html, "rust-egui") {
            sigs.has_egui_rust = true;
        }
    }

    /// Adds what one JavaScript asset reveals.
    pub fn scan_js_asset(sigs: &mut CodeSignatures, js: &str)
        ensures
            *final(sigs) == with_script(*old(sigs), js@),
            has_substring(js@, "2d"@) || has_substring(js@, "CanvasRenderingContext2D"@)
                ==> final(sigs).has_canvas_2d,
            has_substring(js@, "webgl"@) ==> final(sigs).has_webgl_canvas,
            has_substring(js@, "navigator.gpu"@) || has_substring(js@, "requestAdapter"@)
                || has_substring(js@, "lightweight-charts"@) || has_substring(
                js@,
                "createShaderModule"@,
            ) ==> final(sigs).has_webgpu_canvas,
            has_substring(js@, "egui"@) || has_substring(js@, "eframe"@) ==> final(sigs).has_egui_rust,
            old(sigs).has_webgpu_canvas ==> final(sigs).has_webgpu_canvas,
            old(sigs).has_webgl_canvas ==> final(sigs).has_webgl_canvas,
            old(sigs).has_canvas_2d ==> final(sigs).has_canvas_2d,
            old(sigs).has_egui_rust ==> final(sigs).has_egui_rust,
            final(sigs).has_html_dom == old(sigs).has_html_dom,
    {
        if contains_pattern(js, "navigator.gpu") || contains_pattern(js, "requestAdapter")
            || contains_pattern(js, "lightweight-charts") || contains_pattern(
            js,
            "getContext(\"webgpu\")",
        ) || contains_pattern(js, "createShaderModule") {
            sigs.has_webgpu_canvas = true;
        }
        if contains_pattern(js, "webgl2") || contains_pattern(js, "getContext(\"webgl2\")")
            || contains_pattern(js, "webgl") {
            sigs.has_webgl_canvas = true;
        }
        if contains_pattern(js, "getContext(\"2d\")") || contains_pattern(js, "2d")
            || contains_pattern(js, "CanvasRenderingContext2D") {
            sigs.has_canvas_2d = true;
        }
        if contains_pattern(js, "egui") || contains_pattern(js, "eframe") || contains_pattern(
            js,
            "rust_egui",
        ) {
            sigs.has_egui_rust = true;
        }
    }

    /// Scans a whole bundle: its `index.html`, when it could be read, and the
    /// contents of its JavaScript assets.
    pub fn inspect_sources(index_html: Option<&str>, scripts: &Vec<String>) -> (sigs:
        CodeSignatures)
        ensures
            sigs == signatures_of(opt_str_view(index_html), string_views(scripts@)),
    {
        let mut sigs = Self::initial_signatures();
        match index_html {
            Some(html) => Self::scan_index_html(&mut sigs, html),
            None => {},
        }
        let ghost html_view = opt_str_view(index_html);
        let ghost all = string_views(scripts@);
        let mut i: usize = 0;
        while i < scripts.len()
            invariant
                i <= scripts.len(),
                all == string_views(scripts@),
                sigs == signatures_of(html_view, all.take(i as int)),
            decreases scripts.len() - i,
        {
            Self::scan_js_asset(&mut sigs, scripts[i].as_str());
            proof {
                lemma_signatures_extend(html_view, all, i as int);
            }
            i = i + 1;
        }
        assert(all.take(scripts.len() as int) =~= all);
        sigs
    }

    /// The adaptive layer allocation plan for the found signatures.
    pub fn plan_regions(sigs: &CodeSignatures) -> (slots: Vec<RegionSlot>)
        ensures
            slot_views(slots@) == planned_regions(*sigs),
    {
        let mut slots: Vec<RegionSlot> = Vec::new();
        if sigs.has_egui_rust {
            slots.push(
                RegionSlot {
                    tech: LayerTechnology::EguiRustNative,
                    label: "Native Egui Rust Engine Layer".to_string(),
                },
            );
        }
        slots.push(
            RegionSlot {
                tech: LayerTechnology::UltralightHTML,
                label: "Ultralight HTML/CSS DOM Layer".to_string(),
            },
        );
        match sigs.chart_technology() {
            Some(tech) => {
                slots.push(
                    RegionSlot {
                        tech,
                        label: "Native WGPU/WebGL/2D Graphics Layer (Layering Punching)".to_string(),
                    },
                );
            },
            None => {},
        }
        assert(slot_views(slots@) =~= planned_regions(*sigs));
        slots
    }
}

/// Scanning more never loses a signature found earlier, and the HTML DOM
/// layer is always kept.
pub proof fn lemma_scanning_only_adds(s: CodeSignatures, html: Seq<char>, js: Seq<char>)
    ensures
        s.has_webgpu_canvas ==> with_script(s, js).has_webgpu_canvas && with_html(s, html).has_webgpu_canvas,
        s.has_webgl_canvas ==> with_script(s, js).has_webgl_canvas && with_html(s, html).has_webgl_canvas,
        s.has_canvas_2d ==> with_script(s, js).has_canvas_2d && with_html(s, html).has_canvas_2d,
        s.has_egui_rust ==> with_script(s, js).has_egui_rust && with_html(s, html).has_egui_rust,
        with_script(s, js).has_html_dom == s.has_html_dom,
        with_html(s, html).has_html_dom == s.has_html_dom,
{
}

/// Adding scripts to a bundle never removes a signature found in it.
pub proof fn lemma_more_scripts_keep_signatures(
    html: Option<Seq<char>>,
    a: Seq<Seq<char>>,
    b: Seq<Seq<char>>,
)
    ensures
        signatures_of(html, a).has_webgpu_canvas ==> signatures_of(html, a + b).has_webgpu_canvas,
        signatures_of(html, a).has_webgl_canvas ==> signatures_of(html, a + b).has_webgl_canvas,
        signatures_of(html, a).has_canvas_2d ==> signatures_of(html, a + b).has_canvas_2d,
        signatures_of(html, a).has_egui_rust ==> signatures_of(html, a + b).has_egui_rust,
        signatures_of(html, a + b).has_html_dom,
{
    let ab = a + b;
    assert forall|k: int| 0 <= k < a.len() implies #[trigger] ab[k] == a[k] by {}
    if some_script_webgpu(a) {
        let k = choose|k: int| 0 <= k < a.len() && #[trigger] js_shows_webgpu(a[k]);
        assert(js_shows_webgpu(ab[k]));
    }
    if some_script_webgl(a) {
        let k = choose|k: int| 0 <= k < a.len() && #[trigger] js_shows_webgl(a[k]);
        assert(js_shows_webgl(ab[k]));
    }
    if some_script_canvas_2d(a) {
        let k = choose|k: int| 0 <= k < a.len() && #[trigger] js_shows_canvas_2d(a[k]);
        assert(js_shows_canvas_2d(ab[k]));
    }
    if some_script_egui(a) {
        let k = choose|k: int| 0 <= k < a.len() && #[trigger] js_shows_egui(a[k]);
        assert(js_shows_egui(ab[k]));
    }
}

/// The plan always holds the HTML header region; it holds the egui toolbar
/// exactly when egui was found, first; and it holds a chart region exactly
/// when some graphics engine was found, last.
pub proof fn lemma_plan_shape(s: CodeSignatures)
    ensures
        planned_regions(s).len() == 1 + (if s.has_egui_rust { 1int } else { 0int }) + (if s.has_webgpu_canvas
            || s.has_webgl_canvas || s.has_canvas_2d {
            1int
        } else {
            0int
        }),
        planned_regions(s)[if s.has_egui_rust { 1int } else { 0int }].0
            == LayerTechnology::UltralightHTML,
        s.has_egui_rust ==> planned_regions(s)[0].0 == LayerTechnology::EguiRustNative,
        (s.has_webgpu_canvas || s.has_webgl_canvas || s.has_canvas_2d) ==> planned_regions(s).last().0
            == chart_technology_of(s).unwrap(),
{
}

/// The chart region uses WebGPU whenever it was found, and falls back to
/// WebGL before Canvas 2D.
pub proof fn lemma_chart_engine_priority(s: CodeSignatures)
    ensures
        s.has_webgpu_canvas ==> chart_technology_of(s) == Some(LayerTechnology::WebGPUNative),
        !s.has_webgpu_canvas && s.has_webgl_canvas ==> chart_technology_of(s) == Some(
            LayerTechnology::WebGL2Fallback,
        ),
        !s.has_webgpu_canvas && !s.has_webgl_canvas && s.has_canvas_2d ==> chart_technology_of(s)
            == Some(LayerTechnology::Canvas2DFast),
        chart_technology_of(s) == Some(LayerTechnology::WebGL2Fallback) ==> s.has_webgl_canvas,
        chart_technology_of(s) == Some(LayerTechnology::Canvas2DFast) ==> s.has_canvas_2d,
        chart_technology_of(s) is None <==> !(s.has_webgpu_canvas || s.has_webgl_canvas
            || s.has_canvas_2d),
{
}

/// Which texts of a script turn each signature on: any script that contains
/// "2d" or "CanvasRenderingContext2D" shows a 2D canvas, any that contains
/// "webgl" shows WebGL, the WebGPU entry points show WebGPU, and "egui" or
/// "eframe" show egui. A signature turns on only on such a text.
pub proof fn lemma_script_signals(s: CodeSignatures, js: Seq<char>)
    ensures
        has_substring(js, "2d"@) ==> with_script(s, js).has_canvas_2d,
        has_substring(js, "CanvasRenderingContext2D"@) ==> with_script(s, js).has_canvas_2d,
        has_substring(js, "webgl"@) ==> with_script(s, js).has_webgl_canvas,
        has_substring(js, "navigator.gpu"@) ==> with_script(s, js).has_webgpu_canvas,
        has_substring(js, "requestAdapter"@) ==> with_script(s, js).has_webgpu_canvas,
        has_substring(js, "lightweight-charts"@) ==> with_script(s, js).has_webgpu_canvas,
        has_substring(js, "createShaderModule"@) ==> with_script(s, js).has_webgpu_canvas,
        has_substring(js, "egui"@) ==> with_script(s, js).has_egui_rust,
        has_substring(js, "eframe"@) ==> with_script(s, js).has_egui_rust,
        with_script(s, js).has_canvas_2d && !s.has_canvas_2d ==> has_substring(js, "2d"@)
            || has_substring(js, "getContext(\"2d\")"@) || has_substring(
            js,
            "CanvasRenderingContext2D"@,
        ),
        with_script(s, js).has_webgl_canvas && !s.has_webgl_canvas ==> has_substring(js, "webgl"@)
            || has_substring(js, "webgl2"@) || has_substring(js, "getContext(\"webgl2\")"@),
{
}

/// Which texts of `index.html` turn each signature on: "canvas" or "chart"
/// show a WebGPU canvas, "2d" a 2D canvas, "egui" the egui engine; the HTML
/// never shows WebGL.
pub proof fn lemma_html_signals(s: CodeSignatures, html: Seq<char>)
    ensures
        has_substring(html, "canvas"@) ==> with_html(s, html).has_webgpu_canvas,
        has_substring(html, "chart"@) ==> with_html(s, html).has_webgpu_canvas,
        has_substring(html, "2d"@) ==> with_html(s, html).has_canvas_2d,
        has_substring(html, "egui"@) ==> with_html(s, html).has_egui_rust,
        with_html(s, html).has_webgl_canvas == s.has_webgl_canvas,
{
}

/// Scanning one more script extends the signatures of the prefix scanned so far.
proof fn lemma_signatures_extend(html: Option<Seq<char>>, all: Seq<Seq<char>>, i: int)
    requires
        0 <= i < all.len(),
    ensures
        signatures_of(html, all.take(i + 1)) == with_script(signatures_of(html, all.take(i)), all[i]),
{
    let pre = all.take(i);
    let post = all.take(i + 1);
    assert(post[i] == all[i]);
    assert forall|k: int| 0 <= k < i implies #[trigger] post[k] == pre[k] by {}
    if some_script_webgpu(post) {
        let k = choose|k: int| 0 <= k < post.len() && #[trigger] js_shows_webgpu(post[k]);
        if k < i {
            assert(js_shows_webgpu(pre[k]));
        }
    }
    if some_script_webgpu(pre) {
        let k = choose|k: int| 0 <= k < pre.len() && #[trigger] js_shows_webgpu(pre[k]);
        assert(js_shows_webgpu(post[k]));
    }
    if js_shows_webgpu(all[i]) {
        assert(js_shows_webgpu(post[i]));
    }
    if some_script_webgl(post) {
        let k = choose|k: int| 0 <= k < post.len() && #[trigger] js_shows_webgl(post[k]);
        if k < i {
            assert(js_shows_webgl(pre[k]));
        }
    }
    if some_script_webgl(pre) {
        let k = choose|k: int| 0 <= k < pre.len() && #[trigger] js_shows_webgl(pre[k]);
        assert(js_shows_webgl(post[k]));
    }
    if js_shows_webgl(all[i]) {
        assert(js_shows_webgl(post[i]));
    }
    if some_script_canvas_2d(post) {
        let k = choose|k: int| 0 <= k < post.len() && #[trigger] js_shows_canvas_2d(post[k]);
        if k < i {
            assert(js_shows_canvas_2d(pre[k]));
        }
    }
    if some_script_canvas_2d(pre) {
        let k = choose|k: int| 0 <= k < pre.len() && #[trigger] js_shows_canvas_2d(pre[k]);
        assert(js_shows_canvas_2d(post[k]));
    }
    if js_shows_canvas_2d(all[i]) {
        assert(js_shows_canvas_2d(post[i]));
    }
    if some_script_egui(post) {
        let k = choose|k: int| 0 <= k < post.len() && #[trigger] js_shows_egui(post[k]);
        if k < i {
            assert(js_shows_egui(pre[k]));
        }
    }
    if some_script_egui(pre) {
        let k = choose|k: int| 0 <= k < pre.len() && #[trigger] js_shows_egui(pre[k]);
        assert(js_shows_egui(post[k]));
    }
    if js_shows_egui(all[i]) {
        assert(js_shows_egui(post[i]));
    }
}

} // verus!
