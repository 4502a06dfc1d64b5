use smart_brain_engine::code_inspector::{CodeInspector, CodeSignatures, LayerTechnology};
use smart_brain_engine::text::{chars_of, contains_pattern};

fn none() -> CodeSignatures {
    CodeInspector::initial_signatures()
}

#[test]
fn initial_signatures_only_html() {
    let s = none();
    assert!(s.has_html_dom);
    assert!(!s.has_webgpu_canvas && !s.has_webgl_canvas && !s.has_canvas_2d && !s.has_egui_rust);
}

#[test]
fn html_canvas_and_chart_mean_webgpu() {
    let mut s = none();
    CodeInspector::scan_index_html(&mut s, "<div id=\"chart\"></div>");
    assert!(s.has_webgpu_canvas);
    assert!(!s.has_canvas_2d && !s.has_egui_rust && !s.has_webgl_canvas);
    let mut t = none();
    CodeInspector::scan_index_html(&mut t, "<canvas></canvas>");
    assert!(t.has_webgpu_canvas);
}

#[test]
fn html_2d_and_egui() {
    let mut s = none();
    CodeInspector::scan_index_html(&mut s, "<script>c.getContext('2d')</script><div data-engine=\"egui\">");
    assert!(s.has_canvas_2d);
    assert!(s.has_egui_rust);
    assert!(!s.has_webgpu_canvas);
}

#[test]
fn html_without_signatures() {
    let mut s = none();
    CodeInspector::scan_index_html(&mut s, "<html><body>Hello</body></html>");
    assert_eq!(s, none());
}

#[test]
fn js_signatures() {
    let mut s = none();
    CodeInspector::scan_js_asset(&mut s, "const a = await navigator.gpu.requestAdapter();");
    assert!(s.has_webgpu_canvas && !s.has_webgl_canvas);
    let mut t = none();
    CodeInspector::scan_js_asset(&mut t, "canvas.getContext(\"webgl\")");
    assert!(t.has_webgl_canvas && !t.has_webgpu_canvas && !t.has_canvas_2d);
    let mut u = none();
    CodeInspector::scan_js_asset(&mut u, "let x: CanvasRenderingContext2D;");
    assert!(u.has_canvas_2d);
    let mut v = none();
    CodeInspector::scan_js_asset(&mut v, "import init from './eframe_app.js'");
    assert!(v.has_egui_rust);
}

#[test]
fn js_scan_never_clears() {
    let mut s = none();
    CodeInspector::scan_js_asset(&mut s, "webgl2");
    CodeInspector::scan_js_asset(&mut s, "nothing here");
    assert!(s.has_webgl_canvas);
}

#[test]
fn inspect_sources_combines_html_and_scripts() {
    let scripts = vec!["webgl".to_string(), "rust_egui".to_string(), "plain".to_string()];
    let s = CodeInspector::inspect_sources(Some("<canvas>"), &scripts);
    assert!(s.has_webgpu_canvas && s.has_webgl_canvas && s.has_egui_rust && s.has_html_dom);
    assert!(!s.has_canvas_2d);
    let empty: Vec<String> = Vec::new();
    assert_eq!(CodeInspector::inspect_sources(None, &empty), none());
    let only_js = vec!["lightweight-charts".to_string()];
    let t = CodeInspector::inspect_sources(None, &only_js);
    assert!(t.has_webgpu_canvas && !t.has_egui_rust);
}

#[test]
fn chart_technology_priority() {
    let mut s = none();
    assert_eq!(s.chart_technology(), None);
    s.has_canvas_2d = true;
    assert_eq!(s.chart_technology(), Some(LayerTechnology::Canvas2DFast));
    s.has_webgl_canvas = true;
    assert_eq!(s.chart_technology(), Some(LayerTechnology::WebGL2Fallback));
    s.has_webgpu_canvas = true;
    assert_eq!(s.chart_technology(), Some(LayerTechnology::WebGPUNative));
}

#[test]
fn chart_left_edge() {
    let mut s = none();
    assert_eq!(s.chart_left(), 52);
    s.has_egui_rust = true;
    assert_eq!(s.chart_left(), 220);
}

#[test]
fn plan_with_everything() {
    let mut s = none();
    s.has_egui_rust = true;
    s.has_webgl_canvas = true;
    let plan = CodeInspector::plan_regions(&s);
    let techs: Vec<LayerTechnology> = plan.iter().map(|r| r.tech).collect();
    assert_eq!(
        techs,
        vec![
            LayerTechnology::EguiRustNative,
            LayerTechnology::UltralightHTML,
            LayerTechnology::WebGL2Fallback
        ]
    );
    assert_eq!(plan[0].label, "Native Egui Rust Engine Layer");
    assert_eq!(plan[1].label, "Ultralight HTML/CSS DOM Layer");
    assert_eq!(plan[2].label, "Native WGPU/WebGL/2D Graphics Layer (Layering Punching)");
}

#[test]
fn plan_with_nothing_is_header_only() {
    let plan = CodeInspector::plan_regions(&none());
    assert_eq!(plan.len(), 1);
    assert_eq!(plan[0].tech, LayerTechnology::UltralightHTML);
}

#[test]
fn substring_search_edges() {
    assert!(contains_pattern("abc", ""));
    assert!(contains_pattern("", ""));
    assert!(!contains_pattern("", "a"));
    assert!(!contains_pattern("ab", "abc"));
    assert!(contains_pattern("xxabc", "abc"));
    assert!(contains_pattern("abcxx", "abc"));
    assert!(!contains_pattern("abxabyc", "abc"));
    assert!(contains_pattern("über 📈 chart", "📈 ch"));
    assert!(!contains_pattern("2D", "2d"));
}

#[test]
fn chars_of_splits_unicode_characters() {
    assert_eq!(chars_of("a📈b"), vec!['a', '📈', 'b']);
    assert!(chars_of("").is_empty());
}
