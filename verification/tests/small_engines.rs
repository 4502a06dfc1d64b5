use smart_brain_engine::branding::BrandingEngine;
use smart_brain_engine::chart_engine::GraphicsMode;
use smart_brain_engine::cursor_engine::CursorRenderMode;
use smart_brain_engine::event_router::EventRouter;
use smart_brain_engine::icon_engine::IconType;
use smart_brain_engine::qt_engine::QtDataEngine;

#[test]
fn branding_labels() {
    let b = BrandingEngine::new("Trader Pro", "Acme Labs");
    assert_eq!(b.app_name, "Trader Pro");
    assert_eq!(b.developer_brand, "Acme Labs");
    assert_eq!(b.app_label(), "App: Trader Pro");
    assert_eq!(b.developer_label(), "By: Acme Labs");
    let (a, d, c) = b.credit_footer_labels();
    assert_eq!(a, "App: Trader Pro");
    assert_eq!(d, "By: Acme Labs");
    assert_eq!(c, BrandingEngine::ENGINE_CORE_CREDIT);
    assert_eq!(
        BrandingEngine::ENGINE_CORE_CREDIT,
        "Powered by Smart Brain Engine v0.1.0 — Architecture by Satyam & Team"
    );
}

#[test]
fn icon_symbols() {
    assert_eq!(IconType::Chart.symbol(), "📊");
    assert_eq!(IconType::Settings.symbol(), "⚙");
    assert_eq!(IconType::LightningHFT.symbol(), "⚡");
    assert_eq!(IconType::ExportExcel.symbol(), "📋");
    assert_eq!(IconType::ExportPdf.symbol(), "📄");
    assert_eq!(IconType::SecurityShield.symbol(), "🛡");
    assert_eq!(IconType::Bluetooth.symbol(), "📶");
    assert_eq!(IconType::WebRTC.symbol(), "🎥");
    assert_eq!(IconType::USB.symbol(), "🔌");
    assert_eq!(IconType::ThemePalette.symbol(), "🎨");
    assert_eq!(IconType::NotificationBell.symbol(), "🔔");
}

#[test]
fn graphics_mode_selection() {
    assert_eq!(GraphicsMode::for_backend(true), GraphicsMode::WebGL2Standard);
    assert_eq!(GraphicsMode::for_backend(false), GraphicsMode::WebGPUNextGen);
    assert_eq!(GraphicsMode::for_paint(true), GraphicsMode::WebGL2Standard);
    assert_eq!(GraphicsMode::for_paint(false), GraphicsMode::WebGPUNextGen);
}

#[test]
fn cursor_mode_and_colour() {
    let gpu = CursorRenderMode::for_hardware(true);
    let cpu = CursorRenderMode::for_hardware(false);
    assert_eq!(gpu, CursorRenderMode::GPUAccelerated);
    assert_eq!(cpu, CursorRenderMode::CPUSoftware);
    assert_eq!(gpu.crosshair_rgb(), [0, 255, 180]);
    assert_eq!(cpu.crosshair_rgb(), [255, 200, 0]);
}

#[test]
fn event_routing() {
    let mut r = EventRouter::new();
    assert!(!r.is_mouse_over_html);
    assert!(r.route_layer_hits(&vec![false, true, false]));
    assert!(r.is_mouse_over_html);
    assert!(!r.route_layer_hits(&vec![false, false]));
    assert!(!r.is_mouse_over_html);
    assert!(!r.route_layer_hits(&Vec::new()));
}

#[test]
fn qt_scaffold() {
    let mut q = QtDataEngine::new();
    q.process_data_feed();
}
