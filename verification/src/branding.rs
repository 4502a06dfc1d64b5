use vstd::prelude::*;

verus! {

broadcast use vstd::string::group_string_axioms;

/// Brand customization: developers choose the app name and their brand,
/// while the core engine credit stays mandatory.
pub struct BrandingEngine {
    pub app_name: String,
    pub developer_brand: String,
}

impl BrandingEngine {
    /// The core engine credit that every branded app shows in its footer.
    pub const ENGINE_CORE_CREDIT: &'static str = "Powered by Smart Brain Engine v0.1.0 — Architecture by Satyam & Team";

    /// A branding with the given app name and developer brand.
    pub fn new(app_name: &str, developer_brand: &str) -> (branding: Self)
        ensures
            branding.app_name@ == app_name@,
            branding.developer_brand@ == developer_brand@,
    {
        BrandingEngine { app_name: app_name.to_string(), developer_brand: developer_brand.to_string() }
    }

    /// The footer caption naming the app.
    pub fn app_label(&self) -> (label: String)
        ensures
            label@ == "App: "@ + self.app_name@,
    {
        let mut label = "App: ".to_string();
        label.append(self.app_name.as_str());
        label
    }

    /// The footer caption naming the developer.
    pub fn developer_label(&self) -> (label: String)
        ensures
            label@ == "By: "@ + self.developer_brand@,
    {
        let mut label = "By: ".to_string();
        label.append(self.developer_brand.as_str());
        label
    }

    /// The footer captions, left to right: app, developer, engine credit.
    pub fn credit_footer_labels(&self) -> (labels: (String, String, &'static str))
        ensures
            labels.0@ == "App: "@ + self.app_name@,
            labels.1@ == "By: "@ + self.developer_brand@,
            labels.2@ == Self::ENGINE_CORE_CREDIT@,
    {
        (self.app_label(), self.developer_label(), Self::ENGINE_CORE_CREDIT)
    }
}

} // verus!
