use sunrise_sunset::{compile_url, Config};

fn section(base_url: &str, lat: &str, lng: &str) -> Config {
    Config {
        default: Some(sunrise_sunset::config::Default {
            base_url: base_url.to_string(),
            lat: lat.to_string(),
            lng: lng.to_string(),
            output: "out.toml".to_string(),
        }),
    }
}

#[test]
fn request_builder_composes_the_locator() {
    let url = compile_url(section("https://api.example.com", "40.7", "-74")).expect("valid");
    assert_eq!(url.as_str(), "https://api.example.com/json?lat=40.7&lng=-74");
}

#[test]
fn request_builder_yields_absence_without_default_section() {
    assert!(compile_url(Config { default: None }).is_none());
}

#[test]
fn request_builder_rejects_an_invalid_locator() {
    assert!(compile_url(section("notaurl", "40.7", "-74")).is_none());
}
