use d2b_clip_picker::color::{fallback_realm_color, is_alpha_color, is_hex_color, is_safe_css_color};
use d2b_clip_picker::opacity::is_opacity_text;
use d2b_clip_picker::pin_icon::generated_pin_texture;
use d2b_clip_picker::protocol::{
    AttributionQuality, Candidate, PresentationIsolationPosture, PresentationProviderKind,
    RealmDisplay, RealmDisplayMetadata, RealmKind,
};
use d2b_clip_picker::theme::{
    build_realm_css_classes, class_of, realm_colors_css, ColorScheme, ThemePalette,
};

fn candidate(entry_id: &str, realm: &str) -> Candidate {
    Candidate {
        entry_id: entry_id.to_owned(),
        source_realm: realm.to_owned(),
        source_realm_kind: RealmKind::Vm,
        source_canonical_target: None,
        source_provider_kind: PresentationProviderKind::LocalVm,
        source_isolation_posture: PresentationIsolationPosture::VirtualMachine,
        source_app: None,
        source_app_id: None,
        source_attribution: AttributionQuality::ExactClient,
        preview_text: None,
        content_type: "text/plain".to_owned(),
        timestamp_unix_ms: None,
        thumbnail_png_base64: None,
        byte_count: None,
        confirmation_required: false,
        capability_preflight: None,
    }
}

#[test]
fn default_palette_uses_neutral_border_and_realm_rail() {
    let css = ThemePalette::default().css();
    assert!(css.contains("background-color: #1e1e2e;"));
    assert!(css.contains("border: 2px solid #2a2d35;"));
    assert!(css.contains("background: alpha(#3584e4, 0.14);"));
    assert!(css.contains("border-left-width: 5px;"));
    assert!(css.contains(".realm-label"));
    assert!(css.contains(".pin-toggle:checked"));
}

#[test]
fn fallback_realm_color_is_deterministic_and_safe() {
    assert_eq!(fallback_realm_color("work"), fallback_realm_color("work"));
    assert!(is_safe_css_color(&fallback_realm_color("work")));
    assert_ne!(fallback_realm_color("work"), fallback_realm_color("dev"));
}

#[test]
fn theme_palette_accepts_safe_colors() {
    let palette = ThemePalette {
        background: "#010203".to_owned(),
        foreground: "#111213".to_owned(),
        border: "#212223".to_owned(),
        accent: "#313233".to_owned(),
        selected_background: "alpha(#313233, 0.14)".to_owned(),
        realm_background: "alpha(#313233, 0.14)".to_owned(),
        realm_header_background: "alpha(#313233, 0.10)".to_owned(),
        search_background: "alpha(currentColor, 0.07)".to_owned(),
        warning_background: "alpha(#414243, 1)".to_owned(),
    };
    palette.validate().expect("palette should validate");
}

#[test]
fn theme_palette_rejects_uppercase_hex_and_arbitrary_css() {
    let mut palette = ThemePalette {
        background: "#ABCDEF".to_owned(),
        ..ThemePalette::default()
    };
    assert!(palette.validate().is_err());

    palette.background = "url(file:///tmp/x)".to_owned();
    assert!(palette.validate().is_err());
}

#[test]
fn the_default_palette_is_safe() {
    assert!(ThemePalette::default().validate().is_ok());
    assert!(generated_pin_texture(&ThemePalette::default().foreground).len() == 16 * 16 * 4);
}

#[test]
fn the_first_unsafe_field_is_named() {
    let palette = ThemePalette {
        accent: "red".to_owned(),
        warning_background: "blue".to_owned(),
        ..ThemePalette::default()
    };
    let error = palette.validate().expect_err("accent is unsafe");
    assert_eq!(
        error.message(),
        "theme field accent must be a #rrggbb color or alpha(#rrggbb|currentColor, opacity)"
    );
}

#[test]
fn the_whole_style_sheet_of_a_palette() {
    let palette = ThemePalette {
        background: "B".to_owned(),
        foreground: "F".to_owned(),
        border: "R".to_owned(),
        accent: "A".to_owned(),
        selected_background: "S".to_owned(),
        realm_background: "M".to_owned(),
        realm_header_background: "H".to_owned(),
        search_background: "E".to_owned(),
        warning_background: "W".to_owned(),
    };
    let expected = "
        window.d2b-clip-picker {
            background-color: B;
            color: F;
            border: 2px solid R;
            border-radius: 12px;
        }
        .d2b-clip-picker-root {
            background-color: B;
            color: F;
            border: 2px solid R;
            border-radius: 12px;
        }
        headerbar { background: transparent; box-shadow: none; }
        .drag-handle { padding: 8px 12px; }
        .pin-toggle { min-width: 24px; padding: 4px 6px; }
        .pin-toggle:checked {
            background: A;
            color: F;
        }
        .clipboard-list { background: transparent; }
        .clipboard-item {
            border: 1px solid R;
            border-left-width: 5px;
            border-radius: 10px;
            padding: 4px;
            margin: 6px 12px;
            transition: border-color 150ms ease, background 150ms ease;
        }
        .clipboard-item:hover { background: E; }
        .clipboard-item:selected { background: S; }
        .clipboard-preview { opacity: 0.94; }
        .realm-pill, .search-pill, .warning-pill {
            border-radius: 999px;
            padding: 4px 8px;
        }
        .realm-pill { background: M; }
        .realm-label { color: F; }
        .search-pill { background: E; }
        .warning-pill { background: W; }
        ";
    assert_eq!(palette.css(), expected);
}

#[test]
fn hexadecimal_colors_are_lower_case_and_whole() {
    assert!(is_hex_color("#0af9bc"));
    assert!(!is_hex_color("#0AF9BC"));
    assert!(!is_hex_color("#0af9b"));
    assert!(!is_hex_color("#0af9bcd"));
    assert!(!is_hex_color("0af9bcd"));
    assert!(!is_hex_color("#0af9bé"));
}

#[test]
fn alpha_colors_have_a_color_and_an_opacity() {
    assert!(is_alpha_color("alpha(#313233, 0.14)"));
    assert!(is_alpha_color("alpha( currentColor ,1.0 )"));
    assert!(!is_alpha_color("alpha(#313233 0.14)"));
    assert!(!is_alpha_color("alpha(#313233, 1.01)"));
    assert!(!is_alpha_color("alpha(#313233, -0.1)"));
    assert!(!is_alpha_color("alpha(red, 0.1)"));
    assert!(!is_alpha_color("alpha(#313233, 0.1"));
    assert!(!is_alpha_color("alpha(#313233, 0.1); }"));
    assert!(!is_alpha_color("alpha(#313233, 0.1, 0.2)"));
}

#[test]
fn an_opacity_is_a_number_from_nothing_to_one() {
    let is_opacity = |text: &str| {
        let chars: Vec<char> = text.chars().collect();
        is_opacity_text(&chars)
    };
    let samples = [
        "0", "1", "-0", "+1", "+0.5", ".5", "5.", ".", "", "+", "-", "1.", "1.0", "1.00000001",
        "1.0000001", "1.00000012", "0.99999", "2", "-1", "-1e-60", "1e-60", "1e0", "1E0", "10e-1",
        "100e-2", "1e1", "0e99", "1e", "e1", "1e+", "1e-", "1e-400", "1e400", "-1e-400", "inf",
        "NaN", "nan", "infinity", " 1", "1 ", "1_0", "0x1", "00.5", "0.14", "0.10", "0.07",
        "1.00000005960464477539", "1.00000005960464477540", "1e-45", "-7e-46", "-7.1e-46",
        "-7.00649232162408535461864791645e-46", "-7.00649232162408535461864791644e-46",
    ];
    for sample in samples {
        let expected = sample
            .parse::<f32>()
            .is_ok_and(|parsed| (0.0..=1.0).contains(&parsed));
        assert_eq!(is_opacity(sample), expected, "{sample}");
    }
}

#[test]
fn fallback_colors_are_those_of_the_palette() {
    assert_eq!(fallback_realm_color(""), reference_color(""));
    for realm in ["work", "dev", "host", "personal-dev", "réalm", "a", "b", "c"] {
        assert_eq!(fallback_realm_color(realm), reference_color(realm), "{realm}");
    }
}

fn reference_color(realm: &str) -> String {
    let palette = [
        "#7fc8ff", "#90d090", "#ffb347", "#c8a0e0", "#ff8080", "#40e0d0", "#ffd700", "#ff69b4",
        "#a0c8a0", "#d4a0ff", "#ffa07a", "#87ceeb",
    ];
    let mut hash = 0_u64;
    for byte in format!("d2b-env-accent-{realm}").bytes() {
        hash = hash.wrapping_mul(31).wrapping_add(byte as u64);
    }
    palette[(hash as usize) % palette.len()].to_owned()
}

#[test]
fn realms_are_numbered_in_the_order_of_their_first_entry() {
    let candidates = vec![
        candidate("1", "work"),
        candidate("2", "host"),
        candidate("3", "work"),
        candidate("4", "dev"),
    ];
    let classes = build_realm_css_classes(&candidates);
    let pairs: Vec<(&str, &str)> = classes
        .iter()
        .map(|class| (class.realm.as_str(), class.class.as_str()))
        .collect();
    assert_eq!(
        pairs,
        vec![
            ("work", "d2b-realm-header-0"),
            ("host", "d2b-realm-header-1"),
            ("dev", "d2b-realm-header-2"),
        ]
    );
    assert_eq!(class_of(&classes, "host"), Some("d2b-realm-header-1"));
    assert_eq!(class_of(&classes, "other"), None);
}

#[test]
fn unsafe_realm_colors_fall_back() {
    let candidates = vec![
        candidate("1", "work"),
        candidate("2", "host"),
        candidate("3", "dev"),
    ];
    let classes = build_realm_css_classes(&candidates);
    let mut display = RealmDisplay::new();
    display.insert(
        "work".to_owned(),
        RealmDisplayMetadata {
            color: Some("#010203".to_owned()),
        },
    );
    display.insert(
        "host".to_owned(),
        RealmDisplayMetadata {
            color: Some("red; } * { color: red".to_owned()),
        },
    );
    let css = realm_colors_css(&display, &classes);
    assert_eq!(
        css,
        format!(
            ".d2b-realm-header-0 {{ border-left-color: #010203; }}\n.d2b-realm-header-1 {{ border-left-color: {}; }}\n.d2b-realm-header-2 {{ border-left-color: {}; }}\n",
            reference_color("host"),
            reference_color("dev")
        )
    );
    assert_eq!(realm_colors_css(&display, &Vec::new()), "");
}

#[test]
fn realm_display_keeps_the_last_word_on_a_realm() {
    let mut display = RealmDisplay::default();
    display.insert("a".to_owned(), RealmDisplayMetadata { color: None });
    assert_eq!(display.color("a"), None);
    display.insert(
        "a".to_owned(),
        RealmDisplayMetadata {
            color: Some("#000000".to_owned()),
        },
    );
    let copy = display.clone();
    assert_eq!(copy.color("a").map(String::as_str), Some("#000000"));
    assert_eq!(copy.color("b"), None);
    assert_eq!(copy.len(), 1);
}

#[test]
fn the_desktop_decides_whether_the_picker_is_dark() {
    assert_eq!(
        ColorScheme::from_settings(Some(true)),
        Some(ColorScheme::PreferDark)
    );
    assert_eq!(
        ColorScheme::from_settings(Some(false)),
        Some(ColorScheme::Standard)
    );
    assert_eq!(ColorScheme::from_settings(None), None);
}
