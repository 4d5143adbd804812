use d2b_clip_picker::pin_icon::PinIconSource;
use d2b_clip_picker::protocol::PresentationIsolationPosture;
use d2b_clip_picker::render::{
    assert_render_structure, check_allocation, check_pixels, check_png, check_render_output,
    check_texture, render_sample_request, widget_tree_contains, RenderError, RenderFacts,
    WidgetTree,
};

fn widget(name: &str, children: Vec<WidgetTree>) -> WidgetTree {
    WidgetTree { name: name.to_owned(), children }
}

fn facts() -> RenderFacts {
    RenderFacts {
        theme_has_icon: true,
        pin_name: "d2b-pin-toggle".to_owned(),
        pin_has_label: false,
        pin_has_child: true,
        pin_active: false,
        icon_name: "d2b-pin-icon".to_owned(),
        icon_source: PinIconSource::ThemeSymbolic,
        icon_has_image: true,
        tree: widget(
            "GtkBox",
            vec![
                widget("GtkLabel", vec![]),
                widget(
                    "AdwHeaderBar",
                    vec![
                        widget("d2b-drag-handle", vec![]),
                        widget("d2b-pin-toggle", vec![widget("d2b-pin-icon", vec![])]),
                    ],
                ),
            ],
        ),
    }
}

#[test]
fn render_sample_contract_is_synthetic_and_visually_varied() {
    let request = render_sample_request();
    let realms = request
        .candidates
        .iter()
        .map(|candidate| candidate.source_realm.as_str())
        .collect::<std::collections::HashSet<_>>();

    assert_eq!(request.request_id, "synthetic-render-request");
    request.validate().expect("synthetic request must be valid");
    assert!(request.placement_hints.is_some());
    assert!(realms.len() >= 3);
    assert!(request
        .candidates
        .iter()
        .any(|candidate| candidate.content_type == "image/png"));
    assert!(request.candidates.iter().any(|candidate| {
        candidate.source_isolation_posture == PresentationIsolationPosture::UnsafeLocal
    }));
}

#[test]
fn samples_are_written_to_png_files() {
    assert_eq!(check_render_output(Some("png"), Some(true)), Ok(()));
    assert_eq!(check_render_output(Some("png"), None), Ok(()));
    assert_eq!(check_render_output(Some("PNG"), Some(true)), Err(RenderError::NotPng));
    assert_eq!(check_render_output(None, Some(false)), Err(RenderError::NotPng));
    assert_eq!(
        check_render_output(Some("png"), Some(false)),
        Err(RenderError::ParentMissing)
    );
    assert_eq!(
        RenderError::NotPng.message(),
        "--render-sample output must use the .png extension"
    );
    assert_eq!(
        RenderError::ParentMissing.message(),
        "--render-sample output parent directory does not exist"
    );
}

#[test]
fn widgets_are_found_at_any_depth() {
    let tree = facts().tree;
    assert!(widget_tree_contains(&tree, "GtkBox"));
    assert!(widget_tree_contains(&tree, "d2b-pin-icon"));
    assert!(!widget_tree_contains(&tree, "d2b-pin"));
}

#[test]
fn a_complete_picker_is_accepted() {
    assert_eq!(assert_render_structure(&facts(), &render_sample_request()), Ok(()));
}

#[test]
fn whatever_is_missing_is_told() {
    let request = render_sample_request();
    let check = |facts: RenderFacts, expected: RenderError, message: &str| {
        assert_eq!(assert_render_structure(&facts, &request), Err(expected));
        assert_eq!(expected.message(), message);
    };
    check(
        RenderFacts { theme_has_icon: false, pin_active: true, ..facts() },
        RenderError::IconMissing,
        "render mode requires packaged GTK icon view-pin-symbolic",
    );
    check(
        RenderFacts { pin_active: true, ..facts() },
        RenderError::PinControl,
        "production pin control must use icon content and be unpinned by default",
    );
    check(
        RenderFacts { pin_has_label: true, ..facts() },
        RenderError::PinControl,
        "production pin control must use icon content and be unpinned by default",
    );
    check(
        RenderFacts { icon_name: "GtkImage".to_owned(), ..facts() },
        RenderError::PinIcon,
        "production pin control is missing its monochrome icon",
    );
    check(
        RenderFacts { icon_has_image: false, ..facts() },
        RenderError::PinIconEmpty,
        "theme symbolic pin icon has no image content",
    );
    check(
        RenderFacts { icon_source: PinIconSource::GeneratedMonochrome, ..facts() },
        RenderError::PinIconGenerated,
        "render mode must exercise the packaged symbolic pin icon",
    );
    check(
        RenderFacts { tree: widget("d2b-pin-toggle", vec![]), ..facts() },
        RenderError::ChromeMissing,
        "production picker structure is missing pin or drag chrome",
    );
}

#[test]
fn dull_samples_are_refused() {
    let mut request = render_sample_request();
    request.candidates.truncate(3);
    assert_eq!(
        assert_render_structure(&facts(), &request),
        Err(RenderError::TooFewRows)
    );
    let mut request = render_sample_request();
    for candidate in &mut request.candidates {
        candidate.source_isolation_posture = PresentationIsolationPosture::VirtualMachine;
    }
    assert_eq!(
        assert_render_structure(&facts(), &request),
        Err(RenderError::TooFewPostures)
    );
    assert_eq!(
        RenderError::TooFewRows.message(),
        "render sample must contain multiple rows and realms"
    );
    assert_eq!(
        RenderError::TooFewPostures.message(),
        "render sample must exercise multiple provider postures"
    );
}

#[test]
fn sizes_have_to_be_right() {
    assert_eq!(check_allocation(420, 520), Ok(()));
    let error = check_allocation(-3, 520).expect_err("wrong size");
    assert_eq!(
        error.message(),
        "production picker allocated -3x520; expected 420x520"
    );
    assert_eq!(check_texture(420, 520), Ok(()));
    let error = check_texture(420, 1040).expect_err("wrong size");
    assert_eq!(error.message(), "rendered texture is 420x1040; expected 420x520");
}

#[test]
fn images_have_to_show_something() {
    assert_eq!(check_pixels(&[]), Err(RenderError::TextureEmpty));
    assert_eq!(check_pixels(&[1, 2, 3]), Err(RenderError::TextureEmpty));
    assert_eq!(check_pixels(&[1, 2, 3, 4]), Err(RenderError::TextureUniform));
    assert_eq!(
        check_pixels(&[1, 2, 3, 4, 1, 2, 3, 4, 9]),
        Err(RenderError::TextureUniform)
    );
    assert_eq!(check_pixels(&[1, 2, 3, 4, 1, 2, 3, 5]), Ok(()));
    assert_eq!(RenderError::TextureEmpty.message(), "rendered texture is empty");
    assert_eq!(RenderError::TextureUniform.message(), "rendered texture is uniform");
}

#[test]
fn files_have_to_be_small_images_of_the_right_size() {
    let png = |width: u32, height: u32, size: usize| {
        let mut bytes = b"\x89PNG\r\n\x1a\n\0\0\0\x0dIHDR".to_vec();
        bytes.extend_from_slice(&width.to_be_bytes());
        bytes.extend_from_slice(&height.to_be_bytes());
        bytes.resize(size, 0);
        bytes
    };
    assert_eq!(check_png(&png(420, 520, 100)), Ok(()));
    assert_eq!(check_png(&png(520, 420, 100)), Err(RenderError::FileInvalid));
    assert_eq!(check_png(b""), Err(RenderError::FileInvalid));
    assert_eq!(
        check_png(&png(420, 520, 5 * 1024 * 1024)),
        Err(RenderError::FileTooLarge)
    );
    assert_eq!(
        RenderError::FileTooLarge.message(),
        "rendered PNG must remain below 5 MB"
    );
    assert_eq!(
        RenderError::FileInvalid.message(),
        "rendered PNG signature or logical dimensions are invalid"
    );
    assert_eq!(
        RenderError::PinHidden.message(),
        "production pin control is not visible"
    );
    assert_eq!(RenderError::TimedOut.message(), "timed out rendering picker sample");
    assert_eq!(
        RenderError::NoResult.message(),
        "picker render exited without a result"
    );
}
