use d2b_clip_picker::cli::{headless_safe_gtk_defaults, Args, LaunchError, Mode};
use d2b_clip_picker::placement::{
    apply_hint_output_if_missing, choose_placement, wants_pointer_capture, PickerPlacement,
    Placement,
};
use d2b_clip_picker::protocol::{
    AttributionQuality, DestinationMetadata, OpenRequest, PlacementHints,
    PresentationIsolationPosture, PresentationProviderKind, RealmKind,
};
use std::path::PathBuf;

fn strings(args: &[&str]) -> Vec<String> {
    args.iter().map(|arg| arg.to_string()).collect()
}

fn request_with_hints(placement_hints: Option<PlacementHints>) -> OpenRequest {
    OpenRequest {
        selected_protocol_version: 1,
        clipd_version: "test".to_owned(),
        picker_version: "test".to_owned(),
        request_id: "req".to_owned(),
        destination: DestinationMetadata {
            realm: "personal-dev".to_owned(),
            realm_kind: RealmKind::Vm,
            canonical_target: None,
            provider_kind: PresentationProviderKind::LocalVm,
            isolation_posture: PresentationIsolationPosture::VirtualMachine,
            application: Some("Firefox".to_owned()),
            app_id: Some("d2b.personal-dev.firefox".to_owned()),
            title: None,
            workspace: None,
            output: Some("DP-3".to_owned()),
            attribution: Some(AttributionQuality::ExactClient),
            capability_preflight: None,
        },
        requested_mime_type: "text/plain".to_owned(),
        expires_at_unix_ms: Some(1),
        placement_hints,
        candidates: Vec::new(),
        realm_display: Default::default(),
    }
}

#[test]
fn pointer_capture_uses_destination_output_hint_when_capture_has_no_output() {
    let mut placement = PickerPlacement {
        geometry: Placement {
            x: 10,
            y: 20,
            overlay_width: 420,
            overlay_height: 520,
            output_width: 2560,
            output_height: 1440,
        },
        output: None,
    };

    apply_hint_output_if_missing(&mut placement, Some("DP-3".to_owned()));

    assert_eq!(placement.output.as_deref(), Some("DP-3"));
    assert_eq!(placement.geometry.x, 10);
    assert_eq!(placement.geometry.y, 20);
}

#[test]
fn pointer_capture_keeps_exact_output_when_available() {
    let mut placement = PickerPlacement {
        geometry: Placement::default(),
        output: Some("HDMI-A-1".to_owned()),
    };

    apply_hint_output_if_missing(&mut placement, Some("DP-3".to_owned()));

    assert_eq!(placement.output.as_deref(), Some("HDMI-A-1"));
}

#[test]
fn choose_placement_prefers_destination_output_hint_without_pointer() {
    let request = request_with_hints(Some(PlacementHints {
        pointer_x: None,
        pointer_y: None,
        output_width: None,
        output_height: None,
        overlay_width: Some(420),
        overlay_height: Some(520),
        output: Some("DP-3".to_owned()),
    }));

    assert!(!wants_pointer_capture(&request));
    let placement = choose_placement(&request, None);

    assert_eq!(placement.output.as_deref(), Some("DP-3"));
    assert_eq!(placement.geometry.x, 24);
    assert_eq!(placement.geometry.y, 24);
}

#[test]
fn captured_pointer_places_the_picker_where_nothing_else_does() {
    let captured = || PickerPlacement {
        geometry: Placement {
            x: 300,
            y: 400,
            overlay_width: 420,
            overlay_height: 520,
            output_width: 1920,
            output_height: 1080,
        },
        output: None,
    };
    let request = request_with_hints(None);
    assert!(wants_pointer_capture(&request));
    let placement = choose_placement(&request, Some(captured()));
    assert_eq!((placement.geometry.x, placement.geometry.y), (300, 400));
    let placement = choose_placement(&request, None);
    assert_eq!((placement.geometry.x, placement.geometry.y), (24, 24));
    assert_eq!(
        (placement.geometry.overlay_width, placement.geometry.overlay_height),
        (420, 520)
    );

    let request = request_with_hints(Some(PlacementHints {
        pointer_x: Some(5),
        pointer_y: None,
        output_width: None,
        output_height: None,
        overlay_width: Some(300),
        overlay_height: None,
        output: None,
    }));
    assert!(wants_pointer_capture(&request));
    let placement = choose_placement(&request, Some(captured()));
    assert_eq!((placement.geometry.x, placement.geometry.y), (300, 400));
    assert_eq!(
        (placement.geometry.overlay_width, placement.geometry.overlay_height),
        (300, 520)
    );
    let placement = choose_placement(&request, None);
    assert_eq!((placement.geometry.x, placement.geometry.y), (5, 24));
}

#[test]
fn render_mode_requires_an_explicit_png_without_ipc() {
    let args = Args::try_parse_from(strings(&[
        "d2b-clip-picker",
        "--render-sample",
        "sample.png",
    ]))
    .expect("render arguments");

    assert_eq!(
        args.render_sample.map(PathBuf::from),
        Some(PathBuf::from("sample.png"))
    );
    assert!(args.ipc_fd.is_none());
}

#[test]
fn legacy_ipc_invocation_remains_available_and_modes_are_exclusive() {
    let args = Args::try_parse_from(strings(&["d2b-clip-picker", "--ipc-fd", "7"]))
        .expect("legacy ipc arguments");
    assert_eq!(args.ipc_fd, Some(7));
    assert!(args.render_sample.is_none());

    assert!(Args::try_parse_from(strings(&[
        "d2b-clip-picker",
        "--ipc-fd",
        "7",
        "--render-sample",
        "sample.png",
    ]))
    .is_err());
}

#[test]
fn a_mode_is_required() {
    let error = Args::try_parse_from(strings(&["d2b-clip-picker"])).expect_err("no mode");
    assert_eq!(error.exit_code, 2);
    assert!(error.text.contains("--ipc-fd"));
    assert!(error.text.contains("--render-sample"));
    assert!(Args::try_parse_from(strings(&["d2b-clip-picker", "--test-select-first"])).is_err());
    assert!(Args::try_parse_from(strings(&["d2b-clip-picker", "--render-sample", ""])).is_err());
    assert!(Args::try_parse_from(strings(&["d2b-clip-picker", "--ipc-fd", "seven"])).is_err());
    assert!(
        Args::try_parse_from(strings(&["d2b-clip-picker", "--ipc-fd", "2147483648"])).is_err()
    );
}

#[test]
fn all_options_are_read() {
    let args = Args::try_parse_from(strings(&[
        "d2b-clip-picker",
        "--ipc-fd=9",
        "--test-select-first",
        "--theme-json",
        "palette.json",
    ]))
    .expect("all options");
    assert_eq!(args.ipc_fd, Some(9));
    assert!(args.test_select_first);
    assert_eq!(args.theme_json.as_deref(), Some("palette.json"));
}

const HELP_TEXT: &str = "UI-only d2b clipboard picker

Usage: d2b-clip-picker [OPTIONS] <--ipc-fd <IPC_FD>|--render-sample <PNG>>

Options:
      --ipc-fd <IPC_FD>      Inherited socketpair file descriptor from d2b-clipd
      --theme-json <PATH>    Optional generic JSON palette for UI shell colors
      --render-sample <PNG>  Render deterministic synthetic picker data to an explicit PNG path
  -h, --help                 Print help
  -V, --version              Print version
";

#[test]
fn version_and_help_end_without_failure() {
    let version = Args::try_parse_from(strings(&["d2b-clip-picker", "--version"]))
        .expect_err("version is no mode");
    assert_eq!(version.exit_code, 0);
    assert_eq!(version.text, "d2b-clip-picker 0.2.0\n");
    for flag in ["-h", "--help"] {
        let help = Args::try_parse_from(strings(&["d2b-clip-picker", flag]))
            .expect_err("help is no mode");
        assert_eq!(help.exit_code, 0);
        assert_eq!(help.text, HELP_TEXT, "{flag}");
    }
}

#[test]
fn descriptors_of_every_program_are_refused() {
    let args = |fd: i32| Args {
        ipc_fd: Some(fd),
        test_select_first: false,
        theme_json: None,
        render_sample: None,
    };
    assert!(matches!(args(2).mode(), Err(LaunchError::DescriptorTooLow)));
    assert!(matches!(args(-1).mode(), Err(LaunchError::DescriptorTooLow)));
    assert!(matches!(args(3).mode(), Ok(Mode::Connect(3))));
    assert_eq!(
        LaunchError::DescriptorTooLow.message(),
        "--ipc-fd must be greater than 2"
    );
    let render = Args {
        ipc_fd: None,
        test_select_first: false,
        theme_json: None,
        render_sample: Some("sample.png".to_owned()),
    };
    assert!(matches!(render.mode(), Ok(Mode::Render(path)) if path == "sample.png"));
}

#[test]
fn environment_is_set_only_where_the_user_has_not() {
    let pairs = |backend: bool, renderer: bool| -> Vec<(&'static str, &'static str)> {
        headless_safe_gtk_defaults(backend, renderer)
            .iter()
            .map(|setting| (setting.name, setting.value))
            .collect()
    };
    assert_eq!(
        pairs(false, false),
        vec![("GDK_BACKEND", "wayland"), ("GSK_RENDERER", "cairo")]
    );
    assert_eq!(pairs(true, false), vec![("GSK_RENDERER", "cairo")]);
    assert_eq!(pairs(false, true), vec![("GDK_BACKEND", "wayland")]);
    assert_eq!(pairs(true, true), vec![]);
}
