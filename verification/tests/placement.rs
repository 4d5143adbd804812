use d2b_clip_picker::placement::{
    choose_monitor, clamp_panel_position, find_monitor, MonitorNames, MovablePlacement,
    PickerPlacement, Placement, UsableArea, PANEL_EDGE_GAP,
};
use d2b_clip_picker::protocol::PlacementHints;

fn no_hints() -> PlacementHints {
    PlacementHints {
        pointer_x: None,
        pointer_y: None,
        output_width: None,
        output_height: None,
        overlay_width: None,
        overlay_height: None,
        output: None,
    }
}

#[test]
fn drag_clamps_every_picker_edge_to_the_usable_area() {
    let mut placement = MovablePlacement::new(Placement {
        x: 400,
        y: 300,
        overlay_width: 420,
        overlay_height: 520,
        output_width: 1920,
        output_height: 1040,
    });

    placement.drag_from(placement.position(), -10_000, -10_000);
    assert_eq!(placement.position(), (PANEL_EDGE_GAP, PANEL_EDGE_GAP));
    placement.drag_from(placement.position(), 10_000, 10_000);
    assert_eq!(placement.position(), (1492, 512));
}

#[test]
fn output_change_reclamps_without_changing_the_initial_request_position() {
    let mut placement = MovablePlacement::new(Placement {
        x: 1200,
        y: 700,
        overlay_width: 420,
        overlay_height: 520,
        output_width: 1920,
        output_height: 1080,
    });

    placement.update_bounds(UsableArea::new(1280, 720).unwrap(), 420, 520);
    assert_eq!(placement.position(), (852, 192));
    placement.update_bounds(UsableArea::new(2560, 1400).unwrap(), 420, 520);
    placement.reset();
    assert_eq!(placement.position(), (1200, 700));
}

#[test]
fn each_request_starts_from_its_own_pointer_placement() {
    let first = MovablePlacement::new(Placement {
        x: 80,
        y: 90,
        output_width: 1920,
        output_height: 1080,
        ..Placement::default()
    });
    let second = MovablePlacement::new(Placement {
        x: 900,
        y: 400,
        output_width: 1920,
        output_height: 1080,
        ..Placement::default()
    });

    assert_eq!(first.position(), (80, 90));
    assert_eq!(second.position(), (900, 400));
}

#[test]
fn unknown_output_dimensions_preserve_default_request_position() {
    let placement = MovablePlacement::new(Placement::default());

    assert_eq!(placement.position(), (24, 24));
}

#[test]
fn unknown_output_dimensions_preserve_pointer_until_real_bounds_arrive() {
    let mut placement = MovablePlacement::new(Placement {
        x: 1440,
        y: 760,
        output_width: 0,
        output_height: 0,
        ..Placement::default()
    });

    assert_eq!(placement.position(), (1440, 760));
    placement.drag_from(placement.position(), 100, 50);
    assert_eq!(placement.position(), (1540, 810));
    placement.reset();
    assert_eq!(placement.position(), (1440, 760));
    placement.update_bounds(UsableArea::new(1280, 720).unwrap(), 420, 520);
    assert_eq!(placement.position(), (852, 192));
}

#[test]
fn empty_areas_are_no_areas() {
    assert_eq!(UsableArea::new(0, 10), None);
    assert_eq!(UsableArea::new(10, -1), None);
    assert_eq!(
        UsableArea::new(1, 2),
        Some(UsableArea { width: 1, height: 2 })
    );
}

#[test]
fn a_panel_larger_than_its_area_stays_at_the_gap() {
    assert_eq!(clamp_panel_position(50, 60, 420, 520, UsableArea { width: 100, height: 90 }), (8, 8));
    assert_eq!(
        clamp_panel_position(500, -3, 420, 520, UsableArea { width: 1000, height: 1000 }),
        (500, 8)
    );
}

#[test]
fn returning_a_dragged_picker_undoes_the_drag() {
    let mut placement = MovablePlacement::new(Placement {
        x: 100,
        y: 120,
        output_width: 1920,
        output_height: 1080,
        ..Placement::default()
    });
    placement.drag_from((100, 120), 33, -44);
    assert_eq!(placement.position(), (133, 76));
    placement.reset();
    assert_eq!(placement.position(), (100, 120));
}

#[test]
fn probed_bounds_are_taken_and_a_failed_probe_changes_nothing() {
    let mut placement = MovablePlacement::new(Placement {
        x: 1200,
        y: 700,
        output_width: 1920,
        output_height: 1080,
        ..Placement::default()
    });
    assert_eq!(placement.position(), (1200, 552));
    placement.refresh_bounds(UsableArea { width: 1280, height: 720 }, 420, 520);
    assert_eq!(placement.position(), (852, 192));
    placement.refresh_bounds(UsableArea { width: 500, height: 400 }, 0, -5);
    assert_eq!(placement.position(), (491, 192));

    let mut picker = PickerPlacement {
        geometry: Placement::default(),
        output: None,
    };
    picker.refine_usable_area(None);
    assert_eq!((picker.geometry.output_width, picker.geometry.output_height), (0, 0));
    picker.refine_usable_area(UsableArea::new(800, 600));
    assert_eq!((picker.geometry.output_width, picker.geometry.output_height), (800, 600));
}

#[test]
fn hints_center_the_picker_on_a_known_output() {
    let placement = Placement::from_hints(&PlacementHints {
        output_width: Some(1920),
        output_height: Some(1080),
        ..no_hints()
    });
    assert_eq!((placement.x, placement.y), (750, 280));
    let placement = Placement::from_hints(&PlacementHints {
        pointer_x: Some(7),
        output_width: Some(1920),
        output_height: Some(1080),
        overlay_width: Some(100),
        overlay_height: Some(80),
        ..no_hints()
    });
    assert_eq!((placement.x, placement.y), (7, 500));
    let placement = Placement::from_hints(&no_hints());
    assert_eq!((placement.x, placement.y), (24, 24));
}

#[test]
fn unknown_outputs_take_the_size_of_the_monitor() {
    let mut placement = Placement::default();
    placement.fit_to_monitor(1920, 1080);
    assert_eq!((placement.x, placement.y), (750, 280));
    assert_eq!((placement.output_width, placement.output_height), (1920, 1080));
    placement.fit_to_monitor(100, 100);
    assert_eq!((placement.output_width, placement.output_height), (1920, 1080));

    let mut small = Placement::default();
    small.fit_to_monitor(300, 300);
    assert_eq!((small.x, small.y), (8, 8));
}

#[test]
fn monitors_are_found_by_connector_or_model() {
    let monitor = |connector: Option<&str>, model: Option<&str>| MonitorNames {
        connector: connector.map(str::to_owned),
        model: model.map(str::to_owned),
    };
    let monitors = vec![
        monitor(Some("eDP-1"), Some("Panel")),
        monitor(None, Some("Dell DP-3 wide")),
        monitor(Some("DP-3"), None),
    ];
    assert_eq!(find_monitor(&monitors, "eDP-1"), Some(0));
    assert_eq!(find_monitor(&monitors, "DP-3"), Some(1));
    assert_eq!(find_monitor(&monitors, "HDMI-A-1"), None);
    assert_eq!(choose_monitor(&monitors, Some("DP-3")), Some(1));
    assert_eq!(choose_monitor(&monitors, Some("HDMI-A-1")), Some(0));
    assert_eq!(choose_monitor(&monitors, None), Some(0));
    assert_eq!(choose_monitor(&Vec::new(), Some("DP-3")), None);
}
