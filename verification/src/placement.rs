//! Where the picker stands. Positions and dimensions are whole pixels.

use crate::protocol::{OpenRequest, PlacementHints};
use crate::text;
use vstd::prelude::*;

verus! {

/// The picker keeps this distance from the edges of the usable area.
pub const PANEL_EDGE_GAP: i32 = 8;

pub const DEFAULT_POSITION: i32 = 24;

pub const DEFAULT_OVERLAY_WIDTH: i32 = 420;

pub const DEFAULT_OVERLAY_HEIGHT: i32 = 520;

/// Where the picker is to stand, how large it is, and how large the output is that it stands on.
/// An output whose dimensions are not positive is not known.
#[derive(Debug, Clone, Copy)]
pub struct Placement {
    pub x: i32,
    pub y: i32,
    pub overlay_width: i32,
    pub overlay_height: i32,
    pub output_width: i32,
    pub output_height: i32,
}

/// The part of an output that the picker may use.
#[derive(Debug, Clone, Copy, PartialEq, Eq, Structural)]
pub struct UsableArea {
    pub width: i32,
    pub height: i32,
}

impl UsableArea {
    /// An area has a positive width and a positive height.
    pub fn new(width: i32, height: i32) -> (r: Option<UsableArea>)
        ensures
            r == (if width > 0 && height > 0 {
                Some(UsableArea { width, height })
            } else {
                None
            }),
    {
        if width > 0 && height > 0 {
            Some(UsableArea { width, height })
        } else {
            None
        }
    }
}

/// Whether the room that a panel leaves in an area can be measured with 32 bits.
pub open spec fn measurable(area: i32, panel: i32) -> bool {
    i32::MIN + PANEL_EDGE_GAP <= area - panel <= i32::MAX
}

/// The farthest position of a panel in an area, along one axis.
pub open spec fn farthest(area: int, panel: int) -> int {
    if area - panel - PANEL_EDGE_GAP > PANEL_EDGE_GAP {
        area - panel - PANEL_EDGE_GAP
    } else {
        PANEL_EDGE_GAP as int
    }
}

/// The position nearest to `v` that leaves a gap at both edges; if there is no room for that,
/// the one that leaves a gap at the near edge.
pub open spec fn clamped(v: int, area: int, panel: int) -> int {
    if v < PANEL_EDGE_GAP {
        PANEL_EDGE_GAP as int
    } else if v > farthest(area, panel) {
        farthest(area, panel)
    } else {
        v
    }
}

/// A length, or one pixel if there is none.
pub open spec fn at_least_one(n: i32) -> i32 {
    if n < 1 {
        1
    } else {
        n
    }
}

/// The nearest number that 32 bits hold.
pub open spec fn saturated(v: int) -> int {
    if v < i32::MIN {
        i32::MIN as int
    } else if v > i32::MAX {
        i32::MAX as int
    } else {
        v
    }
}

fn clamp_axis(v: i32, area: i32, panel: i32) -> (r: i32)
    requires
        measurable(area, panel),
    ensures
        r == clamped(v as int, area as int, panel as int),
{
    let room: i32 = area - panel - PANEL_EDGE_GAP;
    let max: i32 = if room > PANEL_EDGE_GAP {
        room
    } else {
        PANEL_EDGE_GAP
    };
    if v < PANEL_EDGE_GAP {
        PANEL_EDGE_GAP
    } else if v > max {
        max
    } else {
        v
    }
}

/// Moves a position to where the panel stands inside the usable area.
pub fn clamp_panel_position(
    x: i32,
    y: i32,
    panel_width: i32,
    panel_height: i32,
    usable_area: UsableArea,
) -> (r: (i32, i32))
    requires
        measurable(usable_area.width, panel_width),
        measurable(usable_area.height, panel_height),
    ensures
        r.0 == clamped(x as int, usable_area.width as int, panel_width as int),
        r.1 == clamped(y as int, usable_area.height as int, panel_height as int),
{
    (
        clamp_axis(x, usable_area.width, panel_width),
        clamp_axis(y, usable_area.height, panel_height),
    )
}

/// A clamped position leaves a gap at the near edge, and at the far edge too where there is
/// room; clamping it again changes nothing; and a position that leaves both gaps is kept.
pub proof fn clamping_keeps_the_panel_inside(v: int, area: int, panel: int)
    ensures
        PANEL_EDGE_GAP <= clamped(v, area, panel) <= farthest(area, panel),
        panel + 2 * PANEL_EDGE_GAP <= area ==> clamped(v, area, panel) + panel + PANEL_EDGE_GAP
            <= area,
        clamped(clamped(v, area, panel), area, panel) == clamped(v, area, panel),
        PANEL_EDGE_GAP <= v && v + panel + PANEL_EDGE_GAP <= area ==> clamped(v, area, panel) == v,
{
}

/// A picker that can be moved about.
#[derive(Debug, Clone, Copy)]
pub struct MovablePlacement {
    initial_x: i32,
    initial_y: i32,
    x: i32,
    y: i32,
    panel_width: i32,
    panel_height: i32,
    usable_area: Option<UsableArea>,
}

/// The state of a movable picker: where the request wanted it, where it is, how large it is, and
/// the area that it may use, if that is known.
pub struct MovableModel {
    pub initial: (i32, i32),
    pub position: (i32, i32),
    pub panel: (i32, i32),
    pub usable_area: Option<UsableArea>,
}

impl MovableModel {
    /// Whether the room in the usable area can be measured.
    pub open spec fn measurable(self) -> bool {
        self.usable_area matches Some(area) ==> measurable(area.width, self.panel.0) && measurable(
            area.height,
            self.panel.1,
        )
    }

    /// Where the picker stands if it is moved to `(x, y)`: inside the usable area, or, as long as
    /// that is not known, just there.
    pub open spec fn destination(self, x: int, y: int) -> (i32, i32) {
        match self.usable_area {
            Some(area) => (
                clamped(x, area.width as int, self.panel.0 as int) as i32,
                clamped(y, area.height as int, self.panel.1 as int) as i32,
            ),
            None => (saturated(x) as i32, saturated(y) as i32),
        }
    }

    /// The picker moved to `(x, y)`.
    pub open spec fn moved_to(self, x: int, y: int) -> MovableModel {
        MovableModel { position: self.destination(x, y), ..self }
    }

    /// The picker moved back to where the request wanted it.
    pub open spec fn returned(self) -> MovableModel {
        self.moved_to(self.initial.0 as int, self.initial.1 as int)
    }

    /// The picker with another size and in another area.
    pub open spec fn resized(self, area: UsableArea, panel: (i32, i32)) -> MovableModel {
        let next = MovableModel { usable_area: Some(area), panel, ..self };
        next.moved_to(self.position.0 as int, self.position.1 as int)
    }

    /// Whether the picker keeps off the edges of its usable area.
    pub open spec fn inside(self) -> bool {
        self.usable_area matches Some(area) ==> {
            &&& PANEL_EDGE_GAP <= self.position.0 <= farthest(
                area.width as int,
                self.panel.0 as int,
            )
            &&& PANEL_EDGE_GAP <= self.position.1 <= farthest(
                area.height as int,
                self.panel.1 as int,
            )
        }
    }
}

impl View for MovablePlacement {
    type V = MovableModel;

    closed spec fn view(&self) -> MovableModel {
        MovableModel {
            initial: (self.initial_x, self.initial_y),
            position: (self.x, self.y),
            panel: (self.panel_width, self.panel_height),
            usable_area: self.usable_area,
        }
    }
}

impl Placement {
    /// The area that the output gives, if the output is known.
    pub open spec fn area(self) -> Option<UsableArea> {
        if self.output_width > 0 && self.output_height > 0 {
            Some(UsableArea { width: self.output_width, height: self.output_height })
        } else {
            None
        }
    }

    /// The picker as the request wants it, before it is moved into its area.
    pub open spec fn wanted(self) -> MovableModel {
        MovableModel {
            initial: (self.x, self.y),
            position: (self.x, self.y),
            panel: (self.overlay_width, self.overlay_height),
            usable_area: self.area(),
        }
    }
}

impl MovablePlacement {
    pub fn new(placement: Placement) -> (r: MovablePlacement)
        requires
            placement.wanted().measurable(),
        ensures
            r@ == placement.wanted().returned(),
    {
        let usable_area = UsableArea::new(placement.output_width, placement.output_height);
        let mut movable = MovablePlacement {
            initial_x: placement.x,
            initial_y: placement.y,
            x: placement.x,
            y: placement.y,
            panel_width: placement.overlay_width,
            panel_height: placement.overlay_height,
            usable_area,
        };
        movable.reset();
        movable
    }

    pub fn position(&self) -> (r: (i32, i32))
        ensures
            r == self@.position,
    {
        (self.x, self.y)
    }

    fn move_to(&mut self, x: i32, y: i32)
        requires
            old(self)@.measurable(),
        ensures
            final(self)@ == old(self)@.moved_to(x as int, y as int),
    {
        match self.usable_area {
            Some(usable_area) => {
                let (x, y) = clamp_panel_position(
                    x,
                    y,
                    self.panel_width,
                    self.panel_height,
                    usable_area,
                );
                self.x = x;
                self.y = y;
            },
            None => {
                self.x = x;
                self.y = y;
            },
        }
    }

    /// The user dragged the picker by an offset from where it was.
    pub fn drag_from(&mut self, origin: (i32, i32), offset_x: i64, offset_y: i64)
        requires
            old(self)@.measurable(),
        ensures
            final(self)@ == old(self)@.moved_to(origin.0 + offset_x, origin.1 + offset_y),
    {
        let x: i32 = saturate(origin.0 as i128 + offset_x as i128);
        let y: i32 = saturate(origin.1 as i128 + offset_y as i128);
        self.move_to(x, y);
    }

    /// The usable area or the size of the picker changed.
    pub fn update_bounds(&mut self, usable_area: UsableArea, panel_width: i32, panel_height: i32)
        requires
            measurable(usable_area.width, panel_width),
            measurable(usable_area.height, panel_height),
        ensures
            final(self)@ == old(self)@.resized(usable_area, (panel_width, panel_height)),
    {
        self.usable_area = Some(usable_area);
        self.panel_width = panel_width;
        self.panel_height = panel_height;
        self.move_to(self.x, self.y);
    }

    /// The usable area changed; the window says how large it is, which is nothing as long as it
    /// is not laid out.
    pub fn refresh_bounds(
        &mut self,
        usable_area: UsableArea,
        allocated_width: i32,
        allocated_height: i32,
    )
        requires
            measurable(usable_area.width, at_least_one(allocated_width)),
            measurable(usable_area.height, at_least_one(allocated_height)),
        ensures
            final(self)@ == old(self)@.resized(
                usable_area,
                (at_least_one(allocated_width), at_least_one(allocated_height)),
            ),
    {
        let width: i32 = if allocated_width < 1 {
            1
        } else {
            allocated_width
        };
        let height: i32 = if allocated_height < 1 {
            1
        } else {
            allocated_height
        };
        self.update_bounds(usable_area, width, height);
    }

    /// Moves the picker back to where the request wanted it.
    pub fn reset(&mut self)
        requires
            old(self)@.measurable(),
        ensures
            final(self)@ == old(self)@.returned(),
    {
        self.move_to(self.initial_x, self.initial_y);
    }
}

fn saturate(v: i128) -> (r: i32)
    ensures
        r == saturated(v as int),
{
    if v < i32::MIN as i128 {
        i32::MIN
    } else if v > i32::MAX as i128 {
        i32::MAX
    } else {
        v as i32
    }
}

/// Wherever the picker is moved, it stands inside its usable area, and neither where the request
/// wanted it nor its size nor the area changes.
pub proof fn moving_keeps_the_picker_inside(m: MovableModel, x: int, y: int)
    requires
        m.measurable(),
    ensures
        m.moved_to(x, y).inside(),
        m.moved_to(x, y).measurable(),
        m.moved_to(x, y).initial == m.initial,
        m.moved_to(x, y).panel == m.panel,
        m.moved_to(x, y).usable_area == m.usable_area,
        m.moved_to(x, y).moved_to(
            m.moved_to(x, y).position.0 as int,
            m.moved_to(x, y).position.1 as int,
        ) == m.moved_to(x, y),
{
}

/// A change of the output moves the picker into the new area and does not change where the
/// request wanted it.
pub proof fn resizing_keeps_the_picker_inside(
    m: MovableModel,
    area: UsableArea,
    panel: (i32, i32),
)
    requires
        measurable(area.width, panel.0),
        measurable(area.height, panel.1),
    ensures
        m.resized(area, panel).inside(),
        m.resized(area, panel).measurable(),
        m.resized(area, panel).initial == m.initial,
{
}

/// However the picker was moved, returning brings it to the same place.
pub proof fn returning_undoes_moves(m: MovableModel, x: int, y: int)
    requires
        m.measurable(),
    ensures
        m.moved_to(x, y).returned() == m.returned(),
        m.returned().returned() == m.returned(),
{
}

/// Where the picker stands, and on which output.
#[derive(Debug, Clone)]
pub struct PickerPlacement {
    pub geometry: Placement,
    pub output: Option<String>,
}

impl Placement {
    pub open spec fn unhinted() -> Placement {
        Placement {
            x: DEFAULT_POSITION,
            y: DEFAULT_POSITION,
            overlay_width: DEFAULT_OVERLAY_WIDTH,
            overlay_height: DEFAULT_OVERLAY_HEIGHT,
            output_width: 0,
            output_height: 0,
        }
    }
}

impl Default for Placement {
    fn default() -> (r: Placement)
        ensures
            r == Placement::unhinted(),
    {
        Placement {
            x: DEFAULT_POSITION,
            y: DEFAULT_POSITION,
            overlay_width: DEFAULT_OVERLAY_WIDTH,
            overlay_height: DEFAULT_OVERLAY_HEIGHT,
            output_width: 0,
            output_height: 0,
        }
    }
}

impl Default for PickerPlacement {
    fn default() -> (r: PickerPlacement)
        ensures
            r.geometry == Placement::unhinted(),
            r.output is None,
    {
        PickerPlacement { geometry: Placement::default(), output: None }
    }
}

pub open spec fn or_else(value: Option<i32>, default: i32) -> i32 {
    match value {
        Some(v) => v,
        None => default,
    }
}

fn value_or(value: Option<i32>, default: i32) -> (r: i32)
    ensures
        r == or_else(value, default),
{
    match value {
        Some(v) => v,
        None => default,
    }
}

/// The middle of an output for a panel, along one axis. An output that is not larger than the
/// panel has none, and the panel stands at the default position.
pub open spec fn centered(output: i32, panel: i32) -> i32 {
    if output > panel {
        ((output - panel) / 2) as i32
    } else {
        DEFAULT_POSITION
    }
}

fn center(output: i32, panel: i32) -> (r: i32)
    requires
        output - panel <= i32::MAX,
    ensures
        r == centered(output, panel),
{
    if output > panel {
        (output - panel) / 2
    } else {
        DEFAULT_POSITION
    }
}

impl PlacementHints {
    /// The placement that the hints ask for: at the pointer, or else in the middle of the output.
    pub open spec fn placement(self) -> Placement {
        let overlay_width = or_else(self.overlay_width, DEFAULT_OVERLAY_WIDTH);
        let overlay_height = or_else(self.overlay_height, DEFAULT_OVERLAY_HEIGHT);
        let output_width = or_else(self.output_width, 0);
        let output_height = or_else(self.output_height, 0);
        Placement {
            x: or_else(self.pointer_x, centered(output_width, overlay_width)),
            y: or_else(self.pointer_y, centered(output_height, overlay_height)),
            overlay_width,
            overlay_height,
            output_width,
            output_height,
        }
    }

    /// Whether the middle can be computed with 32 bits, where it is needed.
    pub open spec fn measurable(self) -> bool {
        &&& self.pointer_x is None ==> or_else(self.output_width, 0) - or_else(
            self.overlay_width,
            DEFAULT_OVERLAY_WIDTH,
        ) <= i32::MAX
        &&& self.pointer_y is None ==> or_else(self.output_height, 0) - or_else(
            self.overlay_height,
            DEFAULT_OVERLAY_HEIGHT,
        ) <= i32::MAX
    }
}

/// Hints that keep to their bounds can be followed, and the placement they give can be used.
pub proof fn bounded_hints_are_measurable(hints: PlacementHints)
    requires
        hints.bounded(),
    ensures
        hints.measurable(),
        hints.placement().wanted().measurable(),
{
}

impl Placement {
    pub fn from_hints(hints: &PlacementHints) -> (r: Placement)
        requires
            hints.measurable(),
        ensures
            r == hints.placement(),
    {
        let overlay_width: i32 = value_or(hints.overlay_width, DEFAULT_OVERLAY_WIDTH);
        let overlay_height: i32 = value_or(hints.overlay_height, DEFAULT_OVERLAY_HEIGHT);
        let output_width: i32 = value_or(hints.output_width, 0);
        let output_height: i32 = value_or(hints.output_height, 0);
        let x: i32 = match hints.pointer_x {
            Some(x) => x,
            None => center(output_width, overlay_width),
        };
        let y: i32 = match hints.pointer_y {
            Some(y) => y,
            None => center(output_height, overlay_height),
        };
        Placement { x, y, overlay_width, overlay_height, output_width, output_height }
    }
}

fn clone_text(s: &Option<String>) -> (r: Option<String>)
    ensures
        r == *s,
{
    match s {
        Some(t) => Some(t.clone()),
        None => None,
    }
}

impl PickerPlacement {
    /// What the hints ask for.
    pub open spec fn hinted(hints: PlacementHints) -> PickerPlacement {
        PickerPlacement { geometry: hints.placement(), output: hints.output }
    }

    pub fn from_hints(hints: &PlacementHints) -> (r: PickerPlacement)
        requires
            hints.measurable(),
        ensures
            r == PickerPlacement::hinted(*hints),
    {
        PickerPlacement { geometry: Placement::from_hints(hints), output: clone_text(&hints.output) }
    }

    /// The placement in the area that can be used, if that is known.
    pub open spec fn in_area(self, probed: Option<UsableArea>) -> PickerPlacement {
        match probed {
            Some(area) => PickerPlacement {
                geometry: Placement {
                    output_width: area.width,
                    output_height: area.height,
                    ..self.geometry
                },
                output: self.output,
            },
            None => self,
        }
    }

    /// The compositor said how much of the output can be used, or it could not be asked.
    pub fn refine_usable_area(&mut self, probed: Option<UsableArea>)
        ensures
            *final(self) == (match probed {
                Some(area) => PickerPlacement {
                    geometry: Placement {
                        output_width: area.width,
                        output_height: area.height,
                        ..old(self).geometry
                    },
                    output: old(self).output,
                },
                None => *old(self),
            }),
            *final(self) == old(self).in_area(probed),
    {
        if let Some(area) = probed {
            self.geometry.output_width = area.width;
            self.geometry.output_height = area.height;
        }
    }

    /// Gives the output that was hinted at to a placement that has none.
    pub open spec fn with_hinted_output(self, hint: Option<String>) -> PickerPlacement {
        PickerPlacement {
            output: if self.output is None {
                hint
            } else {
                self.output
            },
            ..self
        }
    }
}

/// Gives the output that was hinted at to a placement that has none.
pub fn apply_hint_output_if_missing(placement: &mut PickerPlacement, hint_output: Option<String>)
    ensures
        *final(placement) == old(placement).with_hinted_output(hint_output),
{
    if placement.output.is_none() {
        placement.output = hint_output;
    }
}

/// Whether the pointer has to be looked for: the request says neither where it is nor on which
/// output the picker is to stand.
pub open spec fn needs_pointer(request: OpenRequest) -> bool {
    match request.placement_hints {
        Some(hints) => !(hints.pointer_x is Some && hints.pointer_y is Some) && hints.output
            is None,
        None => true,
    }
}

pub fn wants_pointer_capture(request: &OpenRequest) -> (r: bool)
    ensures
        r == needs_pointer(*request),
{
    match &request.placement_hints {
        Some(hints) => !(hints.pointer_x.is_some() && hints.pointer_y.is_some())
            && hints.output.is_none(),
        None => true,
    }
}

/// What a placement at the pointer becomes under hints: they decide the size, and the output if
/// the pointer did not show it.
pub open spec fn captured_with_hints(
    captured: PickerPlacement,
    hints: PlacementHints,
) -> PickerPlacement {
    PickerPlacement {
        geometry: Placement {
            overlay_width: or_else(hints.overlay_width, captured.geometry.overlay_width),
            overlay_height: or_else(hints.overlay_height, captured.geometry.overlay_height),
            ..captured.geometry
        },
        output: captured.output,
    }.with_hinted_output(hints.output)
}

/// The placement for a request, given where the pointer was found, if it was.
pub open spec fn chosen_placement(
    request: OpenRequest,
    captured: Option<PickerPlacement>,
) -> PickerPlacement {
    match request.placement_hints {
        Some(hints) => match captured {
            Some(found) if needs_pointer(request) => captured_with_hints(found, hints),
            _ => PickerPlacement::hinted(hints),
        },
        None => match captured {
            Some(found) => found,
            None => PickerPlacement { geometry: Placement::unhinted(), output: None },
        },
    }
}

/// Chooses where the picker stands. `captured` is where the pointer was found, if it was looked
/// for and found; it does not matter for a request that does not need it.
pub fn choose_placement(
    request: &OpenRequest,
    captured: Option<PickerPlacement>,
) -> (r: PickerPlacement)
    requires
        request.placement_hints matches Some(hints) ==> hints.measurable(),
    ensures
        r == chosen_placement(*request, captured),
{
    match &request.placement_hints {
        Some(hints) => {
            if wants_pointer_capture(request) {
                if let Some(found) = captured {
                    let mut found = found;
                    found.geometry.overlay_width = value_or(
                        hints.overlay_width,
                        found.geometry.overlay_width,
                    );
                    found.geometry.overlay_height = value_or(
                        hints.overlay_height,
                        found.geometry.overlay_height,
                    );
                    apply_hint_output_if_missing(&mut found, clone_text(&hints.output));
                    return found;
                }
            }
            PickerPlacement::from_hints(hints)
        },
        None => match captured {
            Some(found) => found,
            None => PickerPlacement::default(),
        },
    }
}

/// Where the pointer is found matters only to a request that does not say it.
pub proof fn pointer_matters_only_if_needed(
    request: OpenRequest,
    a: Option<PickerPlacement>,
    b: Option<PickerPlacement>,
)
    requires
        !needs_pointer(request),
    ensures
        chosen_placement(request, a) == chosen_placement(request, b),
{
}

/// The middle of a monitor for a panel, along one axis.
pub open spec fn monitor_middle(monitor: i32, panel: i32) -> i32 {
    if monitor - panel > 16 {
        ((monitor - panel) / 2) as i32
    } else {
        8
    }
}

fn middle_of_monitor(monitor: i32, panel: i32) -> (r: i32)
    requires
        i32::MIN <= monitor - panel <= i32::MAX,
    ensures
        r == monitor_middle(monitor, panel),
{
    let room: i32 = monitor - panel;
    if room > 16 {
        room / 2
    } else {
        8
    }
}

impl Placement {
    /// Whether the output is known.
    pub open spec fn output_known(self) -> bool {
        self.output_width > 0 && self.output_height > 0
    }

    /// The placement on a monitor of this size. It is moved to the middle of the monitor if the
    /// output was not known before.
    pub open spec fn on_monitor(self, width: i32, height: i32) -> Placement {
        if self.output_known() {
            self
        } else {
            Placement {
                x: monitor_middle(width, self.overlay_width),
                y: monitor_middle(height, self.overlay_height),
                output_width: width,
                output_height: height,
                ..self
            }
        }
    }

    pub fn fit_to_monitor(&mut self, width: i32, height: i32)
        requires
            !old(self).output_known() ==> i32::MIN <= width - old(self).overlay_width <= i32::MAX,
            !old(self).output_known() ==> i32::MIN <= height - old(self).overlay_height
                <= i32::MAX,
        ensures
            *final(self) == old(self).on_monitor(width, height),
    {
        if self.output_width <= 0 || self.output_height <= 0 {
            self.output_width = width;
            self.output_height = height;
            self.x = middle_of_monitor(width, self.overlay_width);
            self.y = middle_of_monitor(height, self.overlay_height);
        }
    }
}

/// What a monitor is known as.
pub struct MonitorNames {
    pub connector: Option<String>,
    pub model: Option<String>,
}

impl MonitorNames {
    /// Whether the name of an output means this monitor: it is the name of its connector, or
    /// occurs in that of its model.
    pub open spec fn means(&self, output: Seq<char>) -> bool {
        (self.connector matches Some(connector) && connector@ == output) || (
        self.model matches Some(model) && text::occurs_in(output, model@))
    }

    fn is_meant(&self, output: &str) -> (r: bool)
        ensures
            r == self.means(output@),
    {
        let by_connector: bool = match &self.connector {
            Some(connector) => text::same_text(connector.as_str(), output),
            None => false,
        };
        let by_model: bool = match &self.model {
            Some(model) => text::contains_text(model.as_str(), output),
            None => false,
        };
        by_connector || by_model
    }
}

/// The first monitor that the name of an output means.
pub fn find_monitor(monitors: &Vec<MonitorNames>, output: &str) -> (r: Option<usize>)
    ensures
        r matches Some(at) ==> at < monitors@.len() && monitors@[at as int].means(output@)
            && forall|i: int| 0 <= i < at ==> !(#[trigger] monitors@[i]).means(output@),
        r is None ==> forall|i: int|
            0 <= i < monitors@.len() ==> !(#[trigger] monitors@[i]).means(output@),
{
    let mut at: usize = 0;
    while at < monitors.len()
        invariant
            at <= monitors@.len(),
            forall|i: int| 0 <= i < at ==> !(#[trigger] monitors@[i]).means(output@),
        decreases monitors@.len() - at,
    {
        if monitors[at].is_meant(output) {
            return Some(at);
        }
        at = at + 1;
    }
    None
}

/// The monitor on which the picker is shown: the one that is meant, if there is one, and else the
/// first.
pub fn choose_monitor(monitors: &Vec<MonitorNames>, output: Option<&str>) -> (r: Option<usize>)
    ensures
        r is None <==> monitors@.len() == 0,
        r matches Some(at) ==> at < monitors@.len() && match output {
            Some(name) => (monitors@[at as int].means(name@) && forall|i: int|
                0 <= i < at ==> !(#[trigger] monitors@[i]).means(name@)) || (at == 0 && forall|
                i: int,
            |
                0 <= i < monitors@.len() ==> !(#[trigger] monitors@[i]).means(name@)),
            None => at == 0,
        },
{
    if let Some(name) = output {
        if let Some(at) = find_monitor(monitors, name) {
            return Some(at);
        }
    }
    if monitors.len() > 0 {
        Some(0)
    } else {
        None
    }
}

/// The hints decide the placement, each for itself: the picker stands at the pointer along each
/// axis for which the pointer is given, has the size that is given, and stands on an output of
/// the size that is given. A size that is not given is 420 by 520, and an output that is not given
/// is not known.
pub proof fn hints_are_followed(hints: PlacementHints)
    ensures
        hints.pointer_x matches Some(x) ==> hints.placement().x == x,
        hints.pointer_y matches Some(y) ==> hints.placement().y == y,
        hints.overlay_width matches Some(width) ==> hints.placement().overlay_width == width,
        hints.overlay_height matches Some(height) ==> hints.placement().overlay_height == height,
        hints.output_width matches Some(width) ==> hints.placement().output_width == width,
        hints.output_height matches Some(height) ==> hints.placement().output_height == height,
        hints.overlay_width is None ==> hints.placement().overlay_width == 420,
        hints.overlay_height is None ==> hints.placement().overlay_height == 520,
        hints.output_width is None ==> hints.placement().output_width == 0,
        hints.output_height is None ==> hints.placement().output_height == 0,
{
}

/// Along an axis for which no pointer is given, the picker leaves as much of the output on one
/// side as on the other, give or take a pixel. If it is as large as the output or larger, it
/// stands at 24.
pub proof fn picker_without_pointer_is_centered(hints: PlacementHints)
    requires
        hints.measurable(),
    ensures
        ({
            let placement = hints.placement();
            hints.pointer_x is None ==> {
                let room = placement.output_width - placement.overlay_width;
                &&& room > 0 ==> 0 <= room - 2 * placement.x <= 1
                &&& room <= 0 ==> placement.x == 24
            }
        }),
        ({
            let placement = hints.placement();
            hints.pointer_y is None ==> {
                let room = placement.output_height - placement.overlay_height;
                &&& room > 0 ==> 0 <= room - 2 * placement.y <= 1
                &&& room <= 0 ==> placement.y == 24
            }
        }),
{
}

/// A panel that is too near to an edge is moved to where it leaves eight pixels there, and one
/// that leaves more at both edges is not moved. If there is no room for both gaps, the one at the
/// near edge is kept.
pub proof fn clamping_moves_no_farther_than_needed(v: int, area: int, panel: int)
    ensures
        v < 8 ==> clamped(v, area, panel) == 8,
        area - panel < 16 ==> clamped(v, area, panel) == 8,
        area - panel >= 16 && v > area - panel - 8 ==> clamped(v, area, panel) == area - panel - 8,
        8 <= v <= area - panel - 8 ==> clamped(v, area, panel) == v,
{
}

/// A movable picker goes exactly where it is moved if that keeps eight pixels off every edge of
/// the usable area, or if the area is not known. Each axis goes by itself: along one that leads
/// too near to an edge, the picker stops eight pixels off.
pub proof fn picker_goes_where_it_is_moved(m: MovableModel, x: int, y: int)
    requires
        m.measurable(),
    ensures
        m.usable_area matches Some(area) ==> {
            let (at_x, at_y) = m.moved_to(x, y).position;
            let room_x = area.width - m.panel.0;
            let room_y = area.height - m.panel.1;
            &&& 8 <= x <= room_x - 8 ==> at_x == x
            &&& 8 <= y <= room_y - 8 ==> at_y == y
            &&& x < 8 || room_x < 16 ==> at_x == 8
            &&& y < 8 || room_y < 16 ==> at_y == 8
            &&& x > room_x - 8 && room_x >= 16 ==> at_x == room_x - 8
            &&& y > room_y - 8 && room_y >= 16 ==> at_y == room_y - 8
        },
        m.usable_area is None ==> {
            let (at_x, at_y) = m.moved_to(x, y).position;
            &&& i32::MIN <= x <= i32::MAX ==> at_x == x
            &&& i32::MIN <= y <= i32::MAX ==> at_y == y
            &&& x < i32::MIN ==> at_x == i32::MIN
            &&& y < i32::MIN ==> at_y == i32::MIN
            &&& x > i32::MAX ==> at_x == i32::MAX
            &&& y > i32::MAX ==> at_y == i32::MAX
        },
{
}

/// Returning moves the picker to where the request wanted it, as far as its area allows.
pub proof fn returning_goes_where_the_request_wanted(m: MovableModel)
    ensures
        m.returned() == m.moved_to(m.initial.0 as int, m.initial.1 as int),
        m.usable_area is None ==> m.returned().position == m.initial,
{
}

/// A change of the area or of the size takes both over and leaves the picker where it is, if it
/// keeps off the edges there.
pub proof fn resizing_keeps_the_position(m: MovableModel, area: UsableArea, panel: (i32, i32))
    requires
        measurable(area.width, panel.0),
        measurable(area.height, panel.1),
    ensures
        m.resized(area, panel).usable_area == Some(area),
        m.resized(area, panel).panel == panel,
        8 <= m.position.0 <= area.width - panel.0 - 8 ==> m.resized(area, panel).position.0
            == m.position.0,
        8 <= m.position.1 <= area.height - panel.1 - 8 ==> m.resized(area, panel).position.1
            == m.position.1,
        at_least_one(panel.0) == panel.0 || (panel.0 <= 0 && at_least_one(panel.0) == 1),
{
}

/// A placement is taken over as it is: the picker starts where it wants it, in its size, and in
/// its output as the usable area if both dimensions of that are positive.
pub proof fn placement_is_wanted_as_it_is(placement: Placement)
    ensures
        placement.wanted().initial == (placement.x, placement.y),
        placement.wanted().position == (placement.x, placement.y),
        placement.wanted().panel == (placement.overlay_width, placement.overlay_height),
        placement.output_width > 0 && placement.output_height > 0 ==> (
        placement.wanted().usable_area matches Some(area) && area.width == placement.output_width
            && area.height == placement.output_height),
        placement.output_width <= 0 || placement.output_height <= 0
            ==> placement.wanted().usable_area is None,
{
}

/// A request that says nothing about the placement gets the picker where the pointer was found.
/// Where it was not found either, the picker stands at 24 on both axes, 420 by 520 large, on an
/// output that is not known.
pub proof fn request_without_hints_follows_the_pointer(
    request: OpenRequest,
    captured: Option<PickerPlacement>,
)
    requires
        request.placement_hints is None,
    ensures
        needs_pointer(request),
        captured matches Some(found) ==> chosen_placement(request, captured) == found,
        captured is None ==> {
            let chosen = chosen_placement(request, captured);
            &&& chosen.output is None
            &&& chosen.geometry.x == 24
            &&& chosen.geometry.y == 24
            &&& chosen.geometry.overlay_width == 420
            &&& chosen.geometry.overlay_height == 520
            &&& chosen.geometry.output_width == 0
            &&& chosen.geometry.output_height == 0
        },
{
}

/// A request whose hints tell the pointer on both axes, or an output, gets what they ask for,
/// wherever the pointer is found. So does any request if the pointer is not found.
pub proof fn sufficient_hints_decide(
    request: OpenRequest,
    hints: PlacementHints,
    captured: Option<PickerPlacement>,
)
    requires
        request.placement_hints == Some(hints),
    ensures
        needs_pointer(request) <==> (hints.pointer_x is None || hints.pointer_y is None)
            && hints.output is None,
        !needs_pointer(request) || captured is None ==> {
            let chosen = chosen_placement(request, captured);
            &&& chosen.output == hints.output
            &&& chosen.geometry == hints.placement()
        },
{
}

/// A request whose hints do not say where the pointer is gets the picker where the pointer was
/// found, on the output that was found. The hints still decide its size.
pub proof fn insufficient_hints_follow_the_pointer(
    request: OpenRequest,
    hints: PlacementHints,
    found: PickerPlacement,
)
    requires
        request.placement_hints == Some(hints),
        hints.pointer_x is None || hints.pointer_y is None,
        hints.output is None,
    ensures
        ({
            let chosen = chosen_placement(request, Some(found));
            &&& chosen.output == found.output
            &&& chosen.geometry.x == found.geometry.x
            &&& chosen.geometry.y == found.geometry.y
            &&& chosen.geometry.output_width == found.geometry.output_width
            &&& chosen.geometry.output_height == found.geometry.output_height
            &&& hints.overlay_width matches Some(width) ==> chosen.geometry.overlay_width == width
            &&& hints.overlay_height matches Some(height) ==> chosen.geometry.overlay_height
                == height
            &&& hints.overlay_width is None ==> chosen.geometry.overlay_width
                == found.geometry.overlay_width
            &&& hints.overlay_height is None ==> chosen.geometry.overlay_height
                == found.geometry.overlay_height
        }),
{
}

/// An output that is known is kept, and one that is not is taken from the hint; the geometry
/// stays.
pub proof fn known_output_is_kept(placement: PickerPlacement, hint: Option<String>)
    ensures
        placement.output is Some ==> placement.with_hinted_output(hint) == placement,
        placement.output is None ==> placement.with_hinted_output(hint).output == hint,
        placement.with_hinted_output(hint).geometry == placement.geometry,
{
}

/// A placement on a known output does not move. On any other it takes the monitor's size over,
/// keeps its own, and leaves as much of the monitor on one side as on the other, give or take a
/// pixel, or eight pixels at the near edge where at most sixteen are left.
pub proof fn monitor_centers_the_picker(placement: Placement, width: i32, height: i32)
    requires
        i32::MIN <= width - placement.overlay_width <= i32::MAX,
        i32::MIN <= height - placement.overlay_height <= i32::MAX,
    ensures
        placement.output_width > 0 && placement.output_height > 0 ==> placement.on_monitor(
            width,
            height,
        ) == placement,
        placement.output_width <= 0 || placement.output_height <= 0 ==> {
            let on = placement.on_monitor(width, height);
            let room_x = width - placement.overlay_width;
            let room_y = height - placement.overlay_height;
            &&& on.output_width == width
            &&& on.output_height == height
            &&& on.overlay_width == placement.overlay_width
            &&& on.overlay_height == placement.overlay_height
            &&& room_x > 16 ==> 0 <= room_x - 2 * on.x <= 1
            &&& room_y > 16 ==> 0 <= room_y - 2 * on.y <= 1
            &&& room_x <= 16 ==> on.x == 8
            &&& room_y <= 16 ==> on.y == 8
        },
{
}

/// A monitor is meant by the name of its connector, and by any part of the name of its model, but
/// by a mere part of the name of its connector it is not.
pub proof fn monitors_are_meant_by_name(
    monitor: MonitorNames,
    output: Seq<char>,
    before: Seq<char>,
    after: Seq<char>,
)
    ensures
        monitor.connector matches Some(connector) && connector@ == output ==> monitor.means(output),
        monitor.model matches Some(model) && model@ == before + output + after ==> monitor.means(
            output,
        ),
        monitor.model is None && !(monitor.connector matches Some(connector) && connector@
            == output) ==> !monitor.means(output),
{
    text::inner_text_is_found(before, output, after);
}

/// The placement that hints give stands at the pointer, along each axis for which it is given.
pub proof fn placement_stands_at_the_pointer(hints: PlacementHints, r: Placement)
    requires
        call_ensures(Placement::from_hints, (&hints,), r),
    ensures
        hints.pointer_x matches Some(x) ==> r.x == x,
        hints.pointer_y matches Some(y) ==> r.y == y,
{
}

/// Only an area with both a width and a height can be used, and it is the one that is given.
pub proof fn areas_are_positive(width: i32, height: i32, r: Option<UsableArea>)
    requires
        call_ensures(UsableArea::new, (width, height), r),
    ensures
        width > 0 && height > 0 ==> (r matches Some(area) && area.width == width && area.height
            == height),
        width <= 0 || height <= 0 ==> r is None,
{
}

/// The monitor that is meant is chosen, the first of them if there are several, and without a name
/// or a monitor of that name the first of all.
pub proof fn meant_monitor_is_chosen(
    monitors: Vec<MonitorNames>,
    output: Option<&str>,
    r: Option<usize>,
    i: int,
)
    requires
        call_ensures(choose_monitor, (&monitors, output), r),
        0 <= i < monitors@.len(),
    ensures
        r matches Some(at) && at < monitors@.len(),
        output is None ==> r == Some(0usize),
        output matches Some(name) ==> monitors@[i].means(name@) ==> monitors@[r->0 as int].means(
            name@,
        ) && r->0 <= i,
{
}

/// The area that can be used takes the place of the output, and neither the position nor the size
/// of the picker nor the name of its output changes. Where it is not known, nothing changes.
pub proof fn usable_area_takes_the_place_of_the_output(placement: PickerPlacement, area: UsableArea)
    ensures
        ({
            let refined = placement.in_area(Some(area));
            &&& refined.geometry.output_width == area.width
            &&& refined.geometry.output_height == area.height
            &&& refined.geometry.x == placement.geometry.x
            &&& refined.geometry.y == placement.geometry.y
            &&& refined.geometry.overlay_width == placement.geometry.overlay_width
            &&& refined.geometry.overlay_height == placement.geometry.overlay_height
            &&& refined.output == placement.output
        }),
        placement.in_area(None) == placement,
{
}

} // verus!
