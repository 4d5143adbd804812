//! Asking the compositor: where the pointer is, and how much of an output can be used. A surface
//! is laid over the output, and what the compositor says about it is kept here.

use crate::placement::{
    PickerPlacement, Placement, UsableArea, DEFAULT_OVERLAY_HEIGHT, DEFAULT_OVERLAY_WIDTH,
    DEFAULT_POSITION,
};
use crate::protocol;
use crate::text;
use std::collections::{BTreeMap, BTreeSet};
use vstd::prelude::*;

verus! {

/// What is known, bound and created while the compositor is asked. What the compositor handed
/// out is told of here by whether it is there.
pub struct State {
    pub compositor: bool,
    pub layer_shell: bool,
    pub single_pixel_buffer_manager: bool,
    pub viewporter: bool,
    pub shm: bool,
    pub shm_pool: bool,
    pub transparent_buffer: bool,
    pub transparent_buffer_size: Option<(i32, i32)>,
    pub capture_surface: bool,
    pub capture_layer_surface: bool,
    pub capture_viewport: bool,
    pub attach_buffer_after_configure: bool,
    pub coords_received: bool,
    pub received_x: i32,
    pub received_y: i32,
    pub overlay_width: i32,
    pub overlay_height: i32,
    pub monitor_width: i32,
    pub monitor_height: i32,
    pub entered_output_id: Option<u32>,
    /// The ids of the outputs.
    pub outputs: BTreeSet<u32>,
    pub output_names: BTreeMap<u32, String>,
}

/// Why no surface can be laid over an output.
#[derive(Debug, Clone, Copy, PartialEq, Eq, Structural)]
pub enum SetupError {
    CompositorMissing,
    LayerShellMissing,
}

impl SetupError {
    pub open spec fn spec_message(self) -> Seq<char> {
        match self {
            SetupError::CompositorMissing => "wl_compositor missing"@,
            SetupError::LayerShellMissing => "layer shell missing"@,
        }
    }

    pub fn message(self) -> (r: &'static str)
        ensures
            r@ == self.spec_message(),
    {
        match self {
            SetupError::CompositorMissing => "wl_compositor missing",
            SetupError::LayerShellMissing => "layer shell missing",
        }
    }
}

/// How a transparent buffer comes about.
#[derive(Debug, Clone, Copy, PartialEq, Eq, Structural)]
pub enum BufferPlan {
    /// The buffer that is there has the right size.
    Keep,
    /// The single-pixel manager makes it.
    SinglePixel,
    /// It is made in shared memory, with this many bytes in a row and in all.
    Shared { stride: i32, size: i32 },
}

/// Why there cannot be a transparent buffer.
#[derive(Debug, Clone, Copy, PartialEq, Eq, Structural)]
pub enum BufferError {
    NotPositive,
    SharedMemoryUnavailable,
    StrideOverflow,
    SizeOverflow,
}

impl BufferError {
    pub open spec fn spec_message(self) -> Seq<char> {
        match self {
            BufferError::NotPositive => "transparent buffer dimensions must be positive"@,
            BufferError::SharedMemoryUnavailable => "wl_shm unavailable"@,
            BufferError::StrideOverflow => "transparent buffer stride overflow"@,
            BufferError::SizeOverflow => "transparent buffer size overflow"@,
        }
    }

    pub fn message(self) -> (r: &'static str)
        ensures
            r@ == self.spec_message(),
    {
        match self {
            BufferError::NotPositive => "transparent buffer dimensions must be positive",
            BufferError::SharedMemoryUnavailable => "wl_shm unavailable",
            BufferError::StrideOverflow => "transparent buffer stride overflow",
            BufferError::SizeOverflow => "transparent buffer size overflow",
        }
    }
}

/// What is to be done about a surface whose size the compositor has set.
#[derive(Debug, Clone, Copy, PartialEq, Eq, Structural)]
pub enum Configured {
    /// Nothing more: the surface is not to be shown.
    Nothing,
    /// A transparent buffer of the size of the surface is needed first.
    NeedsBuffer,
    /// The surface can be shown.
    Ready,
}

/// How a surface is shown.
#[derive(Debug, Clone, Copy, PartialEq, Eq, Structural)]
pub struct Attachment {
    /// The transparent buffer is attached.
    pub attach_buffer: bool,
    /// A viewport is created.
    pub create_viewport: bool,
    /// The viewport is set to the size of the surface.
    pub set_destination: bool,
}

/// What was there when everything was cleaned up, and is to be destroyed.
#[derive(Debug, Clone, Copy, PartialEq, Eq, Structural)]
pub struct Leftovers {
    pub viewport: bool,
    pub layer_surface: bool,
    pub surface: bool,
    pub buffer: bool,
    pub pool: bool,
}

impl State {
    pub fn new() -> (r: State)
        ensures
            !r.compositor && !r.layer_shell && !r.single_pixel_buffer_manager && !r.viewporter,
            !r.shm && !r.shm_pool && !r.transparent_buffer && r.transparent_buffer_size is None,
            !r.capture_surface && !r.capture_layer_surface && !r.capture_viewport,
            r.attach_buffer_after_configure,
            !r.coords_received,
            r.received_x == DEFAULT_POSITION && r.received_y == DEFAULT_POSITION,
            r.overlay_width == DEFAULT_OVERLAY_WIDTH && r.overlay_height == DEFAULT_OVERLAY_HEIGHT,
            r.monitor_width == 0 && r.monitor_height == 0,
            r.entered_output_id is None,
            r.outputs@ == Set::<u32>::empty(),
            r.output_names@ == Map::<u32, String>::empty(),
    {
        State {
            compositor: false,
            layer_shell: false,
            single_pixel_buffer_manager: false,
            viewporter: false,
            shm: false,
            shm_pool: false,
            transparent_buffer: false,
            transparent_buffer_size: None,
            capture_surface: false,
            capture_layer_surface: false,
            capture_viewport: false,
            attach_buffer_after_configure: true,
            coords_received: false,
            received_x: DEFAULT_POSITION,
            received_y: DEFAULT_POSITION,
            overlay_width: DEFAULT_OVERLAY_WIDTH,
            overlay_height: DEFAULT_OVERLAY_HEIGHT,
            monitor_width: 0,
            monitor_height: 0,
            entered_output_id: None,
            outputs: BTreeSet::new(),
            output_names: BTreeMap::new(),
        }
    }

    /// The compositor offers these; it always has to offer the first two.
    pub fn bind(&mut self, viewporter: bool, single_pixel_buffer_manager: bool)
        ensures
            *final(self) == (State {
                compositor: true,
                layer_shell: true,
                viewporter,
                single_pixel_buffer_manager,
                ..*old(self)
            }),
    {
        self.compositor = true;
        self.layer_shell = true;
        self.viewporter = viewporter;
        self.single_pixel_buffer_manager = single_pixel_buffer_manager;
    }

    /// Whether buffers have to be made in shared memory: one pixel is enough only where it can
    /// both be made and be stretched.
    pub fn needs_shm(&self) -> (r: bool)
        ensures
            r == (!self.single_pixel_buffer_manager || !self.viewporter),
    {
        !self.single_pixel_buffer_manager || !self.viewporter
    }

    /// A surface for the pointer is created. The result says whether a transparent buffer of one
    /// pixel is to be made at once.
    pub fn start_capture(&mut self) -> (r: Result<bool, SetupError>)
        ensures
            old(self).compositor ==> r == Ok::<bool, SetupError>(old(self).viewporter)
                && *final(self) == (State { capture_surface: true, ..*old(self) }),
            !old(self).compositor ==> r == Err::<bool, SetupError>(SetupError::CompositorMissing)
                && *final(self) == *old(self),
    {
        if !self.compositor {
            return Err(SetupError::CompositorMissing);
        }
        self.capture_surface = true;
        Ok(self.viewporter)
    }

    /// A surface that measures the usable area is created. It is never shown.
    pub fn start_work_area(&mut self) -> (r: Result<(), SetupError>)
        ensures
            old(self).compositor ==> r is Ok && *final(self) == (State {
                capture_surface: true,
                attach_buffer_after_configure: false,
                ..*old(self)
            }),
            !old(self).compositor ==> r == Err::<(), SetupError>(SetupError::CompositorMissing)
                && *final(self) == (State { attach_buffer_after_configure: false, ..*old(self) }),
    {
        self.attach_buffer_after_configure = false;
        if !self.compositor {
            return Err(SetupError::CompositorMissing);
        }
        self.capture_surface = true;
        Ok(())
    }

    /// The surface becomes a layer over the output.
    pub fn add_layer_surface(&mut self) -> (r: Result<(), SetupError>)
        ensures
            old(self).layer_shell ==> r is Ok && *final(self) == (State {
                capture_layer_surface: true,
                ..*old(self)
            }),
            !old(self).layer_shell ==> r == Err::<(), SetupError>(SetupError::LayerShellMissing)
                && *final(self) == *old(self),
    {
        if !self.layer_shell {
            return Err(SetupError::LayerShellMissing);
        }
        self.capture_layer_surface = true;
        Ok(())
    }

    /// How a transparent buffer of this size comes about, or why it cannot.
    pub open spec fn buffer_plan(self, width: i32, height: i32) -> Result<BufferPlan, BufferError> {
        if width <= 0 || height <= 0 {
            Err(BufferError::NotPositive)
        } else if self.transparent_buffer_size == Some((width, height)) {
            Ok(BufferPlan::Keep)
        } else if width == 1 && height == 1 && self.single_pixel_buffer_manager {
            Ok(BufferPlan::SinglePixel)
        } else if !self.shm {
            Err(BufferError::SharedMemoryUnavailable)
        } else if width * 4 > i32::MAX {
            Err(BufferError::StrideOverflow)
        } else if width * 4 * height > i32::MAX {
            Err(BufferError::SizeOverflow)
        } else {
            Ok(BufferPlan::Shared { stride: (width * 4) as i32, size: (width * 4 * height) as i32 })
        }
    }

    /// The state without a transparent buffer.
    pub open spec fn without_buffer(self) -> State {
        State {
            transparent_buffer: false,
            shm_pool: false,
            transparent_buffer_size: None,
            ..self
        }
    }

    /// The state with a transparent buffer of this size, made in this way.
    pub open spec fn with_buffer(self, plan: BufferPlan, width: i32, height: i32) -> State {
        State {
            transparent_buffer: true,
            shm_pool: self.shm_pool || plan is Shared,
            transparent_buffer_size: Some((width, height)),
            ..self
        }
    }

    /// Decides how a transparent buffer of this size comes about. The old buffer goes, unless it
    /// can be kept or the size makes no sense.
    pub fn plan_transparent_buffer(&mut self, width: i32, height: i32) -> (r: Result<
        BufferPlan,
        BufferError,
    >)
        ensures
            r == old(self).buffer_plan(width, height),
            *final(self) == (if r == Err::<BufferPlan, BufferError>(BufferError::NotPositive) || r
                == Ok::<BufferPlan, BufferError>(BufferPlan::Keep) {
                *old(self)
            } else {
                old(self).without_buffer()
            }),
    {
        if width <= 0 || height <= 0 {
            return Err(BufferError::NotPositive);
        }
        if let Some(size) = self.transparent_buffer_size {
            if size.0 == width && size.1 == height {
                return Ok(BufferPlan::Keep);
            }
        }
        self.clear_transparent_buffer();
        if width == 1 && height == 1 && self.single_pixel_buffer_manager {
            return Ok(BufferPlan::SinglePixel);
        }
        if !self.shm {
            return Err(BufferError::SharedMemoryUnavailable);
        }
        let stride: i32 = match width.checked_mul(4) {
            Some(stride) => stride,
            None => {
                return Err(BufferError::StrideOverflow);
            },
        };
        assert(width * 4 * height >= 0) by (nonlinear_arith)
            requires
                width > 0,
                height > 0,
        ;
        match stride.checked_mul(height) {
            Some(size) => Ok(BufferPlan::Shared { stride, size }),
            None => Err(BufferError::SizeOverflow),
        }
    }

    /// The transparent buffer of this size is there, made in this way.
    pub fn buffer_created(&mut self, plan: BufferPlan, width: i32, height: i32)
        ensures
            *final(self) == old(self).with_buffer(plan, width, height),
    {
        self.transparent_buffer = true;
        if let BufferPlan::Shared { .. } = plan {
            self.shm_pool = true;
        }
        self.transparent_buffer_size = Some((width, height));
    }

    pub fn clear_transparent_buffer(&mut self)
        ensures
            *final(self) == old(self).without_buffer(),
    {
        self.transparent_buffer = false;
        self.shm_pool = false;
        self.transparent_buffer_size = None;
    }

    /// What there is of the surface and its buffer.
    pub open spec fn leftovers(self) -> Leftovers {
        Leftovers {
            viewport: self.capture_viewport,
            layer_surface: self.capture_layer_surface,
            surface: self.capture_surface,
            buffer: self.transparent_buffer,
            pool: self.shm_pool,
        }
    }

    /// The state without the surface and its buffer.
    pub open spec fn cleaned(self) -> State {
        State {
            capture_viewport: false,
            capture_layer_surface: false,
            capture_surface: false,
            ..self.without_buffer()
        }
    }

    /// The state in which the pointer is known to be there.
    pub open spec fn with_pointer(self, x: i32, y: i32) -> State {
        State { coords_received: true, received_x: x, received_y: y, ..self }
    }

    /// The state after the compositor set the size of the surface.
    pub open spec fn with_size(self, width: u32, height: u32) -> State {
        if width > 0 && height > 0 {
            State { monitor_width: width as i32, monitor_height: height as i32, ..self }
        } else {
            self
        }
    }

    /// What is to be done once the compositor has set the size of the surface.
    pub open spec fn next_step(self) -> Configured {
        if !self.capture_surface || !self.attach_buffer_after_configure {
            Configured::Nothing
        } else if !self.viewporter {
            Configured::NeedsBuffer
        } else {
            Configured::Ready
        }
    }

    /// How the surface is shown.
    pub open spec fn attachment(self) -> Attachment {
        Attachment {
            attach_buffer: self.transparent_buffer,
            create_viewport: !self.capture_viewport && self.viewporter,
            set_destination: self.capture_viewport || self.viewporter,
        }
    }

    /// The state in which the surface is shown.
    pub open spec fn attached(self) -> State {
        State { capture_viewport: self.capture_viewport || self.viewporter, ..self }
    }

    /// Nothing stays of the surface and its buffer.
    pub fn cleanup_capture_layer(&mut self) -> (r: Leftovers)
        ensures
            r == (Leftovers {
                viewport: old(self).capture_viewport,
                layer_surface: old(self).capture_layer_surface,
                surface: old(self).capture_surface,
                buffer: old(self).transparent_buffer,
                pool: old(self).shm_pool,
            }),
            r == old(self).leftovers(),
            *final(self) == (State {
                capture_viewport: false,
                capture_layer_surface: false,
                capture_surface: false,
                ..old(self).without_buffer()
            }),
            *final(self) == old(self).cleaned(),
    {
        let r = Leftovers {
            viewport: self.capture_viewport,
            layer_surface: self.capture_layer_surface,
            surface: self.capture_surface,
            buffer: self.transparent_buffer,
            pool: self.shm_pool,
        };
        self.capture_viewport = false;
        self.capture_layer_surface = false;
        self.capture_surface = false;
        self.clear_transparent_buffer();
        r
    }

    /// The pointer entered the surface.
    pub fn pointer_entered(&mut self, x: i32, y: i32)
        ensures
            *final(self) == (State {
                coords_received: true,
                received_x: x,
                received_y: y,
                ..*old(self)
            }),
            *final(self) == old(self).with_pointer(x, y),
    {
        self.coords_received = true;
        self.received_x = x;
        self.received_y = y;
    }

    /// The compositor named an output.
    pub fn output_named(&mut self, id: u32, name: String)
        ensures
            final(self).output_names@ == old(self).output_names@.insert(id, name),
            *final(self) == (State { output_names: final(self).output_names, ..*old(self) }),
    {
        broadcast use vstd::laws_cmp::group_laws_cmp, vstd::std_specs::btree::group_btree_axioms;

        self.output_names.insert(id, name);
    }

    /// The surface came to stand on an output.
    pub fn surface_entered(&mut self, id: u32)
        ensures
            *final(self) == (State { entered_output_id: Some(id), ..*old(self) }),
    {
        self.entered_output_id = Some(id);
    }

    /// The compositor announced an output.
    pub fn output_announced(&mut self, id: u32)
        ensures
            final(self).outputs@ == old(self).outputs@.insert(id),
            *final(self) == (State { outputs: final(self).outputs, ..*old(self) }),
    {
        broadcast use vstd::laws_cmp::group_laws_cmp, vstd::std_specs::btree::group_btree_axioms;

        self.outputs.insert(id);
    }

    /// The compositor set the size of the surface. A size of nothing says nothing about the
    /// output.
    pub fn configured(&mut self, width: u32, height: u32) -> (r: Configured)
        ensures
            *final(self) == (if width > 0 && height > 0 {
                State { monitor_width: width as i32, monitor_height: height as i32, ..*old(self) }
            } else {
                *old(self)
            }),
            *final(self) == old(self).with_size(width, height),
            r == (if !old(self).capture_surface || !old(self).attach_buffer_after_configure {
                Configured::Nothing
            } else if !old(self).viewporter {
                Configured::NeedsBuffer
            } else {
                Configured::Ready
            }),
            r == old(self).next_step(),
    {
        if width > 0 && height > 0 {
            self.monitor_width = width as i32;
            self.monitor_height = height as i32;
        }
        if !self.capture_surface || !self.attach_buffer_after_configure {
            Configured::Nothing
        } else if !self.viewporter {
            Configured::NeedsBuffer
        } else {
            Configured::Ready
        }
    }

    /// The surface is shown, with what there is: a buffer, and a viewport that stretches it.
    pub fn attach(&mut self) -> (r: Attachment)
        ensures
            *final(self) == (State {
                capture_viewport: old(self).capture_viewport || old(self).viewporter,
                ..*old(self)
            }),
            *final(self) == old(self).attached(),
            r == (Attachment {
                attach_buffer: old(self).transparent_buffer,
                create_viewport: !old(self).capture_viewport && old(self).viewporter,
                set_destination: old(self).capture_viewport || old(self).viewporter,
            }),
            r == old(self).attachment(),
    {
        let create_viewport: bool = !self.capture_viewport && self.viewporter;
        if create_viewport {
            self.capture_viewport = true;
        }
        Attachment {
            attach_buffer: self.transparent_buffer,
            create_viewport,
            set_destination: self.capture_viewport,
        }
    }
}

/// The version with which an offered global is bound, if it is an output.
pub open spec fn bind_version(interface: Seq<char>, version: u32) -> Option<u32> {
    if interface == "wl_output"@ {
        Some(
            if version < 4 {
                version
            } else {
                4
            },
        )
    } else {
        None
    }
}

pub fn output_bind_version(interface: &str, version: u32) -> (r: Option<u32>)
    ensures
        r == bind_version(interface@, version),
{
    if text::same_text(interface, "wl_output") {
        if version < 4 {
            Some(version)
        } else {
            Some(4)
        }
    } else {
        None
    }
}

impl State {
    /// Whether an output has been given this name.
    pub open spec fn is_named(self, id: u32, name: Seq<char>) -> bool {
        self.output_names@.dom().contains(id) && self.output_names@[id]@ == name
    }

    fn has_name(&self, id: u32, name: &str) -> (r: bool)
        ensures
            r == self.is_named(id, name@),
    {
        broadcast use vstd::laws_cmp::group_laws_cmp, vstd::std_specs::btree::group_btree_axioms;

        match self.output_names.get(&id) {
            Some(known) => text::same_text(known.as_str(), name),
            None => false,
        }
    }

    /// The first output of this name, by its id.
    pub fn output_with_name(&self, name: &str) -> (r: Option<u32>)
        ensures
            r matches Some(id) ==> {
                &&& self.outputs@.contains(id)
                &&& self.is_named(id, name@)
                &&& forall|other: u32| #[trigger]
                    self.outputs@.contains(other) && self.is_named(other, name@) ==> id <= other
            },
            r is None ==> forall|other: u32| #[trigger]
                self.outputs@.contains(other) ==> !self.is_named(other, name@),
    {
        broadcast use vstd::laws_cmp::group_laws_cmp, vstd::std_specs::btree::group_btree_axioms;

        let mut found: Option<u32> = None;
        for id in it: self.outputs.iter()
            invariant
                it.seq().unref().to_set() == self.outputs@,
                found matches Some(first) ==> self.outputs@.contains(first) && self.is_named(
                    first,
                    name@,
                ),
                forall|k: int|
                    0 <= k < it.index() && self.is_named(*#[trigger] it.seq()[k], name@) ==> (
                    found matches Some(first) && first <= *it.seq()[k]),
        {
            proof {
                assert(it.seq().unref()[it.index()] == *id);
                assert(it.seq().unref().to_set().contains(*id));
            }
            if self.has_name(*id, name) {
                found = match found {
                    Some(first) => Some(if first < *id {
                        first
                    } else {
                        *id
                    }),
                    None => Some(*id),
                };
            }
        }
        found
    }
}

/// Asking where the pointer is.
pub struct PointerCapture;

impl PointerCapture {
    /// The compositor has answered.
    pub fn finished(state: &State) -> (r: bool)
        ensures
            r == state.coords_received,
    {
        state.coords_received
    }

    /// The name of the output on which the surface came to stand, if both are known.
    pub open spec fn entered_output(state: State) -> Option<Seq<char>> {
        match state.entered_output_id {
            Some(id) => if state.output_names@.dom().contains(id) {
                Some(state.output_names@[id]@)
            } else {
                None
            },
            None => None,
        }
    }

    /// Where the picker is to stand, by what the compositor answered.
    pub fn placement(state: &State) -> (r: PickerPlacement)
        ensures
            r.geometry == (Placement {
                x: state.received_x,
                y: state.received_y,
                overlay_width: state.overlay_width,
                overlay_height: state.overlay_height,
                output_width: state.monitor_width,
                output_height: state.monitor_height,
            }),
            protocol::optional_text(r.output) == Self::entered_output(*state),
    {
        broadcast use vstd::laws_cmp::group_laws_cmp, vstd::std_specs::btree::group_btree_axioms;

        let output: Option<String> = match state.entered_output_id {
            Some(id) => match state.output_names.get(&id) {
                Some(name) => Some(name.clone()),
                None => None,
            },
            None => None,
        };
        PickerPlacement {
            geometry: Placement {
                x: state.received_x,
                y: state.received_y,
                overlay_width: state.overlay_width,
                overlay_height: state.overlay_height,
                output_width: state.monitor_width,
                output_height: state.monitor_height,
            },
            output,
        }
    }
}

/// Why the usable area of an output is not known.
#[derive(Debug)]
pub enum ProbeError {
    /// No output has this name.
    OutputUnavailable(String),
    /// The area holds nothing.
    EmptyArea,
}

impl ProbeError {
    pub open spec fn spec_message(self) -> Seq<char> {
        match self {
            ProbeError::OutputUnavailable(name) => "Wayland output "@ + name@ + " is unavailable"@,
            ProbeError::EmptyArea => "compositor returned an empty usable output area"@,
        }
    }

    pub fn message(&self) -> (r: String)
        ensures
            r@ == self.spec_message(),
    {
        match self {
            ProbeError::OutputUnavailable(name) => {
                let mut message = "Wayland output ".to_owned();
                message.append(name.as_str());
                message.append(" is unavailable");
                message
            },
            ProbeError::EmptyArea => "compositor returned an empty usable output area".to_owned(),
        }
    }
}

/// Asking how much of an output can be used.
pub struct WorkAreaProbe;

impl WorkAreaProbe {
    /// The output to ask about: the first of the wanted name, or, where none is wanted, whichever
    /// the compositor takes.
    pub fn find_output(state: &State, output_name: Option<&str>) -> (r: Result<
        Option<u32>,
        ProbeError,
    >)
        ensures
            output_name is None ==> r == Ok::<Option<u32>, ProbeError>(None),
            output_name matches Some(name) ==> match r {
                Ok(found) => found matches Some(id) && {
                    &&& state.outputs@.contains(id)
                    &&& state.is_named(id, name@)
                    &&& forall|other: u32| #[trigger]
                        state.outputs@.contains(other) && state.is_named(other, name@) ==> id
                            <= other
                },
                Err(error) => {
                    &&& error matches ProbeError::OutputUnavailable(wanted) && wanted@ == name@
                    &&& forall|other: u32| #[trigger]
                        state.outputs@.contains(other) ==> !state.is_named(other, name@)
                },
            },
    {
        match output_name {
            Some(name) => match state.output_with_name(name) {
                Some(id) => Ok(Some(id)),
                None => Err(ProbeError::OutputUnavailable(name.to_owned())),
            },
            None => Ok(None),
        }
    }

    /// The compositor has answered.
    pub fn finished(state: &State) -> (r: bool)
        ensures
            r == (state.monitor_width > 0 && state.monitor_height > 0),
    {
        state.monitor_width > 0 && state.monitor_height > 0
    }

    /// The usable area, by what the compositor answered.
    pub fn usable_area(state: &State) -> (r: Result<UsableArea, ProbeError>)
        ensures
            state.monitor_width > 0 && state.monitor_height > 0 ==> r == Ok::<
                UsableArea,
                ProbeError,
            >(UsableArea { width: state.monitor_width, height: state.monitor_height }),
            !(state.monitor_width > 0 && state.monitor_height > 0) ==> r == Err::<
                UsableArea,
                ProbeError,
            >(ProbeError::EmptyArea),
    {
        match UsableArea::new(state.monitor_width, state.monitor_height) {
            Some(area) => Ok(area),
            None => Err(ProbeError::EmptyArea),
        }
    }
}

/// The bit by which a poll tells that something can be read.
pub const READABLE: u16 = 1;

/// The bits by which a poll tells of an error or of a connection that the other side closed.
pub const CLOSED: u16 = 24;

/// Calls rustix's `PollFlags::contains` with `PollFlags::IN`: whether that bit is set.
#[verifier::external_body]
fn is_readable(revents: u16) -> (r: bool)
    ensures
        r == (revents & READABLE == READABLE),
{
    rustix::event::PollFlags::from_bits_retain(revents).contains(rustix::event::PollFlags::IN)
}

/// Calls rustix's `PollFlags::intersects` with `PollFlags::ERR` and `PollFlags::HUP`: whether one
/// of the two bits is set.
#[verifier::external_body]
fn is_closed(revents: u16) -> (r: bool)
    ensures
        r == (revents & CLOSED != 0),
{
    rustix::event::PollFlags::from_bits_retain(revents).intersects(
        rustix::event::PollFlags::ERR | rustix::event::PollFlags::HUP,
    )
}

/// What is to be done about a connection that a poll has told of.
#[derive(Debug, Clone, Copy, PartialEq, Eq, Structural)]
pub enum PointerPollAction {
    Read,
    Closed,
    Ignore,
}

/// What there is to read is read first, even if the other side has closed the connection.
pub open spec fn poll_action(revents: u16) -> PointerPollAction {
    if revents & READABLE == READABLE {
        PointerPollAction::Read
    } else if revents & CLOSED != 0 {
        PointerPollAction::Closed
    } else {
        PointerPollAction::Ignore
    }
}

pub fn pointer_poll_action(revents: u16) -> (r: PointerPollAction)
    ensures
        r == poll_action(revents),
{
    if is_readable(revents) {
        PointerPollAction::Read
    } else if is_closed(revents) {
        PointerPollAction::Closed
    } else {
        PointerPollAction::Ignore
    }
}

/// Whatever else a poll tells, what can be read is read; a connection counts as closed only when
/// nothing can be read from it any more.
pub proof fn reading_comes_before_closing(revents: u16)
    ensures
        poll_action(revents | READABLE) == PointerPollAction::Read,
        poll_action(revents) == PointerPollAction::Closed ==> revents & READABLE == 0,
{
    assert((revents | 1u16) & 1u16 == 1u16) by (bit_vector);
    assert(revents & 1u16 != 1u16 ==> revents & 1u16 == 0) by (bit_vector);
}

/// What happened while the compositor is waited for.
#[derive(Debug)]
pub enum WaitEvent {
    /// So many events that had arrived were handled.
    PendingDispatched { count: usize },
    /// There are events to handle before anything can be read.
    ReadRefused,
    /// Something can be read; so much time is left.
    ReadPrepared { seconds: u64, nanos: u32 },
    /// The poll told of so many connections, and this of the one to the compositor.
    Polled { ready: usize, revents: u16 },
    /// The poll was interrupted.
    PollInterrupted,
    /// The poll failed.
    PollFailed { error: String },
}

/// Why the compositor is no longer waited for.
#[derive(Debug)]
pub enum WaitError {
    TimedOut,
    TimeoutTooLarge,
    ConnectionClosed,
    PollFailed(String),
}

impl WaitError {
    pub open spec fn spec_message(self) -> Seq<char> {
        match self {
            WaitError::TimedOut => "timed out waiting for pointer enter"@,
            WaitError::TimeoutTooLarge => "pointer capture timeout is too large"@,
            WaitError::ConnectionClosed => "Wayland connection closed during pointer capture"@,
            WaitError::PollFailed(error) => "poll pointer capture fd: "@ + error@,
        }
    }

    pub fn message(&self) -> (r: String)
        ensures
            r@ == self.spec_message(),
    {
        match self {
            WaitError::TimedOut => "timed out waiting for pointer enter".to_owned(),
            WaitError::TimeoutTooLarge => "pointer capture timeout is too large".to_owned(),
            WaitError::ConnectionClosed => {
                "Wayland connection closed during pointer capture".to_owned()
            },
            WaitError::PollFailed(error) => {
                let mut message = "poll pointer capture fd: ".to_owned();
                message.append(error.as_str());
                message
            },
        }
    }
}

/// What is to be done next while the compositor is waited for.
#[derive(Debug)]
pub enum WaitAction {
    /// Send what is to be sent, and prepare to read.
    PrepareRead,
    /// Poll the connection, at most for this long.
    Poll { seconds: i64, nanos: i64 },
    /// Read, and handle what arrived; that is all for this turn.
    Read,
    /// That is all for this turn.
    Finish,
    /// Give up.
    Fail(WaitError),
}

/// One turn of waiting: events that have arrived are handled, or else the connection is polled
/// for as long as there is time.
pub open spec fn next_wait(event: WaitEvent) -> WaitAction {
    match event {
        WaitEvent::PendingDispatched { count } => if count > 0 {
            WaitAction::Finish
        } else {
            WaitAction::PrepareRead
        },
        WaitEvent::ReadRefused => WaitAction::Finish,
        WaitEvent::ReadPrepared { seconds, nanos } => if seconds == 0 && nanos == 0 {
            WaitAction::Fail(WaitError::TimedOut)
        } else if seconds > i64::MAX {
            WaitAction::Fail(WaitError::TimeoutTooLarge)
        } else {
            WaitAction::Poll { seconds: seconds as i64, nanos: nanos as i64 }
        },
        WaitEvent::Polled { ready, revents } => if ready == 0 {
            WaitAction::Fail(WaitError::TimedOut)
        } else {
            match poll_action(revents) {
                PointerPollAction::Read => WaitAction::Read,
                PointerPollAction::Closed => WaitAction::Fail(WaitError::ConnectionClosed),
                PointerPollAction::Ignore => WaitAction::Finish,
            }
        },
        WaitEvent::PollInterrupted => WaitAction::Finish,
        WaitEvent::PollFailed { error } => WaitAction::Fail(WaitError::PollFailed(error)),
    }
}

pub fn wait_step(event: WaitEvent) -> (r: WaitAction)
    ensures
        r == next_wait(event),
{
    match event {
        WaitEvent::PendingDispatched { count } => {
            if count > 0 {
                WaitAction::Finish
            } else {
                WaitAction::PrepareRead
            }
        },
        WaitEvent::ReadRefused => WaitAction::Finish,
        WaitEvent::ReadPrepared { seconds, nanos } => {
            if seconds == 0 && nanos == 0 {
                WaitAction::Fail(WaitError::TimedOut)
            } else if seconds > i64::MAX as u64 {
                WaitAction::Fail(WaitError::TimeoutTooLarge)
            } else {
                WaitAction::Poll { seconds: seconds as i64, nanos: nanos as i64 }
            }
        },
        WaitEvent::Polled { ready, revents } => {
            if ready == 0 {
                WaitAction::Fail(WaitError::TimedOut)
            } else {
                match pointer_poll_action(revents) {
                    PointerPollAction::Read => WaitAction::Read,
                    PointerPollAction::Closed => WaitAction::Fail(WaitError::ConnectionClosed),
                    PointerPollAction::Ignore => WaitAction::Finish,
                }
            }
        },
        WaitEvent::PollInterrupted => WaitAction::Finish,
        WaitEvent::PollFailed { error } => WaitAction::Fail(WaitError::PollFailed(error)),
    }
}

/// A buffer that has been made is kept for as long as the size stays the same.
pub proof fn made_buffer_is_kept(state: State, plan: BufferPlan, width: i32, height: i32)
    requires
        state.buffer_plan(width, height) == Ok::<BufferPlan, BufferError>(plan),
    ensures
        state.without_buffer().with_buffer(plan, width, height).buffer_plan(width, height) == Ok::<
            BufferPlan,
            BufferError,
        >(BufferPlan::Keep),
{
}

/// A buffer in shared memory has four bytes for each pixel.
pub proof fn shared_buffer_holds_every_pixel(state: State, width: i32, height: i32)
    requires
        state.buffer_plan(width, height) matches Ok(BufferPlan::Shared { .. }),
    ensures
        state.buffer_plan(width, height) == Ok::<BufferPlan, BufferError>(
            BufferPlan::Shared { stride: (4 * width) as i32, size: (4 * width * height) as i32 },
        ),
        0 < 4 * width <= i32::MAX,
        0 < 4 * width * height <= i32::MAX,
{
    assert(4 * width * height == width * 4 * height) by (nonlinear_arith);
    assert(4 * width * height > 0) by (nonlinear_arith)
        requires
            width > 0,
            height > 0,
    ;
}

/// What has been received is taken over as it is: the picker is to stand where the pointer is,
/// in its own size, on an output of the size that the surface got.
pub proof fn captured_placement_is_what_was_received(state: State, r: PickerPlacement)
    requires
        call_ensures(PointerCapture::placement, (&state,), r),
    ensures
        r.geometry.x == state.received_x,
        r.geometry.y == state.received_y,
        r.geometry.overlay_width == state.overlay_width,
        r.geometry.overlay_height == state.overlay_height,
        r.geometry.output_width == state.monitor_width,
        r.geometry.output_height == state.monitor_height,
        state.entered_output_id is None ==> r.output is None,
{
}

/// The output on which the surface came to stand is named if the compositor has named it.
pub proof fn entered_output_is_named(state: State, id: u32)
    requires
        state.entered_output_id == Some(id),
    ensures
        state.output_names@.dom().contains(id) ==> PointerCapture::entered_output(state) == Some(
            state.output_names@[id]@,
        ),
        !state.output_names@.dom().contains(id) ==> PointerCapture::entered_output(state) is None,
{
}

/// An output is bound with the version that is offered, or with four if more is offered; no
/// other global is.
pub proof fn outputs_are_bound_up_to_version_four(interface: Seq<char>, version: u32)
    ensures
        interface == "wl_output"@ ==> (bind_version(interface, version) matches Some(bound)
            && bound <= version && bound <= 4 && (bound == version || bound == 4)),
        interface != "wl_output"@ ==> bind_version(interface, version) is None,
{
}

/// A buffer of the size of the one that is there is never made anew, one pixel is left to the
/// manager of such buffers where there is one, and every other buffer is made in shared memory
/// if its bytes can be counted with 32 bits.
pub proof fn buffers_are_made_where_they_can(state: State, width: i32, height: i32)
    requires
        width > 0,
        height > 0,
    ensures
        ({
            let plan = state.buffer_plan(width, height);
            let there = state.transparent_buffer_size == Some((width, height));
            let pixel = width == 1 && height == 1 && state.single_pixel_buffer_manager;
            &&& there ==> plan == Ok::<BufferPlan, BufferError>(BufferPlan::Keep)
            &&& !there && pixel ==> plan == Ok::<BufferPlan, BufferError>(BufferPlan::SinglePixel)
            &&& !there && !pixel && !state.shm ==> plan == Err::<BufferPlan, BufferError>(
                BufferError::SharedMemoryUnavailable,
            )
            &&& !there && !pixel && state.shm && width > 536_870_911 ==> plan == Err::<
                BufferPlan,
                BufferError,
            >(BufferError::StrideOverflow)
            &&& !there && !pixel && state.shm && width <= 536_870_911 && 4 * width * height
                > 2_147_483_647 ==> plan == Err::<BufferPlan, BufferError>(
                BufferError::SizeOverflow,
            )
            &&& !there && !pixel && state.shm && width <= 536_870_911 && 4 * width * height
                <= 2_147_483_647 ==> (plan matches Ok(BufferPlan::Shared { stride, size })
                && stride == 4 * width && size == 4 * width * height)
        }),
{
    assert(4 * width * height == width * 4 * height) by (nonlinear_arith);
    assert(4 * width * height > 0) by (nonlinear_arith)
        requires
            width > 0,
            height > 0,
    ;
}

/// A buffer without an extent is refused, whatever is there.
pub proof fn buffers_have_an_extent(state: State, width: i32, height: i32)
    requires
        width <= 0 || height <= 0,
    ensures
        state.buffer_plan(width, height) == Err::<BufferPlan, BufferError>(
            BufferError::NotPositive,
        ),
{
}

/// Clearing takes the buffer, its pool and its size, and making one brings the buffer and its
/// size, and a pool only with shared memory; the rest stays.
pub proof fn buffers_come_and_go(state: State, plan: BufferPlan, width: i32, height: i32)
    ensures
        ({
            let cleared = state.without_buffer();
            &&& !cleared.transparent_buffer
            &&& !cleared.shm_pool
            &&& cleared.transparent_buffer_size is None
            &&& cleared.capture_surface == state.capture_surface
            &&& cleared.capture_viewport == state.capture_viewport
            &&& cleared.monitor_width == state.monitor_width
            &&& cleared.monitor_height == state.monitor_height
            &&& cleared.received_x == state.received_x
            &&& cleared.received_y == state.received_y
            &&& cleared.coords_received == state.coords_received
        }),
        ({
            let made = state.with_buffer(plan, width, height);
            &&& made.transparent_buffer
            &&& made.transparent_buffer_size == Some((width, height))
            &&& plan is Shared ==> made.shm_pool
            &&& !(plan is Shared) ==> made.shm_pool == state.shm_pool
            &&& made.capture_surface == state.capture_surface
            &&& made.capture_viewport == state.capture_viewport
            &&& made.monitor_width == state.monitor_width
            &&& made.monitor_height == state.monitor_height
            &&& made.received_x == state.received_x
            &&& made.received_y == state.received_y
            &&& made.coords_received == state.coords_received
        }),
{
}

/// The bits of a poll decide what is done: bit 0 asks for reading, and otherwise bit 3 or bit 4
/// tells of a closed connection. No other bit counts.
pub proof fn poll_bits_decide(revents: u16)
    ensures
        revents & 1 == 1 <==> poll_action(revents) == PointerPollAction::Read,
        revents & 1 == 0 && (revents & 8 != 0 || revents & 16 != 0) <==> poll_action(revents)
            == PointerPollAction::Closed,
        revents & 1 == 0 && revents & 8 == 0 && revents & 16 == 0 <==> poll_action(revents)
            == PointerPollAction::Ignore,
{
    assert(revents & 1 == 0 || revents & 1 == 1) by (bit_vector);
    assert(revents & 24 != 0 <==> (revents & 8 != 0 || revents & 16 != 0)) by (bit_vector);
}

/// Events that have arrived end a turn, and without any the connection is read, as long as there
/// is time: the poll waits exactly for the time that is left, and gives up when there is none or
/// more than it can be told.
pub proof fn waiting_takes_the_time_that_is_left(count: usize, seconds: u64, nanos: u32)
    ensures
        count > 0 ==> next_wait(WaitEvent::PendingDispatched { count }) == WaitAction::Finish,
        count == 0 ==> next_wait(WaitEvent::PendingDispatched { count }) == WaitAction::PrepareRead,
        next_wait(WaitEvent::ReadRefused) == WaitAction::Finish,
        next_wait(WaitEvent::PollInterrupted) == WaitAction::Finish,
        next_wait(WaitEvent::ReadPrepared { seconds: 0, nanos: 0 }) == WaitAction::Fail(
            WaitError::TimedOut,
        ),
        (seconds > 0 || nanos > 0) && seconds <= 0x7fff_ffff_ffff_ffff ==> (next_wait(
            WaitEvent::ReadPrepared { seconds, nanos },
        ) matches WaitAction::Poll { seconds: s, nanos: n } && s == seconds && n == nanos),
        seconds > 0x7fff_ffff_ffff_ffff ==> next_wait(WaitEvent::ReadPrepared { seconds, nanos })
            == WaitAction::Fail(WaitError::TimeoutTooLarge),
{
}

/// A poll that tells of nothing means that the time is up. Otherwise what can be read is read, a
/// connection that is closed ends the waiting, and so does a poll that failed, with its error.
pub proof fn polls_are_acted_on(ready: usize, revents: u16, error: String)
    ensures
        next_wait(WaitEvent::Polled { ready: 0, revents }) == WaitAction::Fail(WaitError::TimedOut),
        ready > 0 && revents & 1 == 1 ==> next_wait(WaitEvent::Polled { ready, revents })
            == WaitAction::Read,
        ready > 0 && revents & 1 == 0 && (revents & 8 != 0 || revents & 16 != 0) ==> next_wait(
            WaitEvent::Polled { ready, revents },
        ) == WaitAction::Fail(WaitError::ConnectionClosed),
        ready > 0 && revents & 1 == 0 && revents & 8 == 0 && revents & 16 == 0 ==> next_wait(
            WaitEvent::Polled { ready, revents },
        ) == WaitAction::Finish,
        next_wait(WaitEvent::PollFailed { error }) == WaitAction::Fail(
            WaitError::PollFailed(error),
        ),
{
    poll_bits_decide(revents);
}

/// The usable area is what the compositor set, if that holds anything.
pub proof fn usable_area_is_what_was_set(state: State, r: Result<UsableArea, ProbeError>)
    requires
        call_ensures(WorkAreaProbe::usable_area, (&state,), r),
    ensures
        state.monitor_width > 0 && state.monitor_height > 0 ==> (r matches Ok(area) && area.width
            == state.monitor_width && area.height == state.monitor_height),
        state.monitor_width <= 0 || state.monitor_height <= 0 ==> r is Err,
{
}

/// The pointer is taken to be where it entered, and the picker is then placed there; the sizes
/// and the output stay as they were known.
pub proof fn pointer_is_where_it_entered(state: State, x: i32, y: i32, r: PickerPlacement)
    requires
        call_ensures(PointerCapture::placement, (&state.with_pointer(x, y),), r),
    ensures
        state.with_pointer(x, y).coords_received,
        r.geometry.x == x,
        r.geometry.y == y,
        r.geometry.overlay_width == state.overlay_width,
        r.geometry.overlay_height == state.overlay_height,
        r.geometry.output_width == state.monitor_width,
        r.geometry.output_height == state.monitor_height,
        PointerCapture::entered_output(state.with_pointer(x, y)) == PointerCapture::entered_output(
            state,
        ),
{
}

/// A size that the compositor sets is the size of the output, unless there is nothing of it; the
/// pointer and the buffer stay as they were.
pub proof fn set_sizes_are_taken_over(state: State, width: u32, height: u32)
    ensures
        ({
            let after = state.with_size(width, height);
            &&& 0 < width <= i32::MAX && 0 < height <= i32::MAX ==> after.monitor_width == width
                && after.monitor_height == height
            &&& width == 0 || height == 0 ==> after == state
            &&& after.coords_received == state.coords_received
            &&& after.received_x == state.received_x
            &&& after.received_y == state.received_y
            &&& after.transparent_buffer == state.transparent_buffer
            &&& after.capture_surface == state.capture_surface
        }),
{
}

/// A surface that is to be shown is ready where its buffer can be stretched, and needs a buffer of
/// its size where not; one that only measures, or that is not there, is left alone.
pub proof fn surfaces_are_shown_if_they_are_to_be(state: State)
    ensures
        state.capture_surface && state.attach_buffer_after_configure && state.viewporter
            ==> state.next_step() == Configured::Ready,
        state.capture_surface && state.attach_buffer_after_configure && !state.viewporter
            ==> state.next_step() == Configured::NeedsBuffer,
        !state.capture_surface ==> state.next_step() == Configured::Nothing,
        !state.attach_buffer_after_configure ==> state.next_step() == Configured::Nothing,
{
}

/// A viewport is created where there can be one, once, and is set to the size every time; a buffer
/// is attached where there is one.
pub proof fn viewport_is_created_once(state: State)
    ensures
        state.attachment().attach_buffer <==> state.transparent_buffer,
        state.viewporter && !state.capture_viewport ==> state.attachment().create_viewport,
        state.capture_viewport || !state.viewporter ==> !state.attachment().create_viewport,
        state.capture_viewport || state.viewporter ==> state.attachment().set_destination,
        !state.capture_viewport && !state.viewporter ==> !state.attachment().set_destination,
        !state.attached().attachment().create_viewport,
        state.attached().attachment().set_destination == state.attachment().set_destination,
        state.attached().transparent_buffer == state.transparent_buffer,
{
}

/// Cleaning up tells of everything that was there, and leaves nothing of it, so that cleaning up
/// again finds nothing. What the compositor said is kept.
pub proof fn nothing_is_left_after_cleaning_up(state: State)
    ensures
        ({
            let found = state.leftovers();
            let again = state.cleaned().leftovers();
            &&& found.viewport == state.capture_viewport
            &&& found.layer_surface == state.capture_layer_surface
            &&& found.surface == state.capture_surface
            &&& found.buffer == state.transparent_buffer
            &&& found.pool == state.shm_pool
            &&& !again.viewport
            &&& !again.layer_surface
            &&& !again.surface
            &&& !again.buffer
            &&& !again.pool
            &&& state.cleaned().coords_received == state.coords_received
            &&& state.cleaned().received_x == state.received_x
            &&& state.cleaned().received_y == state.received_y
            &&& state.cleaned().monitor_width == state.monitor_width
            &&& state.cleaned().monitor_height == state.monitor_height
        }),
{
}

/// Messages name what went wrong: the output that was wanted, or what the poll said.
pub proof fn messages_name_the_cause(name: String, error: String)
    ensures
        text::occurs_in(name@, ProbeError::OutputUnavailable(name).spec_message()),
        text::occurs_in(error@, WaitError::PollFailed(error).spec_message()),
{
    text::inner_text_is_found("Wayland output "@, name@, " is unavailable"@);
    let nothing = Seq::<char>::empty();
    text::inner_text_is_found("poll pointer capture fd: "@, error@, nothing);
    assert("poll pointer capture fd: "@ + error@ + nothing =~= "poll pointer capture fd: "@
        + error@);
}

} // verus!
