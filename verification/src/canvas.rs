//! The state that a window keeps besides its GPU resources: which keys and
//! mouse buttons are held, which modifiers are held, the size of the render
//! surface and its sample count, and the render targets that these call for.
use vstd::prelude::*;

use crate::event::{
    lemma_button_index_bound, lemma_button_index_injective, lemma_key_index_bound,
    lemma_key_index_injective, Action, Key, Modifiers, MouseButton,
    BUTTON_COUNT, KEY_COUNT,
};
use crate::input::{
    action_of, char_event, char_events, mouse_button_of, pending_events_of, CanvasEvent,
    ElementState, NativeMouseButton, NativeWindowEvent, PendingEvent,
};
use crate::keyboard::{key_of_physical_key, PhysicalKey};

verus! {

/// The larger of `x` and 1.
pub open spec fn at_least_one(x: u32) -> u32 {
    if x >= 1 {
        x
    } else {
        1
    }
}

/// The textures that a surface of some size and sample count renders into.
#[derive(Copy, Clone, Debug, PartialEq, Eq, Hash, Structural)]
pub struct RenderTargets {
    /// Width of every texture: never zero.
    pub width: u32,
    /// Height of every texture: never zero.
    pub height: u32,
    /// Sample count of the depth texture: never zero.
    pub depth_sample_count: u32,
    /// Sample count of the multisampled color texture, when there is one.
    pub msaa_sample_count: Option<u32>,
}

/// The render targets of a surface of the given size and sample count: every
/// texture is at least one texel wide and high, the depth texture has at
/// least one sample, and a multisampled color texture exists exactly when the
/// sample count is above one.
pub open spec fn render_targets_for(width: u32, height: u32, sample_count: u32) -> RenderTargets {
    RenderTargets {
        width: at_least_one(width),
        height: at_least_one(height),
        depth_sample_count: at_least_one(sample_count),
        msaa_sample_count: if sample_count > 1 {
            Some(sample_count)
        } else {
            None
        },
    }
}

/// The extent of a texture for a surface of the given size: zero is raised to one,
/// which the GPU requires of every texture.
pub fn texture_extent(width: u32, height: u32) -> (extent: (u32, u32))
    ensures
        extent == (at_least_one(width), at_least_one(height)),
{
    (width.max(1), height.max(1))
}

/// The sample count of the depth texture: zero is raised to one.
pub fn depth_sample_count(sample_count: u32) -> (count: u32)
    ensures
        count == at_least_one(sample_count),
{
    sample_count.max(1)
}

/// The render targets of a surface of the given size and sample count.
pub fn render_targets(width: u32, height: u32, sample_count: u32) -> (targets: RenderTargets)
    ensures
        targets == render_targets_for(width, height, sample_count),
{
    let (w, h) = texture_extent(width, height);
    RenderTargets {
        width: w,
        height: h,
        depth_sample_count: depth_sample_count(sample_count),
        msaa_sample_count: if sample_count > 1 {
            Some(sample_count)
        } else {
            None
        },
    }
}

/// A multisampled color texture exists exactly when the sample count is above one.
pub proof fn lemma_msaa_iff_multisampled(width: u32, height: u32, sample_count: u32)
    ensures
        render_targets_for(width, height, sample_count).msaa_sample_count is Some <==> sample_count
            > 1,
        render_targets_for(width, height, sample_count).depth_sample_count >= 1,
{
}

/// The new configuration of the render surface, and the render targets to
/// create again, after the surface changed size.
#[derive(Copy, Clone, Debug, PartialEq, Eq, Hash, Structural)]
pub struct SurfaceResize {
    pub width: u32,
    pub height: u32,
    pub targets: RenderTargets,
}

/// How the window presents frames.
#[derive(Copy, Clone, Debug, PartialEq, Eq, Hash, Structural)]
pub enum PresentMode {
    /// Wait for the vertical blank.
    AutoVsync,
    /// Present as soon as possible.
    AutoNoVsync,
}

/// The present mode for the `vsync` setting.
pub fn present_mode(vsync: bool) -> (mode: PresentMode)
    ensures
        mode == (if vsync {
            PresentMode::AutoVsync
        } else {
            PresentMode::AutoNoVsync
        }),
{
    if vsync {
        PresentMode::AutoVsync
    } else {
        PresentMode::AutoNoVsync
    }
}

/// The abstract state of a window.
#[verifier::ext_equal]
pub struct CanvasView {
    /// The state of each key.
    pub keys: spec_fn(Key) -> Action,
    /// The state of each mouse button.
    pub buttons: spec_fn(MouseButton) -> Action,
    /// The modifiers held.
    pub modifiers: Modifiers,
    /// The width of the render surface.
    pub width: u32,
    /// The height of the render surface.
    pub height: u32,
    /// The sample count that the window was opened with.
    pub sample_count: u32,
}

impl CanvasView {
    /// The state after an update: a key or button state is written, the
    /// modifiers are replaced, or the surface takes a new size. Events that
    /// are only handed on to the user leave the state as it is.
    pub open spec fn after(self, event: PendingEvent) -> CanvasView {
        match event {
            PendingEvent::Emit(_) => self,
            PendingEvent::ButtonState(button, action) => CanvasView {
                buttons: |b: MouseButton|
                    if b == button {
                        action
                    } else {
                        (self.buttons)(b)
                    },
                ..self
            },
            PendingEvent::KeyState(key, action) => CanvasView {
                keys: |k: Key|
                    if k == key {
                        action
                    } else {
                        (self.keys)(k)
                    },
                ..self
            },
            PendingEvent::Modifiers(modifiers) => CanvasView { modifiers, ..self },
            PendingEvent::Resize { width, height } => CanvasView { width, height, ..self },
        }
    }

    /// What the GPU side has to do after an update: only a resize asks for
    /// the surface to be configured again and its render targets created again.
    pub open spec fn resize_after(self, event: PendingEvent) -> Option<SurfaceResize> {
        match event {
            PendingEvent::Resize { width, height } => Some(
                SurfaceResize {
                    width,
                    height,
                    targets: render_targets_for(width, height, self.sample_count),
                },
            ),
            _ => None,
        }
    }

    /// The state after a sequence of updates, applied in order.
    pub open spec fn after_all(self, events: Seq<PendingEvent>) -> CanvasView
        decreases events.len(),
    {
        if events.len() == 0 {
            self
        } else {
            self.after_all(events.drop_last()).after(events.last())
        }
    }

    /// The sample count that the window reports: never zero.
    pub open spec fn reported_sample_count(self) -> u32 {
        at_least_one(self.sample_count)
    }
}

/// The state that a window keeps besides its GPU resources.
pub struct CanvasState {
    key_states: Vec<Action>,
    button_states: Vec<Action>,
    modifiers: Modifiers,
    width: u32,
    height: u32,
    sample_count: u32,
}

impl View for CanvasState {
    type V = CanvasView;

    closed spec fn view(&self) -> CanvasView {
        CanvasView {
            keys: |k: Key| self.key_states@[k as int],
            buttons: |b: MouseButton| self.button_states@[b as int],
            modifiers: self.modifiers,
            width: self.width,
            height: self.height,
            sample_count: self.sample_count,
        }
    }
}

impl CanvasState {
    /// The state is well formed: one entry per key and per button, and a
    /// surface at least one pixel wide and high.
    pub closed spec fn wf(&self) -> bool {
        &&& self.key_states@.len() == KEY_COUNT
        &&& self.button_states@.len() == BUTTON_COUNT
        &&& self.width >= 1
        &&& self.height >= 1
    }

    /// A well-formed state has a surface at least one pixel wide and high.
    pub proof fn lemma_wf_size(&self)
        requires
            self.wf(),
        ensures
            self@.width >= 1,
            self@.height >= 1,
    {
    }

    /// The state of a freshly opened window: every key and button released,
    /// no modifier held, a surface of the window's size raised to at least
    /// one pixel in each direction, and the sample count it was opened with.
    pub fn new(window_width: u32, window_height: u32, sample_count: u32) -> (s: CanvasState)
        ensures
            s.wf(),
            forall|k: Key| #[trigger] (s@.keys)(k) == Action::Release,
            forall|b: MouseButton| #[trigger] (s@.buttons)(b) == Action::Release,
            s@.modifiers == Modifiers::with_flags(false, false, false, false),
            s@.width == at_least_one(window_width),
            s@.height == at_least_one(window_height),
            s@.sample_count == sample_count,
    {
        let mut key_states: Vec<Action> = Vec::new();
        let mut i: usize = 0;
        while i < KEY_COUNT
            invariant
                0 <= i <= KEY_COUNT,
                key_states@.len() == i,
                forall|j: int| 0 <= j < i ==> key_states@[j] == Action::Release,
            decreases KEY_COUNT - i,
        {
            key_states.push(Action::Release);
            i = i + 1;
        }
        let mut button_states: Vec<Action> = Vec::new();
        let mut j: usize = 0;
        while j < BUTTON_COUNT
            invariant
                0 <= j <= BUTTON_COUNT,
                button_states@.len() == j,
                forall|n: int| 0 <= n < j ==> button_states@[n] == Action::Release,
            decreases BUTTON_COUNT - j,
        {
            button_states.push(Action::Release);
            j = j + 1;
        }
        let (width, height) = texture_extent(window_width, window_height);
        let s = CanvasState {
            key_states,
            button_states,
            modifiers: Modifiers::empty(),
            width,
            height,
            sample_count,
        };
        assert forall|k: Key| #[trigger] (s@.keys)(k) == Action::Release by {
            lemma_key_index_bound(k);
        }
        assert forall|b: MouseButton| #[trigger] (s@.buttons)(b) == Action::Release by {
            lemma_button_index_bound(b);
        }
        s
    }

    /// The state of a key.
    pub fn get_key(&self, key: Key) -> (action: Action)
        requires
            self.wf(),
        ensures
            action == (self@.keys)(key),
    {
        proof {
            lemma_key_index_bound(key);
        }
        self.key_states[key as usize]
    }

    /// The state of a mouse button.
    pub fn get_mouse_button(&self, button: MouseButton) -> (action: Action)
        requires
            self.wf(),
        ensures
            action == (self@.buttons)(button),
    {
        proof {
            lemma_button_index_bound(button);
        }
        self.button_states[button as usize]
    }

    /// The size of the render surface. It matches the render targets, which
    /// is why it is never zero in either direction.
    pub fn size(&self) -> (size: (u32, u32))
        requires
            self.wf(),
        ensures
            size == (self@.width, self@.height),
            size.0 >= 1,
            size.1 >= 1,
            size == (render_targets_for(size.0, size.1, self@.sample_count).width,
                     render_targets_for(size.0, size.1, self@.sample_count).height),
    {
        (self.width, self.height)
    }

    /// The sample count used for multisampling: never zero.
    pub fn sample_count(&self) -> (count: u32)
        ensures
            count == self@.reported_sample_count(),
            count >= 1,
    {
        self.sample_count.max(1)
    }

    /// The render targets of the current surface.
    pub fn render_targets(&self) -> (targets: RenderTargets)
        requires
            self.wf(),
        ensures
            targets == render_targets_for(self@.width, self@.height, self@.sample_count),
            targets.width == self@.width,
            targets.height == self@.height,
    {
        render_targets(self.width, self.height, self.sample_count)
    }

    fn set_key(&mut self, key: Key, action: Action)
        requires
            old(self).wf(),
        ensures
            final(self).wf(),
            final(self)@ == old(self)@.after(PendingEvent::KeyState(key, action)),
    {
        proof {
            lemma_key_index_bound(key);
        }
        self.key_states.set(key as usize, action);
        proof {
            let expected = old(self)@.after(PendingEvent::KeyState(key, action));
            assert forall|k: Key| #[trigger] (self@.keys)(k) == (expected.keys)(k) by {
                lemma_key_index_bound(k);
                lemma_key_index_injective(k, key);
            }
            assert(self@ =~= expected);
        }
    }

    fn set_button(&mut self, button: MouseButton, action: Action)
        requires
            old(self).wf(),
        ensures
            final(self).wf(),
            final(self)@ == old(self)@.after(PendingEvent::ButtonState(button, action)),
    {
        proof {
            lemma_button_index_bound(button);
        }
        self.button_states.set(button as usize, action);
        proof {
            let expected = old(self)@.after(PendingEvent::ButtonState(button, action));
            assert forall|b: MouseButton| #[trigger] (self@.buttons)(b) == (expected.buttons)(b) by {
                lemma_button_index_bound(b);
                lemma_button_index_injective(b, button);
            }
            assert(self@ =~= expected);
        }
    }

    /// Applies one update to the state, and says what the GPU side has to do
    /// about it. A resize must be to a surface at least one pixel wide and high.
    pub fn apply(&mut self, event: PendingEvent) -> (resize: Option<SurfaceResize>)
        requires
            old(self).wf(),
            event matches PendingEvent::Resize { width, height } ==> width > 0 && height > 0,
        ensures
            final(self).wf(),
            final(self)@ == old(self)@.after(event),
            resize == old(self)@.resize_after(event),
    {
        match event {
            PendingEvent::Emit(_) => None,
            PendingEvent::ButtonState(button, action) => {
                self.set_button(button, action);
                None
            },
            PendingEvent::KeyState(key, action) => {
                self.set_key(key, action);
                None
            },
            PendingEvent::Modifiers(modifiers) => {
                self.modifiers = modifiers;
                assert(self@ =~= old(self)@.after(event));
                None
            },
            PendingEvent::Resize { width, height } => {
                self.width = width;
                self.height = height;
                assert(self@ =~= old(self)@.after(event));
                Some(
                    SurfaceResize {
                        width,
                        height,
                        targets: render_targets(width, height, self.sample_count),
                    },
                )
            },
        }
    }
}

impl CanvasState {
    /// Follows the size of a web canvas: when the canvas has a size that is
    /// not zero in either direction and differs from the surface's, the
    /// surface takes it; otherwise nothing changes.
    pub fn web_resize(&mut self, current_width: u32, current_height: u32) -> (resize: Option<
        SurfaceResize,
    >)
        requires
            old(self).wf(),
        ensures
            final(self).wf(),
            ({
                let event = PendingEvent::Resize { width: current_width, height: current_height };
                if current_width > 0 && current_height > 0 && (current_width != old(self)@.width
                    || current_height != old(self)@.height) {
                    &&& final(self)@ == old(self)@.after(event)
                    &&& resize == old(self)@.resize_after(event)
                } else {
                    &&& final(self)@ == old(self)@
                    &&& resize is None
                }
            }),
    {
        if current_width > 0 && current_height > 0 && (current_width != self.width || current_height
            != self.height) {
            self.apply(PendingEvent::Resize { width: current_width, height: current_height })
        } else {
            None
        }
    }
}

/// Reading a key gives back the state last written to it; every other key,
/// every button, the modifiers and the surface are left as they were.
pub proof fn lemma_key_read_after_write(v: CanvasView, key: Key, action: Action, other: Key)
    ensures
        (v.after(PendingEvent::KeyState(key, action)).keys)(key) == action,
        other != key ==> (v.after(PendingEvent::KeyState(key, action)).keys)(other) == (v.keys)(
            other,
        ),
        v.after(PendingEvent::KeyState(key, action)).buttons == v.buttons,
        v.after(PendingEvent::KeyState(key, action)).modifiers == v.modifiers,
        v.after(PendingEvent::KeyState(key, action)).width == v.width,
        v.after(PendingEvent::KeyState(key, action)).height == v.height,
{
}

/// Reading a mouse button gives back the state last written to it; every
/// other button, every key, the modifiers and the surface are left as they were.
pub proof fn lemma_button_read_after_write(
    v: CanvasView,
    button: MouseButton,
    action: Action,
    other: MouseButton,
)
    ensures
        (v.after(PendingEvent::ButtonState(button, action)).buttons)(button) == action,
        other != button ==> (v.after(PendingEvent::ButtonState(button, action)).buttons)(other)
            == (v.buttons)(other),
        v.after(PendingEvent::ButtonState(button, action)).keys == v.keys,
        v.after(PendingEvent::ButtonState(button, action)).modifiers == v.modifiers,
        v.after(PendingEvent::ButtonState(button, action)).width == v.width,
        v.after(PendingEvent::ButtonState(button, action)).height == v.height,
{
}

/// After a resize the surface has the new size, and its render targets are
/// created again with exactly that size; keys, buttons and modifiers are
/// left as they were.
pub proof fn lemma_resize_read_after_write(v: CanvasView, width: u32, height: u32)
    requires
        width > 0,
        height > 0,
    ensures
        v.after(PendingEvent::Resize { width, height }).width == width,
        v.after(PendingEvent::Resize { width, height }).height == height,
        v.after(PendingEvent::Resize { width, height }).keys == v.keys,
        v.after(PendingEvent::Resize { width, height }).buttons == v.buttons,
        v.after(PendingEvent::Resize { width, height }).modifiers == v.modifiers,
        v.resize_after(PendingEvent::Resize { width, height }) matches Some(r) && r.targets.width
            == width && r.targets.height == height,
{
}

/// Events that are only handed on to the user leave the state as it is.
pub proof fn lemma_emit_keeps_state(v: CanvasView, e: CanvasEvent)
    ensures
        v.after(PendingEvent::Emit(e)) == v,
        v.resize_after(PendingEvent::Emit(e)) is None,
{
}

/// Two updates in a row.
proof fn lemma_after_all_pair(v: CanvasView, a: PendingEvent, b: PendingEvent)
    ensures
        v.after_all(seq![a, b]) == v.after(a).after(b),
{
    let s = seq![a, b];
    assert(s.drop_last() =~= seq![a]);
    assert(s.drop_last().drop_last() =~= Seq::<PendingEvent>::empty());
    assert(v.after_all(Seq::<PendingEvent>::empty()) == v);
    assert(v.after_all(seq![a]) == v.after(a));
}

/// Typed characters are only handed on: they leave the state as it is.
pub proof fn lemma_char_events_keep_state(v: CanvasView, head: Seq<PendingEvent>, text: Seq<char>)
    ensures
        v.after_all(head + char_events(text)) == v.after_all(head),
    decreases text.len(),
{
    if text.len() == 0 {
        assert(head + char_events(text) =~= head);
    } else {
        let shorter = text.drop_last();
        lemma_char_events_keep_state(v, head, shorter);
        let all = head + char_events(text);
        assert(all.drop_last() =~= head + char_events(shorter));
        assert(all.last() == char_event(text.last()));
    }
}

/// A native key event leaves the key in the state that the event reports;
/// every other key, every button and the surface size are left as they were.
pub proof fn lemma_native_key_event_recorded(
    v: CanvasView,
    state: ElementState,
    physical_key: PhysicalKey,
    text: Vec<char>,
    other: Key,
)
    ensures
        ({
            let after = v.after_all(
                pending_events_of(NativeWindowEvent::KeyboardInput { state, physical_key, text }),
            );
            let key = key_of_physical_key(physical_key);
            &&& (after.keys)(key) == action_of(state)
            &&& other != key ==> (after.keys)(other) == (v.keys)(other)
            &&& after.buttons == v.buttons
            &&& after.width == v.width
            &&& after.height == v.height
        }),
{
    let key = key_of_physical_key(physical_key);
    let action = action_of(state);
    let head = seq![
        PendingEvent::KeyState(key, action),
        PendingEvent::Emit(
            CanvasEvent::Key(key, action, Modifiers::with_flags(false, false, false, false)),
        ),
    ];
    lemma_char_events_keep_state(v, head, text@);
    lemma_after_all_pair(v, head[0], head[1]);
    assert(head =~= seq![head[0], head[1]]);
}

/// A native mouse button event leaves the button in the state that the event
/// reports; every other button, every key and the surface size are left as
/// they were.
pub proof fn lemma_native_button_event_recorded(
    v: CanvasView,
    state: ElementState,
    button: NativeMouseButton,
    other: MouseButton,
)
    ensures
        ({
            let after = v.after_all(
                pending_events_of(NativeWindowEvent::MouseInput { state, button }),
            );
            let b = mouse_button_of(button);
            &&& (after.buttons)(b) == action_of(state)
            &&& other != b ==> (after.buttons)(other) == (v.buttons)(other)
            &&& after.keys == v.keys
            &&& after.width == v.width
            &&& after.height == v.height
        }),
{
    let events = pending_events_of(NativeWindowEvent::MouseInput { state, button });
    lemma_after_all_pair(v, events[0], events[1]);
    assert(events =~= seq![events[0], events[1]]);
}

/// A native resize to a size that is zero in some direction is ignored: it
/// yields no event and changes nothing. Any other resize gives the surface
/// the new size and tells the user of the new framebuffer size.
pub proof fn lemma_native_resize(v: CanvasView, width: u32, height: u32)
    ensures
        ({
            let events = pending_events_of(NativeWindowEvent::Resized { width, height });
            let after = v.after_all(events);
            if width == 0 || height == 0 {
                &&& events.len() == 0
                &&& after == v
            } else {
                &&& after.width == width
                &&& after.height == height
                &&& after.keys == v.keys
                &&& after.buttons == v.buttons
                &&& events.contains(PendingEvent::Emit(CanvasEvent::FramebufferSize(width, height)))
            }
        }),
{
    let events = pending_events_of(NativeWindowEvent::Resized { width, height });
    if width > 0 && height > 0 {
        lemma_after_all_pair(v, events[0], events[1]);
        assert(events =~= seq![events[0], events[1]]);
        assert(events[1] == PendingEvent::Emit(CanvasEvent::FramebufferSize(width, height)));
    } else {
        assert(events =~= Seq::<PendingEvent>::empty());
    }
}

/// A close request is only handed on: it changes nothing.
pub proof fn lemma_native_close(v: CanvasView)
    ensures
        v.after_all(pending_events_of(NativeWindowEvent::CloseRequested)) == v,
{
    let events = pending_events_of(NativeWindowEvent::CloseRequested);
    assert(events.drop_last() =~= Seq::<PendingEvent>::empty());
    assert(v.after_all(Seq::<PendingEvent>::empty()) == v);
}

/// No update changes the sample count. Only a resize changes the surface
/// size and only a resize asks the GPU side for anything; only a key update
/// changes keys, only a button update changes buttons, and only a modifier
/// update changes the modifiers, to exactly the ones it carries.
pub proof fn lemma_update_frame(v: CanvasView, e: PendingEvent)
    ensures
        v.after(e).sample_count == v.sample_count,
        !(e is Resize) ==> v.after(e).width == v.width && v.after(e).height == v.height,
        !(e is Resize) ==> v.resize_after(e) == None::<SurfaceResize>,
        !(e is KeyState) ==> v.after(e).keys == v.keys,
        !(e is ButtonState) ==> v.after(e).buttons == v.buttons,
        !(e is Modifiers) ==> v.after(e).modifiers == v.modifiers,
        (e matches PendingEvent::Modifiers(m) ==> v.after(e).modifiers == m),
{
}

/// However many updates are applied, the sample count stays the one the
/// window was opened with.
pub proof fn lemma_sample_count_kept(v: CanvasView, events: Seq<PendingEvent>)
    ensures
        v.after_all(events).sample_count == v.sample_count,
    decreases events.len(),
{
    if events.len() > 0 {
        lemma_sample_count_kept(v, events.drop_last());
        lemma_update_frame(v.after_all(events.drop_last()), events.last());
    }
}

/// After a resize the render targets are planned for the new size and the
/// unchanged sample count: a zero sample count gives a one-sample depth
/// texture, and there is a multisampled color texture with the window's
/// sample count exactly when that count is above one.
pub proof fn lemma_resize_targets(v: CanvasView, width: u32, height: u32)
    requires
        width > 0,
        height > 0,
    ensures
        ({
            let r = v.resize_after(PendingEvent::Resize { width, height });
            &&& r is Some
            &&& r->0.width == width
            &&& r->0.height == height
            &&& r->0.targets.width == width
            &&& r->0.targets.height == height
            &&& r->0.targets.depth_sample_count == (if v.sample_count == 0 {
                1
            } else {
                v.sample_count
            })
            &&& r->0.targets.msaa_sample_count == (if v.sample_count > 1 {
                Some(v.sample_count)
            } else {
                None
            })
        }),
{
}

/// The render targets of a surface: a zero width or height is raised to one,
/// as is a zero sample count for the depth texture; a multisampled color
/// texture carries the sample count and exists exactly when it is above one.
pub proof fn lemma_render_targets_for(width: u32, height: u32, sample_count: u32)
    ensures
        render_targets_for(width, height, sample_count).width == (if width == 0 {
            1
        } else {
            width
        }),
        render_targets_for(width, height, sample_count).height == (if height == 0 {
            1
        } else {
            height
        }),
        render_targets_for(width, height, sample_count).depth_sample_count == (if sample_count
            == 0 {
            1
        } else {
            sample_count
        }),
        render_targets_for(width, height, sample_count).msaa_sample_count == (if sample_count > 1 {
            Some(sample_count)
        } else {
            None
        }),
{
}

/// The reported sample count is the window's sample count, except that zero
/// is reported as one.
pub proof fn lemma_reported_sample_count(v: CanvasView)
    ensures
        v.reported_sample_count() == (if v.sample_count == 0 {
            1
        } else {
            v.sample_count
        }),
{
}

} // verus!
