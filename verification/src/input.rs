//! How the native windowing system's input events become the
//! window's own vocabulary, and the state updates that each event causes.
use vstd::prelude::*;

use crate::event::{Action, Key, Modifier, Modifiers, MouseButton};
use crate::keyboard::{key_of_physical_key, translate_key, PhysicalKey};

verus! {

/// Whether a key or button went down or up, as the native windowing system reports it.
#[derive(Copy, Clone, Debug, PartialEq, Eq, Hash, Structural)]
pub enum ElementState {
    Pressed,
    Released,
}

/// A mouse button as the native windowing system reports it.
#[derive(Copy, Clone, Debug, PartialEq, Eq, Hash, Structural)]
pub enum NativeMouseButton {
    Left,
    Right,
    Middle,
    Back,
    Forward,
    Other(u16),
}

/// The modifier flags that the native windowing system reports.
#[derive(Copy, Clone, Debug, PartialEq, Eq, Hash, Structural)]
pub struct ModifiersState {
    pub shift: bool,
    pub control: bool,
    pub alt: bool,
    pub super_key: bool,
}

/// The `Action` of a native element state.
pub open spec fn action_of(state: ElementState) -> Action {
    match state {
        ElementState::Pressed => Action::Press,
        ElementState::Released => Action::Release,
    }
}

/// Translates a native element state into an `Action`.
pub fn translate_action(action: ElementState) -> (r: Action)
    ensures
        r == action_of(action),
{
    match action {
        ElementState::Pressed => Action::Press,
        ElementState::Released => Action::Release,
    }
}

/// The `Modifiers` of a native modifier state.
pub open spec fn modifiers_of(modifiers: ModifiersState) -> Modifiers {
    Modifiers::with_flags(modifiers.shift, modifiers.control, modifiers.alt, modifiers.super_key)
}

/// Translates a native modifier state into `Modifiers`.
pub fn translate_modifiers(modifiers: ModifiersState) -> (res: Modifiers)
    ensures
        res == modifiers_of(modifiers),
        res@.contains(Modifier::Shift) == modifiers.shift,
        res@.contains(Modifier::Control) == modifiers.control,
        res@.contains(Modifier::Alt) == modifiers.alt,
        res@.contains(Modifier::Super) == modifiers.super_key,
{
    let mut res = Modifiers::empty();
    if modifiers.shift {
        res.insert(Modifier::Shift)
    }
    if modifiers.control {
        res.insert(Modifier::Control)
    }
    if modifiers.alt {
        res.insert(Modifier::Alt)
    }
    if modifiers.super_key {
        res.insert(Modifier::Super)
    }
    proof {
        Modifiers::lemma_with_flags(
            modifiers.shift,
            modifiers.control,
            modifiers.alt,
            modifiers.super_key,
        );
        let target = modifiers_of(modifiers);
        assert(res@ =~= target@);
        res.lemma_view_injective(target);
    }
    res
}

/// The `MouseButton` of a native mouse button.
pub open spec fn mouse_button_of(button: NativeMouseButton) -> MouseButton {
    match button {
        NativeMouseButton::Left => MouseButton::Button1,
        NativeMouseButton::Right => MouseButton::Button2,
        NativeMouseButton::Middle => MouseButton::Button3,
        _ => MouseButton::Button4,
    }
}

/// Translates a native mouse button: left, right and middle are the first
/// three buttons, every other button is the fourth.
pub fn translate_mouse_button(button: NativeMouseButton) -> (r: MouseButton)
    ensures
        r == mouse_button_of(button),
{
    match button {
        NativeMouseButton::Left => MouseButton::Button1,
        NativeMouseButton::Right => MouseButton::Button2,
        NativeMouseButton::Middle => MouseButton::Button3,
        _ => MouseButton::Button4,
    }
}

/// The `MouseButton` of the `button` number of a web pointer event.
pub open spec fn web_mouse_button_of(button: i16) -> MouseButton {
    if button == 0 {
        MouseButton::Button1
    } else if button == 1 {
        MouseButton::Button3
    } else if button == 2 {
        MouseButton::Button2
    } else if button == 3 {
        MouseButton::Button4
    } else if button == 4 {
        MouseButton::Button5
    } else {
        MouseButton::Button1
    }
}

/// Translates the `button` number of a web pointer event: 0 is the left
/// button, 1 the middle one, 2 the right one, 3 and 4 the back and forward
/// buttons; any other number counts as the left button.
pub fn translate_web_mouse_button(button: i16) -> (r: MouseButton)
    ensures
        r == web_mouse_button_of(button),
{
    match button {
        0 => MouseButton::Button1,
        1 => MouseButton::Button3,
        2 => MouseButton::Button2,
        3 => MouseButton::Button4,
        4 => MouseButton::Button5,
        _ => MouseButton::Button1,
    }
}

/// A window event of the native windowing system, reduced to the events
/// whose payload is made of plain values. Pointer motion, touches and
/// scrolling carry floating-point coordinates and are not among them.
#[derive(Debug)]
pub enum NativeWindowEvent {
    /// The user asked to close the window.
    CloseRequested,
    /// The window's inner size changed.
    Resized { width: u32, height: u32 },
    /// A mouse button went down or up.
    MouseInput { state: ElementState, button: NativeMouseButton },
    /// A key went down or up; `text` holds the characters that the key
    /// produces, empty when its logical key is not a character.
    KeyboardInput { state: ElementState, physical_key: PhysicalKey, text: Vec<char> },
    /// The set of held modifiers changed.
    ModifiersChanged(ModifiersState),
    /// Any event that the window ignores.
    Other,
}

/// An event that the window hands on to its user.
#[derive(Copy, Clone, Debug, PartialEq, Eq, Hash, Structural)]
pub enum CanvasEvent {
    /// The window should close.
    Close,
    /// The framebuffer now has this width and height.
    FramebufferSize(u32, u32),
    /// A mouse button went down or up.
    MouseButton(MouseButton, Action, Modifiers),
    /// A key went down or up.
    Key(Key, Action, Modifiers),
    /// A character was typed.
    Character(char),
}

/// What one native event becomes: events for the user, and updates of the
/// window's own state.
#[derive(Copy, Clone, Debug, PartialEq, Eq, Hash, Structural)]
pub enum PendingEvent {
    /// An event to hand on to the user.
    Emit(CanvasEvent),
    /// A mouse button now has this state.
    ButtonState(MouseButton, Action),
    /// A key now has this state.
    KeyState(Key, Action),
    /// These modifiers are now held.
    Modifiers(Modifiers),
    /// The render surface must take this size.
    Resize { width: u32, height: u32 },
}

/// The pending event of one typed character.
pub open spec fn char_event(c: char) -> PendingEvent {
    PendingEvent::Emit(CanvasEvent::Character(c))
}

/// The pending events of typed characters, one per character in order.
pub open spec fn char_events(text: Seq<char>) -> Seq<PendingEvent>
    decreases text.len(),
{
    if text.len() == 0 {
        seq![]
    } else {
        char_events(text.drop_last()).push(char_event(text.last()))
    }
}

/// The pending events that a native window event becomes, in order.
pub open spec fn pending_events_of(event: NativeWindowEvent) -> Seq<PendingEvent> {
    match event {
        NativeWindowEvent::CloseRequested => seq![PendingEvent::Emit(CanvasEvent::Close)],
        NativeWindowEvent::Resized { width, height } => {
            if width > 0 && height > 0 {
                seq![
                    PendingEvent::Resize { width, height },
                    PendingEvent::Emit(CanvasEvent::FramebufferSize(width, height)),
                ]
            } else {
                seq![]
            }
        },
        NativeWindowEvent::MouseInput { state, button } => {
            let action = action_of(state);
            let button = mouse_button_of(button);
            seq![
                PendingEvent::ButtonState(button, action),
                PendingEvent::Emit(
                    CanvasEvent::MouseButton(button, action, Modifiers::with_flags(false, false, false, false)),
                ),
            ]
        },
        NativeWindowEvent::KeyboardInput { state, physical_key, text } => {
            let action = action_of(state);
            let key = key_of_physical_key(physical_key);
            seq![
                PendingEvent::KeyState(key, action),
                PendingEvent::Emit(
                    CanvasEvent::Key(key, action, Modifiers::with_flags(false, false, false, false)),
                ),
            ] + char_events(text@)
        },
        NativeWindowEvent::ModifiersChanged(modifiers) => seq![
            PendingEvent::Modifiers(modifiers_of(modifiers)),
        ],
        NativeWindowEvent::Other => seq![],
    }
}

/// Pushing after a concatenation pushes onto its second part.
proof fn lemma_append_push(head: Seq<PendingEvent>, tail: Seq<PendingEvent>, e: PendingEvent)
    ensures
        (head + tail).push(e) == head + tail.push(e),
{
    assert((head + tail).push(e) =~= head + tail.push(e));
}

/// One more typed character extends the pending events by its event.
proof fn lemma_keyboard_step(
    head: Seq<PendingEvent>,
    text: Seq<char>,
    i: int,
    before: Seq<PendingEvent>,
    after: Seq<PendingEvent>,
)
    requires
        0 <= i < text.len(),
        before == head + char_events(text.subrange(0, i)),
        after == before.push(char_event(text[i])),
    ensures
        after == head + char_events(text.subrange(0, i + 1)),
{
    let done = text.subrange(0, i);
    let longer = text.subrange(0, i + 1);
    assert(longer.drop_last() =~= done);
    lemma_append_push(head, char_events(done), char_event(text[i]));
}

/// The pending events of a key that went down or up and typed `text`.
fn keyboard_events(key: Key, action: Action, text: &Vec<char>) -> (v: Vec<PendingEvent>)
    ensures
        v@ == seq![
            PendingEvent::KeyState(key, action),
            PendingEvent::Emit(
                CanvasEvent::Key(key, action, Modifiers::with_flags(false, false, false, false)),
            ),
        ] + char_events(text@),
{
    let mut v = Vec::new();
    v.push(PendingEvent::KeyState(key, action));
    v.push(PendingEvent::Emit(CanvasEvent::Key(key, action, Modifiers::empty())));
    let ghost head = v@;
    proof {
        assert(char_events(text@.subrange(0, 0)) =~= Seq::<PendingEvent>::empty());
        assert(v@ =~= head + char_events(text@.subrange(0, 0)));
    }
    let mut i: usize = 0;
    while i < text.len()
        invariant
            0 <= i <= text@.len(),
            v@ == head + char_events(text@.subrange(0, i as int)),
        decreases text@.len() - i,
    {
        let ch = text[i];
        let ghost before = v@;
        v.push(PendingEvent::Emit(CanvasEvent::Character(ch)));
        proof {
            lemma_keyboard_step(head, text@, i as int, before, v@);
        }
        i = i + 1;
    }
    proof {
        assert(text@.subrange(0, text@.len() as int) =~= text@);
    }
    v
}

/// Turns one native window event into the events to hand on and the state
/// updates to make, in the order in which they are to be processed.
/// A resize to a zero width or height is dropped.
pub fn collect_window_event(event: NativeWindowEvent) -> (pending: Vec<PendingEvent>)
    ensures
        pending@ == pending_events_of(event),
{
    match event {
        NativeWindowEvent::CloseRequested => {
            let mut v = Vec::new();
            v.push(PendingEvent::Emit(CanvasEvent::Close));
            v
        },
        NativeWindowEvent::Resized { width, height } => {
            let mut v = Vec::new();
            if width > 0 && height > 0 {
                v.push(PendingEvent::Resize { width, height });
                v.push(PendingEvent::Emit(CanvasEvent::FramebufferSize(width, height)));
            }
            v
        },
        NativeWindowEvent::MouseInput { state, button } => {
            let action = translate_action(state);
            let button = translate_mouse_button(button);
            let mut v = Vec::new();
            v.push(PendingEvent::ButtonState(button, action));
            v.push(PendingEvent::Emit(CanvasEvent::MouseButton(button, action, Modifiers::empty())));
            v
        },
        NativeWindowEvent::KeyboardInput { state, physical_key, text } => {
            let action = translate_action(state);
            let key = translate_key(physical_key);
            keyboard_events(key, action, &text)
        },
        NativeWindowEvent::ModifiersChanged(modifiers) => {
            let mut v = Vec::new();
            v.push(PendingEvent::Modifiers(translate_modifiers(modifiers)));
            v
        },
        NativeWindowEvent::Other => Vec::new(),
    }
}

/// A press is `Press` and a release `Release`; the left, right and middle
/// native buttons are the first three buttons and every other native button,
/// whatever its number, is the fourth.
pub proof fn lemma_native_input_tables(n: u16)
    ensures
        action_of(ElementState::Pressed) == Action::Press,
        action_of(ElementState::Released) == Action::Release,
        mouse_button_of(NativeMouseButton::Left) == MouseButton::Button1,
        mouse_button_of(NativeMouseButton::Right) == MouseButton::Button2,
        mouse_button_of(NativeMouseButton::Middle) == MouseButton::Button3,
        mouse_button_of(NativeMouseButton::Back) == MouseButton::Button4,
        mouse_button_of(NativeMouseButton::Forward) == MouseButton::Button4,
        mouse_button_of(NativeMouseButton::Other(n)) == MouseButton::Button4,
{
}

/// Web button 0 is the first button, 1 the third (middle), 2 the second
/// (right), 3 and 4 the fourth and fifth; any other number is the first.
pub proof fn lemma_web_mouse_buttons(b: i16)
    ensures
        web_mouse_button_of(0) == MouseButton::Button1,
        web_mouse_button_of(1) == MouseButton::Button3,
        web_mouse_button_of(2) == MouseButton::Button2,
        web_mouse_button_of(3) == MouseButton::Button4,
        web_mouse_button_of(4) == MouseButton::Button5,
        (b < 0 || b > 4) ==> web_mouse_button_of(b) == MouseButton::Button1,
{
}

/// The modifiers of a native modifier state hold exactly its set flags.
pub proof fn lemma_modifiers_of(m: ModifiersState)
    ensures
        modifiers_of(m)@.contains(Modifier::Shift) == m.shift,
        modifiers_of(m)@.contains(Modifier::Control) == m.control,
        modifiers_of(m)@.contains(Modifier::Alt) == m.alt,
        modifiers_of(m)@.contains(Modifier::Super) == m.super_key,
{
    Modifiers::lemma_with_flags(m.shift, m.control, m.alt, m.super_key);
}

/// Typed characters become one character event each, in order.
pub proof fn lemma_char_events(text: Seq<char>)
    ensures
        char_events(text).len() == text.len(),
        forall|i: int|
            0 <= i < text.len() ==> #[trigger] char_events(text)[i] == PendingEvent::Emit(
                CanvasEvent::Character(text[i]),
            ),
    decreases text.len(),
{
    if text.len() > 0 {
        lemma_char_events(text.drop_last());
    }
}

/// A native mouse input first records the button's new state, then hands on
/// a mouse button event for the same button with the same action and no
/// modifiers.
pub proof fn lemma_mouse_input_events(state: ElementState, button: NativeMouseButton)
    ensures
        ({
            let p = pending_events_of(NativeWindowEvent::MouseInput { state, button });
            let b = mouse_button_of(button);
            let a = action_of(state);
            &&& p.len() == 2
            &&& p[0] == PendingEvent::ButtonState(b, a)
            &&& p[1] == PendingEvent::Emit(
                CanvasEvent::MouseButton(b, a, Modifiers::with_flags(false, false, false, false)),
            )
            &&& Modifiers::with_flags(false, false, false, false)@ == Set::<Modifier>::empty()
        }),
{
    Modifiers::lemma_with_flags(false, false, false, false);
    assert(Modifiers::with_flags(false, false, false, false)@ =~= Set::<Modifier>::empty());
}

/// A native keyboard input first records the key's new state, then hands on
/// a key event for the same key with the same action and no modifiers, then
/// one character event for each character the key typed, in order.
pub proof fn lemma_keyboard_input_events(
    state: ElementState,
    physical_key: PhysicalKey,
    text: Vec<char>,
)
    ensures
        ({
            let p = pending_events_of(
                NativeWindowEvent::KeyboardInput { state, physical_key, text },
            );
            let k = key_of_physical_key(physical_key);
            let a = action_of(state);
            &&& p.len() == text@.len() + 2
            &&& p[0] == PendingEvent::KeyState(k, a)
            &&& p[1] == PendingEvent::Emit(
                CanvasEvent::Key(k, a, Modifiers::with_flags(false, false, false, false)),
            )
            &&& forall|i: int|
                0 <= i < text@.len() ==> p[i + 2] == PendingEvent::Emit(
                    CanvasEvent::Character(#[trigger] text@[i]),
                )
        }),
{
    lemma_char_events(text@);
}

/// A close request is handed on as is; a resize to a nonzero size resizes the
/// surface and then reports the new framebuffer size, and one to a zero
/// width or height does nothing; a change of modifiers only records them;
/// any other event does nothing.
pub proof fn lemma_other_window_events(width: u32, height: u32, m: ModifiersState)
    ensures
        pending_events_of(NativeWindowEvent::CloseRequested) == seq![
            PendingEvent::Emit(CanvasEvent::Close),
        ],
        width > 0 && height > 0 ==> pending_events_of(NativeWindowEvent::Resized { width, height })
            == seq![
            PendingEvent::Resize { width, height },
            PendingEvent::Emit(CanvasEvent::FramebufferSize(width, height)),
        ],
        width == 0 || height == 0 ==> pending_events_of(
            NativeWindowEvent::Resized { width, height },
        ).len() == 0,
        pending_events_of(NativeWindowEvent::ModifiersChanged(m)) == seq![
            PendingEvent::Modifiers(modifiers_of(m)),
        ],
        pending_events_of(NativeWindowEvent::Other).len() == 0,
{
}

} // verus!
