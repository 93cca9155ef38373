use vstd::prelude::*;

verus! {

/// A button of the console, named as on its key register.
#[derive(Clone, Copy, Debug, PartialEq, Eq, Structural)]
pub enum GbaButton {
    A,
    B,
    Select,
    Start,
    Right,
    Left,
    Up,
    Down,
    R,
    L,
}

/// The engine-level gamepad buttons that the console's buttons are reported as.
#[derive(Clone, Copy, Debug, PartialEq, Eq, Structural)]
pub enum GamepadButton {
    East,
    South,
    Select,
    Start,
    DPadRight,
    DPadLeft,
    DPadUp,
    DPadDown,
    RightTrigger,
    LeftTrigger,
}

/// The bit that a button occupies in the (active-high) key register.
pub open spec fn bit_of(b: GbaButton) -> u16 {
    match b {
        GbaButton::A => 0x001,
        GbaButton::B => 0x002,
        GbaButton::Select => 0x004,
        GbaButton::Start => 0x008,
        GbaButton::Right => 0x010,
        GbaButton::Left => 0x020,
        GbaButton::Up => 0x040,
        GbaButton::Down => 0x080,
        GbaButton::R => 0x100,
        GbaButton::L => 0x200,
    }
}

/// The engine button that a console button is reported as.
pub open spec fn gamepad_button_of(b: GbaButton) -> GamepadButton {
    match b {
        GbaButton::A => GamepadButton::East,
        GbaButton::B => GamepadButton::South,
        GbaButton::Select => GamepadButton::Select,
        GbaButton::Start => GamepadButton::Start,
        GbaButton::Right => GamepadButton::DPadRight,
        GbaButton::Left => GamepadButton::DPadLeft,
        GbaButton::Up => GamepadButton::DPadUp,
        GbaButton::Down => GamepadButton::DPadDown,
        GbaButton::R => GamepadButton::RightTrigger,
        GbaButton::L => GamepadButton::LeftTrigger,
    }
}

/// The order in which the buttons are examined each frame; events come out in this order.
pub open spec fn button_order() -> Seq<GbaButton> {
    seq![
        GbaButton::A,
        GbaButton::B,
        GbaButton::Select,
        GbaButton::Start,
        GbaButton::Right,
        GbaButton::Left,
        GbaButton::Up,
        GbaButton::Down,
        GbaButton::R,
        GbaButton::L,
    ]
}

/// Whether button `b` is held in the register value `bits`.
pub open spec fn pressed_in(bits: u16, b: GbaButton) -> bool {
    bits & bit_of(b) != 0
}

impl GbaButton {
    /// The button's bit in the key register.
    pub fn bit(self) -> (r: u16)
        ensures
            r == bit_of(self),
    {
        match self {
            GbaButton::A => 0x001,
            GbaButton::B => 0x002,
            GbaButton::Select => 0x004,
            GbaButton::Start => 0x008,
            GbaButton::Right => 0x010,
            GbaButton::Left => 0x020,
            GbaButton::Up => 0x040,
            GbaButton::Down => 0x080,
            GbaButton::R => 0x100,
            GbaButton::L => 0x200,
        }
    }

    /// The engine button this console button is reported as.
    pub fn to_gamepad_button(self) -> (r: GamepadButton)
        ensures
            r == gamepad_button_of(self),
    {
        match self {
            GbaButton::A => GamepadButton::East,
            GbaButton::B => GamepadButton::South,
            GbaButton::Select => GamepadButton::Select,
            GbaButton::Start => GamepadButton::Start,
            GbaButton::Right => GamepadButton::DPadRight,
            GbaButton::Left => GamepadButton::DPadLeft,
            GbaButton::Up => GamepadButton::DPadUp,
            GbaButton::Down => GamepadButton::DPadDown,
            GbaButton::R => GamepadButton::RightTrigger,
            GbaButton::L => GamepadButton::LeftTrigger,
        }
    }
}

/// The mapping table, as pairs of console button and engine button, in examination order.
pub fn button_mapping() -> (r: Vec<(GbaButton, GamepadButton)>)
    ensures
        r@.len() == button_order().len(),
        forall|i: int|
            0 <= i < r@.len() ==> #[trigger] r@[i] == (
            button_order()[i],
            gamepad_button_of(button_order()[i]),
            ),
{
    let r = vec![
        (GbaButton::A, GamepadButton::East),
        (GbaButton::B, GamepadButton::South),
        (GbaButton::Select, GamepadButton::Select),
        (GbaButton::Start, GamepadButton::Start),
        (GbaButton::Right, GamepadButton::DPadRight),
        (GbaButton::Left, GamepadButton::DPadLeft),
        (GbaButton::Up, GamepadButton::DPadUp),
        (GbaButton::Down, GamepadButton::DPadDown),
        (GbaButton::R, GamepadButton::RightTrigger),
        (GbaButton::L, GamepadButton::LeftTrigger),
    ];
    r
}

/// Every console button has exactly one entry in the mapping table, and no engine
/// button is the target of two entries.
pub proof fn lemma_mapping_total()
    ensures
        button_order().no_duplicates(),
        forall|b: GbaButton| #[trigger] button_order().contains(b),
        forall|b1: GbaButton, b2: GbaButton|
            #[trigger] gamepad_button_of(b1) == #[trigger] gamepad_button_of(b2) ==> b1 == b2,
{
    let o = button_order();
    assert forall|b: GbaButton| #[trigger] o.contains(b) by {
        match b {
            GbaButton::A => assert(o[0] == b),
            GbaButton::B => assert(o[1] == b),
            GbaButton::Select => assert(o[2] == b),
            GbaButton::Start => assert(o[3] == b),
            GbaButton::Right => assert(o[4] == b),
            GbaButton::Left => assert(o[5] == b),
            GbaButton::Up => assert(o[6] == b),
            GbaButton::Down => assert(o[7] == b),
            GbaButton::R => assert(o[8] == b),
            GbaButton::L => assert(o[9] == b),
        }
    }
}

/// A change of one engine button: `pressed` is true for a press (value 1.0) and false
/// for a release (value 0.0).
#[derive(Clone, Copy, Debug, PartialEq, Eq, Structural)]
pub struct ButtonChange {
    pub button: GamepadButton,
    pub pressed: bool,
}

/// What button `b` did between the register values `prev` and `curr`, if anything.
pub open spec fn change_of(prev: u16, curr: u16, b: GbaButton) -> Option<ButtonChange> {
    if pressed_in(curr, b) && !pressed_in(prev, b) {
        Some(ButtonChange { button: gamepad_button_of(b), pressed: true })
    } else if !pressed_in(curr, b) && pressed_in(prev, b) {
        Some(ButtonChange { button: gamepad_button_of(b), pressed: false })
    } else {
        None
    }
}

/// The changes of the buttons of `order`, in that order.
pub open spec fn changes_over(prev: u16, curr: u16, order: Seq<GbaButton>) -> Seq<ButtonChange>
    decreases order.len(),
{
    if order.len() == 0 {
        seq![]
    } else {
        let rest = changes_over(prev, curr, order.drop_last());
        match change_of(prev, curr, order.last()) {
            Some(c) => rest.push(c),
            None => rest,
        }
    }
}

/// The changes reported for one frame, from the previous and the current register values.
pub open spec fn frame_changes(prev: u16, curr: u16) -> Seq<ButtonChange> {
    changes_over(prev, curr, button_order())
}

/// The current and previous samples of the key register (active-high: a set bit is a
/// held button).
pub struct ButtonController {
    pub previous: u16,
    pub current: u16,
}

impl ButtonController {
    /// The controller that `new(pressed)` returns.
    pub open spec fn new_spec(pressed: u16) -> ButtonController {
        ButtonController { previous: pressed, current: pressed }
    }

    /// A controller whose first sample is `pressed`, with nothing just pressed or released.
    #[must_use]
    pub fn new(pressed: u16) -> (r: Self)
        ensures
            r.previous == pressed,
            r.current == pressed,
    {
        ButtonController { previous: pressed, current: pressed }
    }

    /// Takes a new sample: the current one becomes the previous one.
    pub fn update(&mut self, pressed: u16)
        ensures
            final(self).previous == old(self).current,
            final(self).current == pressed,
    {
        self.previous = self.current;
        self.current = pressed;
    }

    /// Whether `b` is held in the current sample.
    pub fn is_pressed(&self, b: GbaButton) -> (r: bool)
        ensures
            r == pressed_in(self.current, b),
    {
        self.current & b.bit() != 0
    }

    /// Whether `b` went from released to held between the two samples.
    pub fn is_just_pressed(&self, b: GbaButton) -> (r: bool)
        ensures
            r == (pressed_in(self.current, b) && !pressed_in(self.previous, b)),
    {
        (self.current & b.bit() != 0) && (self.previous & b.bit() == 0)
    }

    /// Whether `b` went from held to released between the two samples.
    pub fn is_just_released(&self, b: GbaButton) -> (r: bool)
        ensures
            r == (!pressed_in(self.current, b) && pressed_in(self.previous, b)),
    {
        (self.current & b.bit() == 0) && (self.previous & b.bit() != 0)
    }

    /// The button changes between the two samples, in the order of the mapping table.
    pub fn changes(&self) -> (r: Vec<ButtonChange>)
        ensures
            r@ == frame_changes(self.previous, self.current),
    {
        let table = button_mapping();
        let mut out: Vec<ButtonChange> = Vec::new();
        let mut i: usize = 0;
        while i < table.len()
            invariant
                table@.len() == button_order().len(),
                forall|k: int|
                    0 <= k < table@.len() ==> #[trigger] table@[k] == (
                    button_order()[k],
                    gamepad_button_of(button_order()[k]),
                    ),
                0 <= i <= table@.len(),
                out@ == changes_over(self.previous, self.current, button_order().take(i as int)),
            decreases table@.len() - i,
        {
            let (source, target) = table[i];
            assert(button_order().take(i + 1).drop_last() =~= button_order().take(i as int));
            if self.is_just_pressed(source) {
                out.push(ButtonChange { button: target, pressed: true });
            } else if self.is_just_released(source) {
                out.push(ButtonChange { button: target, pressed: false });
            }
            i += 1;
        }
        assert(button_order().take(i as int) =~= button_order());
        out
    }
}

proof fn lemma_changes_over(prev: u16, curr: u16, order: Seq<GbaButton>)
    requires
        order.no_duplicates(),
    ensures
        forall|i: int|
            0 <= i < changes_over(prev, curr, order).len() ==> exists|b: GbaButton|
                order.contains(b) && change_of(prev, curr, b) == Some(
                    #[trigger] changes_over(prev, curr, order)[i],
                ),
        forall|b: GbaButton|
            order.contains(b) && #[trigger] change_of(prev, curr, b) is Some ==> changes_over(
                prev,
                curr,
                order,
            ).contains(change_of(prev, curr, b)->0),
        forall|i: int, j: int|
            0 <= i < j < changes_over(prev, curr, order).len() ==> (#[trigger] changes_over(
                prev,
                curr,
                order,
            )[i]).button != (#[trigger] changes_over(prev, curr, order)[j]).button,
    decreases order.len(),
{
    if order.len() > 0 {
        let front = order.drop_last();
        let last = order.last();
        assert(front.no_duplicates());
        lemma_changes_over(prev, curr, front);
        lemma_mapping_total();
        let rest = changes_over(prev, curr, front);
        let ch = changes_over(prev, curr, order);
        assert forall|b: GbaButton| #[trigger] front.contains(b) implies order.contains(b)
            && b != last by {
            let k = choose|k: int| 0 <= k < front.len() && front[k] == b;
            assert(order[k] == b);
            assert(order[order.len() - 1] == last);
        }
        assert(order.contains(last)) by {
            assert(order[order.len() - 1] == last);
        }
        assert forall|b: GbaButton|
            order.contains(b) && #[trigger] change_of(prev, curr, b) is Some implies ch.contains(
                change_of(prev, curr, b)->0,
            ) by {
            let k = choose|k: int| 0 <= k < order.len() && order[k] == b;
            if k < order.len() - 1 {
                assert(front[k] == b);
                let c = change_of(prev, curr, b)->0;
                let m = choose|m: int| 0 <= m < rest.len() && rest[m] == c;
                assert(ch[m] == c);
            } else {
                assert(ch[ch.len() - 1] == change_of(prev, curr, b)->0);
            }
        }
        assert forall|i: int| 0 <= i < ch.len() implies exists|b: GbaButton|
            order.contains(b) && change_of(prev, curr, b) == Some(#[trigger] ch[i]) by {
            if i < rest.len() {
                assert(ch[i] == rest[i]);
                let b = choose|b: GbaButton|
                    front.contains(b) && change_of(prev, curr, b) == Some(rest[i]);
                assert(order.contains(b));
            } else {
                assert(change_of(prev, curr, last) == Some(ch[i]));
            }
        }
        assert forall|i: int, j: int| 0 <= i < j < ch.len() implies (#[trigger] ch[i]).button
            != (#[trigger] ch[j]).button by {
            if j < rest.len() {
                assert(ch[i] == rest[i] && ch[j] == rest[j]);
            } else {
                assert(ch[i] == rest[i]);
                let b = choose|b: GbaButton|
                    front.contains(b) && change_of(prev, curr, b) == Some(rest[i]);
                assert(b != last);
                assert(ch[j].button == gamepad_button_of(last));
            }
        }
    }
}

/// Over one sampling step, a button's reported changes are exactly its edges: a press
/// (1.0) when it goes from released to held, a release (0.0) when it goes from held to
/// released, and nothing while it stays as it was; no button is reported twice.
pub proof fn lemma_edge_semantics(prev: u16, curr: u16, b: GbaButton)
    ensures
        frame_changes(prev, curr).contains(
            ButtonChange { button: gamepad_button_of(b), pressed: true },
        ) <==> (pressed_in(curr, b) && !pressed_in(prev, b)),
        frame_changes(prev, curr).contains(
            ButtonChange { button: gamepad_button_of(b), pressed: false },
        ) <==> (!pressed_in(curr, b) && pressed_in(prev, b)),
        forall|i: int, j: int|
            0 <= i < j < frame_changes(prev, curr).len() ==> (#[trigger] frame_changes(
                prev,
                curr,
            )[i]).button != (#[trigger] frame_changes(prev, curr)[j]).button,
{
    lemma_mapping_total();
    lemma_changes_over(prev, curr, button_order());
    let ch = frame_changes(prev, curr);
    let on = ButtonChange { button: gamepad_button_of(b), pressed: true };
    let off = ButtonChange { button: gamepad_button_of(b), pressed: false };
    assert(button_order().contains(b));
    if ch.contains(on) {
        let i = choose|i: int| 0 <= i < ch.len() && ch[i] == on;
        let b2 = choose|b2: GbaButton|
            button_order().contains(b2) && change_of(prev, curr, b2) == Some(ch[i]);
        assert(b2 == b);
    }
    if ch.contains(off) {
        let i = choose|i: int| 0 <= i < ch.len() && ch[i] == off;
        let b2 = choose|b2: GbaButton|
            button_order().contains(b2) && change_of(prev, curr, b2) == Some(ch[i]);
        assert(b2 == b);
    }
}

/// Samples the buttons each frame and reports them as gamepad events.
#[derive(Clone, Copy, Debug, Default)]
pub struct AgbInputPlugin;

/// Marks the one entity that stands for the console's gamepad.
#[derive(Clone, Copy, Debug, Default, PartialEq, Eq, Structural)]
pub struct GameBoyGamepad;

/// The human-readable name under which the gamepad connects.
pub open spec fn gamepad_name() -> Seq<char> {
    "GameBoy Advance Gamepad"@
}

/// The description of a connected gamepad: its name and its (absent) vendor and product ids.
#[derive(Debug, PartialEq, Eq)]
pub struct ConnectionInfo {
    pub name: String,
    pub vendor_id: Option<u16>,
    pub product_id: Option<u16>,
}

/// An entry of the raw gamepad event stream.
#[derive(Debug, PartialEq, Eq)]
pub enum RawGamepadEvent {
    Connected(ConnectionInfo),
    ButtonChanged(ButtonChange),
}

pub open spec fn is_connection(e: RawGamepadEvent) -> bool {
    e is Connected
}

/// The events of one step, per sink: the raw stream, the connection stream and the typed
/// button-change stream.
pub struct GamepadEvents {
    pub raw: Vec<RawGamepadEvent>,
    pub connections: Vec<ConnectionInfo>,
    pub buttons: Vec<ButtonChange>,
}

/// Each button change stands once in the raw stream and once in the typed stream, at
/// the same place and with the same payload, and the raw stream holds nothing else.
pub open spec fn dual_dispatched(raw: Seq<RawGamepadEvent>, buttons: Seq<ButtonChange>) -> bool {
    &&& raw.len() == buttons.len()
    &&& forall|i: int| 0 <= i < raw.len() ==> #[trigger] raw[i] == RawGamepadEvent::ButtonChanged(
        buttons[i],
    )
}

/// The input sampler: the button samples, whether the gamepad has connected, and (as a
/// ghost) every raw event emitted so far.
pub struct GamepadInput {
    pub controller: ButtonController,
    pub connected: bool,
    pub emitted: Ghost<Seq<RawGamepadEvent>>,
}

impl GamepadInput {
    /// Exactly one connection event has been emitted once the gamepad is connected, none
    /// before, and it precedes every other event.
    pub open spec fn wf(&self) -> bool {
        &&& self.connected <==> self.emitted@.len() > 0
        &&& self.connected ==> is_connection(self.emitted@[0])
        &&& forall|i: int|
            0 < i < self.emitted@.len() ==> !is_connection(#[trigger] self.emitted@[i])
    }

    /// A sampler that has not connected yet, whose first sample is `pressed`.
    pub fn new(pressed: u16) -> (r: Self)
        ensures
            r.wf(),
            !r.connected,
            r.controller == ButtonController::new_spec(pressed),
    {
        GamepadInput {
            controller: ButtonController::new(pressed),
            connected: false,
            emitted: Ghost(Seq::empty()),
        }
    }
}

/// The connection description of the console's gamepad.
pub fn gamepad_connection() -> (r: ConnectionInfo)
    ensures
        r.name@ == gamepad_name(),
        r.vendor_id is None,
        r.product_id is None,
{
    proof {
        reveal_strlit("GameBoy Advance Gamepad");
    }
    ConnectionInfo { name: "GameBoy Advance Gamepad".to_owned(), vendor_id: None, product_id: None }
}

/// The startup step: connects the gamepad, sending one connection event to both the raw
/// stream and the connection stream. A second call emits nothing.
pub fn connect_gamepad(input: &mut GamepadInput) -> (r: GamepadEvents)
    requires
        old(input).wf(),
    ensures
        final(input).wf(),
        final(input).connected,
        final(input).controller == old(input).controller,
        final(input).emitted@ == old(input).emitted@ + r.raw@,
        r.buttons@.len() == 0,
        !old(input).connected ==> {
            &&& r.connections@.len() == 1
            &&& r.connections@[0].name@ == gamepad_name()
            &&& r.connections@[0].vendor_id is None
            &&& r.connections@[0].product_id is None
            &&& r.raw@.len() == 1
            &&& r.raw@[0] == RawGamepadEvent::Connected(r.connections@[0])
        },
        old(input).connected ==> r.raw@.len() == 0 && r.connections@.len() == 0,
{
    let mut raw: Vec<RawGamepadEvent> = Vec::new();
    let mut connections: Vec<ConnectionInfo> = Vec::new();
    if !input.connected {
        let info = gamepad_connection();
        let copy = ConnectionInfo {
            name: info.name.clone(),
            vendor_id: info.vendor_id,
            product_id: info.product_id,
        };
        raw.push(RawGamepadEvent::Connected(copy));
        connections.push(info);
        input.connected = true;
    }
    input.emitted = Ghost(input.emitted@ + raw@);
    GamepadEvents { raw, connections, buttons: Vec::new() }
}

/// The per-frame step: takes the sample `pressed` and reports each button edge, in the
/// order of the mapping table, to both the raw stream and the typed stream.
pub fn update_gamepad(input: &mut GamepadInput, pressed: u16) -> (r: GamepadEvents)
    requires
        old(input).wf(),
        old(input).connected,
    ensures
        final(input).wf(),
        final(input).connected,
        final(input).controller.previous == old(input).controller.current,
        final(input).controller.current == pressed,
        r.buttons@ == frame_changes(old(input).controller.current, pressed),
        dual_dispatched(r.raw@, r.buttons@),
        r.connections@.len() == 0,
        final(input).emitted@ == old(input).emitted@ + r.raw@,
{
    input.controller.update(pressed);
    let buttons = input.controller.changes();
    let mut raw: Vec<RawGamepadEvent> = Vec::new();
    let mut i: usize = 0;
    while i < buttons.len()
        invariant
            0 <= i <= buttons@.len(),
            dual_dispatched(raw@, buttons@.take(i as int)),
        decreases buttons@.len() - i,
    {
        raw.push(RawGamepadEvent::ButtonChanged(buttons[i]));
        i += 1;
    }
    assert(buttons@.take(i as int) =~= buttons@);
    proof {
        let old_log = input.emitted@;
        let new_log = old_log + raw@;
        assert forall|k: int| 0 < k < new_log.len() implies !is_connection(
            #[trigger] new_log[k],
        ) by {
            if k >= old_log.len() {
                assert(new_log[k] == raw@[k - old_log.len()]);
            } else {
                assert(new_log[k] == old_log[k]);
            }
        }
        assert(new_log[0] == old_log[0]);
    }
    input.emitted = Ghost(input.emitted@ + raw@);
    GamepadEvents { raw, connections: Vec::new(), buttons }
}

/// Exactly one connection event is ever emitted, and it comes before every button change.
pub proof fn lemma_connection_first(input: &GamepadInput, i: int)
    requires
        input.wf(),
        0 <= i < input.emitted@.len(),
    ensures
        is_connection(input.emitted@[i]) <==> i == 0,
        input.emitted@[i] is ButtonChanged ==> is_connection(input.emitted@[0]) && 0 < i,
{
}

} // verus!
