//! The controllers that can be plugged into the two ports, and the bytes each
//! of them reports.

pub mod id;
pub mod status;

use vstd::prelude::*;

verus! {

/// `weight` if `on`, else nothing.
pub open spec fn bit_if(on: bool, weight: int) -> int {
    if on {
        weight
    } else {
        0
    }
}

/// Buttons of a digital pad, `true` while held down.
#[derive(Debug, Clone, Copy, PartialEq, Eq, Structural)]
pub struct PadState {
    pub up: bool,
    pub down: bool,
    pub left: bool,
    pub right: bool,
    pub start: bool,
    pub a: bool,
    pub b: bool,
    pub c: bool,
    pub x: bool,
    pub y: bool,
    pub z: bool,
    pub l: bool,
    pub r: bool,
}

/// No button held down.
pub open spec fn pad_idle() -> PadState {
    PadState {
        up: false,
        down: false,
        left: false,
        right: false,
        start: false,
        a: false,
        b: false,
        c: false,
        x: false,
        y: false,
        z: false,
        l: false,
        r: false,
    }
}

impl Default for PadState {
    fn default() -> (r: Self)
        ensures
            r == pad_idle(),
    {
        PadState {
            up: false,
            down: false,
            left: false,
            right: false,
            start: false,
            a: false,
            b: false,
            c: false,
            x: false,
            y: false,
            z: false,
            l: false,
            r: false,
        }
    }
}

/// First report byte of a pad: one bit per button, clear while held down.
pub open spec fn pad_high(p: PadState) -> u8 {
    (0xFF - bit_if(p.right, 0x80) - bit_if(p.left, 0x40) - bit_if(p.down, 0x20) - bit_if(
        p.up,
        0x10,
    ) - bit_if(p.start, 0x08) - bit_if(p.a, 0x04) - bit_if(p.c, 0x02) - bit_if(
        p.b,
        0x01,
    )) as u8
}

/// Second report byte of a pad. Its low three bits are always set.
pub open spec fn pad_low(p: PadState) -> u8 {
    (0xFF - bit_if(p.r, 0x80) - bit_if(p.x, 0x40) - bit_if(p.y, 0x20) - bit_if(p.z, 0x10)
        - bit_if(p.l, 0x08)) as u8
}

impl PadState {
    fn high(&self) -> (r: u8)
        ensures
            r == pad_high(*self),
    {
        let mut v: u8 = 0xFF;
        if self.right {
            v -= 0x80;
        }
        if self.left {
            v -= 0x40;
        }
        if self.down {
            v -= 0x20;
        }
        if self.up {
            v -= 0x10;
        }
        if self.start {
            v -= 0x08;
        }
        if self.a {
            v -= 0x04;
        }
        if self.c {
            v -= 0x02;
        }
        if self.b {
            v -= 0x01;
        }
        v
    }

    fn low(&self) -> (r: u8)
        ensures
            r == pad_low(*self),
    {
        let mut v: u8 = 0xFF;
        if self.r {
            v -= 0x80;
        }
        if self.x {
            v -= 0x40;
        }
        if self.y {
            v -= 0x20;
        }
        if self.z {
            v -= 0x10;
        }
        if self.l {
            v -= 0x08;
        }
        v
    }
}

/// A racing wheel: buttons and the position of the wheel.
#[derive(Debug, Clone, Copy, PartialEq, Eq, Structural)]
pub struct WheelState {
    pub buttons: PadState,
    pub axis1: u8,
}

impl Default for WheelState {
    fn default() -> (r: Self)
        ensures
            r.buttons == pad_idle(),
            r.axis1 == 0x7F,
    {
        WheelState {
            buttons: PadState::default(),
            axis1: 0x7F,
        }
    }
}

/// A mission stick: buttons and three axes.
#[derive(Debug, Clone, Copy, PartialEq, Eq, Structural)]
pub struct MissionStickState {
    pub buttons: PadState,
    pub axis1: u8,
    pub axis2: u8,
    pub axis3: u8,
}

impl Default for MissionStickState {
    fn default() -> (r: Self)
        ensures
            r.buttons == pad_idle(),
            r.axis1 == 0x7F,
            r.axis2 == 0x7F,
            r.axis3 == 0x7F,
    {
        MissionStickState {
            buttons: PadState::default(),
            axis1: 0x7F,
            axis2: 0x7F,
            axis3: 0x7F,
        }
    }
}

/// A pad with an analogue stick and two triggers.
#[derive(Debug, Clone, Copy, PartialEq, Eq, Structural)]
pub struct Pad3DState {
    pub buttons: PadState,
    pub axis1: u8,
    pub axis2: u8,
    pub axis3: u8,
    pub axis4: u8,
}

impl Default for Pad3DState {
    fn default() -> (r: Self)
        ensures
            r.buttons == pad_idle(),
            r.axis1 == 0x7F,
            r.axis2 == 0x7F,
            r.axis3 == 0x7F,
            r.axis4 == 0x7F,
    {
        Pad3DState {
            buttons: PadState::default(),
            axis1: 0x7F,
            axis2: 0x7F,
            axis3: 0x7F,
            axis4: 0x7F,
        }
    }
}

/// Twin sticks: buttons and seven axes.
#[derive(Debug, Clone, Copy, PartialEq, Eq, Structural)]
pub struct TwinSticksState {
    pub buttons: PadState,
    pub axis1: u8,
    pub axis2: u8,
    pub axis3: u8,
    pub axis4: u8,
    pub axis5: u8,
    pub axis6: u8,
    pub axis7: u8,
}

impl Default for TwinSticksState {
    fn default() -> (r: Self)
        ensures
            r.buttons == pad_idle(),
            r.axis1 == 0x7F,
            r.axis2 == 0x7F,
            r.axis3 == 0x7F,
            r.axis4 == 0x7F,
            r.axis5 == 0x7F,
            r.axis6 == 0x7F,
            r.axis7 == 0x7F,
    {
        TwinSticksState {
            buttons: PadState::default(),
            axis1: 0x7F,
            axis2: 0x7F,
            axis3: 0x7F,
            axis4: 0x7F,
            axis5: 0x7F,
            axis6: 0x7F,
            axis7: 0x7F,
        }
    }
}

/// A keyboard: the keys that stand for pad buttons, and the last key event.
#[derive(Debug, Clone, Copy, PartialEq, Eq, Structural)]
pub struct KeyboardState {
    pub buttons: PadState,
    pub flags: u8,
    pub key: u8,
}

impl Default for KeyboardState {
    fn default() -> (r: Self)
        ensures
            r.buttons == pad_idle(),
            r.flags == 0x06,
            r.key == 0,
    {
        KeyboardState { buttons: PadState::default(), flags: 0x06, key: 0 }
    }
}

/// A mouse: buttons, and the movement since the last report. A displacement is
/// kept as it goes over the wire.
#[derive(Debug, Clone, Copy, PartialEq, Eq, Structural)]
pub struct MouseState {
    pub left: bool,
    pub right: bool,
    pub middle: bool,
    pub start: bool,
    pub x_sign: bool,
    pub y_sign: bool,
    pub x_overflow: bool,
    pub y_overflow: bool,
    pub x_displacement: u8,
    pub y_displacement: u8,
}

/// A mouse at rest.
pub open spec fn mouse_idle() -> MouseState {
    MouseState {
        left: false,
        right: false,
        middle: false,
        start: false,
        x_sign: false,
        y_sign: false,
        x_overflow: false,
        y_overflow: false,
        x_displacement: 0,
        y_displacement: 0,
    }
}

impl Default for MouseState {
    fn default() -> (r: Self)
        ensures
            r == mouse_idle(),
    {
        MouseState {
            left: false,
            right: false,
            middle: false,
            start: false,
            x_sign: false,
            y_sign: false,
            x_overflow: false,
            y_overflow: false,
            x_displacement: 0,
            y_displacement: 0,
        }
    }
}

/// First report byte of a mouse, bits set while held down.
pub open spec fn mouse_flags(m: MouseState) -> u8 {
    (bit_if(m.left, 0x01) + bit_if(m.right, 0x02) + bit_if(m.middle, 0x04) + bit_if(
        m.start,
        0x08,
    ) + bit_if(m.x_sign, 0x10) + bit_if(m.y_sign, 0x20) + bit_if(m.x_overflow, 0x40) + bit_if(
        m.y_overflow,
        0x80,
    )) as u8
}

impl MouseState {
    fn flags(&self) -> (r: u8)
        ensures
            r == mouse_flags(*self),
    {
        let mut v: u8 = 0;
        if self.left {
            v += 0x01;
        }
        if self.right {
            v += 0x02;
        }
        if self.middle {
            v += 0x04;
        }
        if self.start {
            v += 0x08;
        }
        if self.x_sign {
            v += 0x10;
        }
        if self.y_sign {
            v += 0x20;
        }
        if self.x_overflow {
            v += 0x40;
        }
        if self.y_overflow {
            v += 0x80;
        }
        v
    }
}

/// A light gun.
#[derive(Debug, Clone, Copy, PartialEq, Eq, Structural)]
pub struct GunState {
    pub trigger: bool,
    pub start: bool,
}

impl Default for GunState {
    fn default() -> (r: Self)
        ensures
            r == (GunState { trigger: false, start: false }),
    {
        GunState { trigger: false, start: false }
    }
}

/// The kinds of peripheral that can be plugged in.
#[derive(Debug, Clone, Copy, PartialEq, Eq, Structural)]
pub enum PeripheralKind {
    Pad,
    Wheel,
    MissionStick,
    Pad3D,
    TwinSticks,
    Gun,
    Keyboard,
    Mouse,
}

/// What is plugged into a port, with its live state.
#[derive(Debug, Clone, Copy, PartialEq, Eq, Structural)]
pub enum PeripheralState {
    Disconnected,
    Pad(PadState),
    Wheel(WheelState),
    MissionStick(MissionStickState),
    Pad3D(Pad3DState),
    TwinSticks(TwinSticksState),
    Gun(GunState),
    Keyboard(KeyboardState),
    Mouse(MouseState),
}

impl Default for PeripheralState {
    fn default() -> (r: Self)
        ensures
            r == PeripheralState::Disconnected,
    {
        PeripheralState::Disconnected
    }
}

/// How many data bytes a report can hold.
pub const PORT_DATA_CAPACITY: usize = 16;

/// A snapshot of one port: its status byte, the identifier, `size` data bytes,
/// and how many of them have been handed out.
#[derive(Debug, Clone, Copy, PartialEq, Eq)]
pub struct PortData {
    pub status: u8,
    pub id: u8,
    pub data: [u8; 16],
    pub size: usize,
    pub offset: usize,
}

/// The value of a port snapshot.
pub struct PortView {
    pub status: u8,
    pub id: u8,
    pub data: Seq<u8>,
    pub size: usize,
    pub offset: usize,
}

impl PortData {
    pub open spec fn view(&self) -> PortView {
        PortView {
            status: self.status,
            id: self.id,
            data: self.data@,
            size: self.size,
            offset: self.offset,
        }
    }

    pub open spec fn wf(&self) -> bool {
        self.size <= PORT_DATA_CAPACITY
    }
}

/// A snapshot without any byte in it.
pub open spec fn port_blank() -> PortView {
    port_report(0, 0, seq![])
}

/// The snapshot with the given data bytes, none of them handed out yet.
pub open spec fn port_report(status: u8, id: u8, bytes: Seq<u8>) -> PortView {
    PortView {
        status,
        id,
        data: Seq::new(16, |i: int| if i < bytes.len() { bytes[i] } else { 0u8 }),
        size: bytes.len() as usize,
        offset: 0,
    }
}

impl Default for PortData {
    fn default() -> (r: Self)
        ensures
            r@ == port_blank(),
            r.wf(),
    {
        let r = PortData { status: 0, id: 0, data: [0; 16], size: 0, offset: 0 };
        assert(r@.data =~= port_blank().data);
        r
    }
}

/// The first report byte of a wheel. The wheel stands for Left at 0x67 or below
/// and for Right at 0x97 or above.
pub open spec fn wheel_high(w: WheelState) -> u8 {
    pad_high(PadState { left: w.axis1 <= 0x67, right: w.axis1 >= 0x97, ..w.buttons })
}

/// The data bytes a peripheral reports.
pub open spec fn report_bytes(s: PeripheralState) -> Seq<u8> {
    match s {
        PeripheralState::Disconnected => seq![],
        PeripheralState::Pad(p) => seq![pad_high(p), pad_low(p)],
        PeripheralState::Wheel(w) => seq![wheel_high(w), pad_low(w.buttons), w.axis1],
        PeripheralState::MissionStick(k) => seq![
            pad_high(k.buttons),
            pad_low(k.buttons),
            k.axis1,
            k.axis2,
            k.axis3,
        ],
        PeripheralState::Pad3D(k) => seq![
            pad_high(k.buttons),
            pad_low(k.buttons),
            k.axis1,
            k.axis2,
            k.axis3,
            k.axis4,
        ],
        PeripheralState::TwinSticks(k) => seq![
            pad_high(k.buttons),
            pad_low(k.buttons),
            k.axis1,
            k.axis2,
            k.axis3,
            k.axis4,
            k.axis5,
            k.axis6,
            k.axis7,
        ],
        PeripheralState::Gun(_) => seq![],
        PeripheralState::Keyboard(k) => seq![
            pad_high(k.buttons),
            (pad_low(k.buttons) - 7) as u8,
            k.flags,
            k.key,
        ],
        PeripheralState::Mouse(m) => seq![
            mouse_flags(m),
            m.x_displacement,
            m.y_displacement,
        ],
    }
}

/// The identifier a peripheral reports; nothing and a gun have none.
pub open spec fn report_id(s: PeripheralState) -> u8 {
    match s {
        PeripheralState::Disconnected => 0,
        PeripheralState::Pad(_) => id::PAD,
        PeripheralState::Wheel(_) => id::WHEEL,
        PeripheralState::MissionStick(_) => id::MISSION_STICK,
        PeripheralState::Pad3D(_) => id::PAD_3D,
        PeripheralState::TwinSticks(_) => id::TWIN_STICKS,
        PeripheralState::Gun(_) => 0,
        PeripheralState::Keyboard(_) => id::KEYBOARD,
        PeripheralState::Mouse(_) => id::MOUSE,
    }
}

/// The status byte of a port with this peripheral in it.
pub open spec fn report_status(s: PeripheralState) -> u8 {
    match s {
        PeripheralState::Disconnected => status::NOT_CONNECTED,
        PeripheralState::Gun(_) => status::GUN_DIRECT,
        _ => status::DIRECT,
    }
}

/// What a port with this peripheral in it reports.
#[verifier::opaque]
pub open spec fn report(s: PeripheralState) -> PortView {
    port_report(report_status(s), report_id(s), report_bytes(s))
}

/// The peripheral after its movement has been reported: a mouse forgets its
/// displacement and keeps its buttons, everything else stays as it is.
pub open spec fn flushed(s: PeripheralState) -> PeripheralState {
    match s {
        PeripheralState::Mouse(m) => PeripheralState::Mouse(
            MouseState {
                left: m.left,
                right: m.right,
                middle: m.middle,
                start: m.start,
                ..mouse_idle()
            },
        ),
        other => other,
    }
}

impl PeripheralState {
    /// A snapshot of what this peripheral reports.
    #[verifier::rlimit(60)]
    pub fn to_port_data(&self) -> (r: PortData)
        ensures
            r@ == report(*self),
            r.wf(),
    {
        reveal(report);
        let mut d: [u8; 16] = [0; 16];
        let (status, id, size): (u8, u8, usize) = match *self {
            PeripheralState::Disconnected => (status::NOT_CONNECTED, 0, 0),
            PeripheralState::Pad(p) => {
                d[0] = p.high();
                d[1] = p.low();
                assert(d@ =~= report(*self).data);
                (status::DIRECT, id::PAD, 2)
            },
            PeripheralState::Wheel(w) => {
                let mut p = w.buttons;
                p.left = w.axis1 <= 0x67;
                p.right = w.axis1 >= 0x97;
                d[0] = p.high();
                d[1] = p.low();
                d[2] = w.axis1;
                assert(d@ =~= report(*self).data);
                (status::DIRECT, id::WHEEL, 3)
            },
            PeripheralState::MissionStick(k) => {
                d[0] = k.buttons.high();
                d[1] = k.buttons.low();
                d[2] = k.axis1;
                d[3] = k.axis2;
                d[4] = k.axis3;
                assert(d@ =~= report(*self).data);
                (status::DIRECT, id::MISSION_STICK, 5)
            },
            PeripheralState::Pad3D(k) => {
                d[0] = k.buttons.high();
                d[1] = k.buttons.low();
                d[2] = k.axis1;
                d[3] = k.axis2;
                d[4] = k.axis3;
                d[5] = k.axis4;
                assert(d@ =~= report(*self).data);
                (status::DIRECT, id::PAD_3D, 6)
            },
            PeripheralState::TwinSticks(k) => {
                d[0] = k.buttons.high();
                d[1] = k.buttons.low();
                d[2] = k.axis1;
                d[3] = k.axis2;
                d[4] = k.axis3;
                d[5] = k.axis4;
                d[6] = k.axis5;
                d[7] = k.axis6;
                d[8] = k.axis7;
                assert(d@ =~= report(*self).data);
                (status::DIRECT, id::TWIN_STICKS, 9)
            },
            PeripheralState::Gun(_) => (status::GUN_DIRECT, 0, 0),
            PeripheralState::Keyboard(k) => {
                d[0] = k.buttons.high();
                d[1] = k.buttons.low() - 7;
                d[2] = k.flags;
                d[3] = k.key;
                assert(d@ =~= report(*self).data);
                (status::DIRECT, id::KEYBOARD, 4)
            },
            PeripheralState::Mouse(m) => {
                d[0] = m.flags();
                d[1] = m.x_displacement;
                d[2] = m.y_displacement;
                assert(d@ =~= report(*self).data);
                (status::DIRECT, id::MOUSE, 3)
            },
        };
        let r = PortData { status, id, data: d, size, offset: 0 };
        assert(r@.data =~= report(*self).data);
        r
    }

    /// Forget the movement that has just been reported.
    pub fn flush_mouse_deltas(&mut self)
        ensures
            *final(self) == flushed(*old(self)),
    {
        let next: PeripheralState = match *self {
            PeripheralState::Mouse(m) => PeripheralState::Mouse(
                MouseState {
                    left: m.left,
                    right: m.right,
                    middle: m.middle,
                    start: m.start,
                    x_sign: false,
                    y_sign: false,
                    x_overflow: false,
                    y_overflow: false,
                    x_displacement: 0,
                    y_displacement: 0,
                },
            ),
            other => other,
        };
        *self = next;
    }
}

/// A second flush changes nothing, and a flush touches nothing but the movement
/// of a mouse: its buttons, and everything that is no mouse, report as before.
pub proof fn flush_keeps_buttons(s: PeripheralState)
    ensures
        flushed(flushed(s)) == flushed(s),
        !(s is Mouse) ==> report(flushed(s)) == report(s),
        s is Mouse ==> report_bytes(flushed(s)) =~= seq![
            (report_bytes(s)[0] % 16) as u8,
            0u8,
            0u8,
        ],
{
    reveal(report);
}

/// The number of data bytes is the low nibble of the identifier.
pub proof fn report_size_is_in_the_identifier(s: PeripheralState)
    ensures
        report(s).size == report_id(s) % 16,
        report(s).size <= PORT_DATA_CAPACITY,
{
    reveal(report);
}

} // verus!
