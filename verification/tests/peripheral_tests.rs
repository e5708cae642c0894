//! The reports of every peripheral.

use saturn_core::peripheral::{
    id, status, GunState, KeyboardState, MissionStickState, MouseState, Pad3DState, PadState,
    PeripheralState, PortData, TwinSticksState, WheelState,
};
use saturn_core::shared_buffers::WorkRam;
use saturn_core::smpc::{reg, Smpc};

#[test]
fn per_type_initial_reports() {
    let pad = PeripheralState::Pad(PadState::default());
    let pd = pad.to_port_data();
    assert_eq!(pd.status, status::DIRECT);
    assert_eq!(pd.id, id::PAD);
    assert_eq!(pd.size, 2);
    assert_eq!(&pd.data[..2], &[0xFF, 0xFF]);

    let wheel = PeripheralState::Wheel(WheelState::default());
    let pd = wheel.to_port_data();
    assert_eq!(pd.id, id::WHEEL);
    assert_eq!(pd.size, 3);
    assert_eq!(&pd.data[..3], &[0xFF, 0xFF, 0x7F], "FF FF 7F");

    let mstick = PeripheralState::MissionStick(MissionStickState::default());
    let pd = mstick.to_port_data();
    assert_eq!(pd.id, id::MISSION_STICK);
    assert_eq!(pd.size, 5);
    assert_eq!(
        &pd.data[..5],
        &[0xFF, 0xFF, 0x7F, 0x7F, 0x7F],
        "every axis starts at 0x7F"
    );

    let pad3d = PeripheralState::Pad3D(Pad3DState::default());
    let pd = pad3d.to_port_data();
    assert_eq!(pd.id, id::PAD_3D);
    assert_eq!(pd.size, 6);
    assert_eq!(&pd.data[..6], &[0xFF, 0xFF, 0x7F, 0x7F, 0x7F, 0x7F]);

    let tsticks = PeripheralState::TwinSticks(TwinSticksState::default());
    let pd = tsticks.to_port_data();
    assert_eq!(pd.id, id::TWIN_STICKS);
    assert_eq!(pd.size, 9);
    assert_eq!(
        &pd.data[..9],
        &[0xFF, 0xFF, 0x7F, 0x7F, 0x7F, 0x7F, 0x7F, 0x7F, 0x7F],
        "every axis starts at 0x7F"
    );

    let kb = PeripheralState::Keyboard(KeyboardState::default());
    let pd = kb.to_port_data();
    assert_eq!(pd.id, id::KEYBOARD);
    assert_eq!(pd.size, 4);
    assert_eq!(
        &pd.data[..4],
        &[0xFF, 0xF8, 0x06, 0x00],
        "nothing pressed"
    );

    let mouse = PeripheralState::Mouse(MouseState::default());
    let pd = mouse.to_port_data();
    assert_eq!(pd.id, id::MOUSE);
    assert_eq!(pd.size, 3);
    assert_eq!(&pd.data[..3], &[0x00, 0x00, 0x00], "no movement");

    let gun = PeripheralState::Gun(GunState::default());
    let pd = gun.to_port_data();
    assert_eq!(
        pd.status,
        status::GUN_DIRECT,
        "a gun connects with status 0xA0, never 0xF1"
    );
    assert_eq!(
        pd.size, 0,
        "a gun contributes its status byte alone"
    );
}

fn chunk(p1: &mut PortData, p2: &mut PortData, ram: &mut [u8; 128]) {
    let mut i = 0;
    ram[i] = p1.status;
    i += 1;
    if p1.status != status::NOT_CONNECTED && p1.status != status::GUN_DIRECT {
        ram[i] = p1.id;
        i += 1;
    }
    while p1.offset < p1.size {
        ram[i] = p1.data[p1.offset];
        i += 1;
        p1.offset += 1;
    }
    ram[i] = p2.status;
    i += 1;
    if p2.status != status::NOT_CONNECTED && p2.status != status::GUN_DIRECT {
        ram[i] = p2.id;
        i += 1;
    }
    while p2.offset < p2.size {
        ram[i] = p2.data[p2.offset];
        i += 1;
        p2.offset += 1;
    }
}

#[test]
fn gun_contributes_only_its_status_byte_to_the_intback_stream() {
    let mut p1 = PeripheralState::Gun(GunState::default()).to_port_data();
    let mut p2 = PeripheralState::Pad(PadState::default()).to_port_data();
    let mut ram = [0u8; 128];

    chunk(&mut p1, &mut p2, &mut ram);

    assert_eq!(ram[0], status::GUN_DIRECT, "byte 0: the gun's status alone");
    assert_eq!(
        ram[1],
        status::DIRECT,
        "byte 1: port 2's status immediately follows"
    );
    assert_eq!(ram[2], id::PAD);
    assert_eq!(&ram[3..5], &[0xFF, 0xFF]);
}

#[test]
fn ddr_id_nibble_covers_every_connected_type() {

    let cases: &[(&str, PeripheralState, Option<u8>)] = &[
        ("disconnected", PeripheralState::Disconnected, Some(0x7F)),
        ("gun", PeripheralState::Gun(GunState::default()), Some(0x7C)),
        ("pad", PeripheralState::Pad(PadState::default()), Some(0x7C)),
        (
            "pad3d",
            PeripheralState::Pad3D(Pad3DState::default()),
            Some(0x71),
        ),
        (
            "keyboard",
            PeripheralState::Keyboard(KeyboardState::default()),
            Some(0x71),
        ),
        (
            "mouse",
            PeripheralState::Mouse(MouseState::default()),
            Some(0x70),
        ),
        ("wheel", PeripheralState::Wheel(WheelState::default()), None),
        (
            "mission_stick",
            PeripheralState::MissionStick(MissionStickState::default()),
            None,
        ),
        (
            "twin_sticks",
            PeripheralState::TwinSticks(TwinSticksState::default()),
            None,
        ),
    ];

    for (name, state, expected) in cases {
        let mut smpc = Smpc::new();
        smpc.set_peripheral_state(1, *state);
        let mut work_ram = WorkRam::new();
        work_ram.smpc_regs[reg::PDR1] = 0xAA;
        let old = work_ram.smpc_regs[reg::DDR1];
        smpc.on_register_write(reg::DDR1, 0x00, old, &mut work_ram);
        let pdr1 = work_ram.smpc_regs[reg::PDR1];
        match expected {
            Some(nibble) => assert_eq!(pdr1, *nibble, "{name}: DDR1 must select {nibble:#04x}"),
            None => assert_eq!(
                pdr1, 0xAA,
                "{name}: unsupported type must leave PDR1 untouched"
            ),
        }
    }
}

#[test]
fn wheel_hysteresis_press_thresholds_match_the_reference_table() {
    let mut w = WheelState::default();

    w.axis1 = 0x67; // at the press threshold
    let b0 = PeripheralState::Wheel(w).to_port_data().data[0];
    assert_eq!(b0 & (1 << 6), 0, "Left (bit 6) must read pressed at 0x67");

    w.axis1 = 0x7F; // neutral
    let b0 = PeripheralState::Wheel(w).to_port_data().data[0];
    assert_eq!(b0 & 0xC0, 0xC0, "neither Left nor Right at neutral");

    w.axis1 = 0x97; // at the press threshold
    let b0 = PeripheralState::Wheel(w).to_port_data().data[0];
    assert_eq!(b0 & (1 << 7), 0, "Right (bit 7) must read pressed at 0x97");
}

#[test]
fn mouse_buttons_are_active_high() {
    let mut m = MouseState::default();
    m.left = true;
    let pd = PeripheralState::Mouse(m).to_port_data();
    assert_eq!(pd.data[0] & 1, 1, "Left is bit 0, active-high");
}

#[test]
fn mouse_negative_displacement_is_ones_complement() {
    let mut m = MouseState::default();
    m.x_sign = true;
    m.x_displacement = !1u8; // magnitude 1, one's-complement-encoded: 0xFE
    let pd = PeripheralState::Mouse(m).to_port_data();
    assert_eq!(pd.data[1], 0xFE);
    assert_eq!(
        pd.data[0] & (1 << 4),
        1 << 4,
        "the x-sign bit must also be set"
    );
}

#[test]
fn mouse_flush_clears_deltas_but_keeps_buttons() {
    let mut m = MouseState::default();
    m.left = true;
    m.start = true;
    m.x_sign = true;
    m.x_overflow = true;
    m.x_displacement = 0x42;
    m.y_displacement = 0x99;
    let mut state = PeripheralState::Mouse(m);
    state.flush_mouse_deltas();

    let PeripheralState::Mouse(after) = state else {
        panic!("flush must not change the variant");
    };
    assert!(after.left && after.start, "buttons must survive a flush");
    assert!(!after.x_sign && !after.x_overflow);
    assert_eq!((after.x_displacement, after.y_displacement), (0, 0));
}
