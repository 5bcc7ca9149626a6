//! LANC bridge protocol: the five-byte ASCII command codes and the
//! selection of the pair sent for each command tick. The serial port and
//! the 200 ms dispatch loop live outside the crate; this module decides
//! which codes a command turns into.

use vstd::prelude::*;

use crate::device::Command;

verus! {

/// The zoom code for a nonzero zoom axis value in thousandths: eight tele
/// rates stepped every tenth of deflection from 0x2800 up to 0x280E, and
/// the mirrored wide rates from 0x2810 up to 0x281E, each as five ASCII
/// bytes ending in a newline.
pub open spec fn spec_zoom_code(z: int) -> Seq<u8> {
    if z >= 800 {
        seq![0x32u8, 0x38, 0x30, 0x45, 0x0a]  // "280E"
    } else if z >= 700 {
        seq![0x32u8, 0x38, 0x30, 0x43, 0x0a]  // "280C"
    } else if z >= 600 {
        seq![0x32u8, 0x38, 0x30, 0x41, 0x0a]  // "280A"
    } else if z >= 500 {
        seq![0x32u8, 0x38, 0x30, 0x38, 0x0a]  // "2808"
    } else if z >= 400 {
        seq![0x32u8, 0x38, 0x30, 0x36, 0x0a]  // "2806"
    } else if z >= 300 {
        seq![0x32u8, 0x38, 0x30, 0x34, 0x0a]  // "2804"
    } else if z >= 200 {
        seq![0x32u8, 0x38, 0x30, 0x32, 0x0a]  // "2802"
    } else if z >= 0 {
        seq![0x32u8, 0x38, 0x30, 0x30, 0x0a]  // "2800"
    } else if z <= -800 {
        seq![0x32u8, 0x38, 0x31, 0x45, 0x0a]  // "281E"
    } else if z <= -700 {
        seq![0x32u8, 0x38, 0x31, 0x43, 0x0a]  // "281C"
    } else if z <= -600 {
        seq![0x32u8, 0x38, 0x31, 0x41, 0x0a]  // "281A"
    } else if z <= -500 {
        seq![0x32u8, 0x38, 0x31, 0x38, 0x0a]  // "2818"
    } else if z <= -400 {
        seq![0x32u8, 0x38, 0x31, 0x36, 0x0a]  // "2816"
    } else if z <= -300 {
        seq![0x32u8, 0x38, 0x31, 0x34, 0x0a]  // "2814"
    } else if z <= -200 {
        seq![0x32u8, 0x38, 0x31, 0x32, 0x0a]  // "2812"
    } else {
        seq![0x32u8, 0x38, 0x31, 0x30, 0x0a]  // "2810"
    }
}

/// The focus code for a nonzero focus axis value in thousandths: six far
/// rates from 0x28E1 up to 0x28EB stepped at 0.20, 0.35, 0.50, 0.65 and
/// 0.80 of deflection, and the mirrored near rates from 0x28F1 up to
/// 0x28FB.
pub open spec fn spec_focus_code(f: int) -> Seq<u8> {
    if f >= 800 {
        seq![0x32u8, 0x38, 0x45, 0x42, 0x0a]  // "28EB"
    } else if f >= 650 {
        seq![0x32u8, 0x38, 0x45, 0x39, 0x0a]  // "28E9"
    } else if f >= 500 {
        seq![0x32u8, 0x38, 0x45, 0x37, 0x0a]  // "28E7"
    } else if f >= 350 {
        seq![0x32u8, 0x38, 0x45, 0x35, 0x0a]  // "28E5"
    } else if f >= 200 {
        seq![0x32u8, 0x38, 0x45, 0x33, 0x0a]  // "28E3"
    } else if f >= 0 {
        seq![0x32u8, 0x38, 0x45, 0x31, 0x0a]  // "28E1"
    } else if f <= -800 {
        seq![0x32u8, 0x38, 0x46, 0x42, 0x0a]  // "28FB"
    } else if f <= -650 {
        seq![0x32u8, 0x38, 0x46, 0x39, 0x0a]  // "28F9"
    } else if f <= -500 {
        seq![0x32u8, 0x38, 0x46, 0x37, 0x0a]  // "28F7"
    } else if f <= -350 {
        seq![0x32u8, 0x38, 0x46, 0x35, 0x0a]  // "28F5"
    } else if f <= -200 {
        seq![0x32u8, 0x38, 0x46, 0x33, 0x0a]  // "28F3"
    } else {
        seq![0x32u8, 0x38, 0x46, 0x31, 0x0a]  // "28F1"
    }
}

/// The one-shot autofocus code, 0x2843.
pub open spec fn spec_autofocus_code() -> Seq<u8> {
    seq![0x32u8, 0x38, 0x34, 0x33, 0x0a]  // "2843"
}

/// Selects the zoom code for a nonzero zoom axis value.
pub fn zoom_code(zoom: i16) -> (r: [u8; 5])
    requires
        -1000 <= zoom <= 1000,
        zoom != 0,
    ensures
        r@ == spec_zoom_code(zoom as int),
{
    if zoom >= 800 {
        [0x32, 0x38, 0x30, 0x45, 0x0a]
    } else if zoom >= 700 {
        [0x32, 0x38, 0x30, 0x43, 0x0a]
    } else if zoom >= 600 {
        [0x32, 0x38, 0x30, 0x41, 0x0a]
    } else if zoom >= 500 {
        [0x32, 0x38, 0x30, 0x38, 0x0a]
    } else if zoom >= 400 {
        [0x32, 0x38, 0x30, 0x36, 0x0a]
    } else if zoom >= 300 {
        [0x32, 0x38, 0x30, 0x34, 0x0a]
    } else if zoom >= 200 {
        [0x32, 0x38, 0x30, 0x32, 0x0a]
    } else if zoom >= 0 {
        [0x32, 0x38, 0x30, 0x30, 0x0a]
    } else if zoom <= -800 {
        [0x32, 0x38, 0x31, 0x45, 0x0a]
    } else if zoom <= -700 {
        [0x32, 0x38, 0x31, 0x43, 0x0a]
    } else if zoom <= -600 {
        [0x32, 0x38, 0x31, 0x41, 0x0a]
    } else if zoom <= -500 {
        [0x32, 0x38, 0x31, 0x38, 0x0a]
    } else if zoom <= -400 {
        [0x32, 0x38, 0x31, 0x36, 0x0a]
    } else if zoom <= -300 {
        [0x32, 0x38, 0x31, 0x34, 0x0a]
    } else if zoom <= -200 {
        [0x32, 0x38, 0x31, 0x32, 0x0a]
    } else {
        [0x32, 0x38, 0x31, 0x30, 0x0a]
    }
}

/// Selects the focus code for a nonzero focus axis value.
pub fn focus_code(focus: i16) -> (r: [u8; 5])
    requires
        -1000 <= focus <= 1000,
        focus != 0,
    ensures
        r@ == spec_focus_code(focus as int),
{
    if focus >= 800 {
        [0x32, 0x38, 0x45, 0x42, 0x0a]
    } else if focus >= 650 {
        [0x32, 0x38, 0x45, 0x39, 0x0a]
    } else if focus >= 500 {
        [0x32, 0x38, 0x45, 0x37, 0x0a]
    } else if focus >= 350 {
        [0x32, 0x38, 0x45, 0x35, 0x0a]
    } else if focus >= 200 {
        [0x32, 0x38, 0x45, 0x33, 0x0a]
    } else if focus >= 0 {
        [0x32, 0x38, 0x45, 0x31, 0x0a]
    } else if focus <= -800 {
        [0x32, 0x38, 0x46, 0x42, 0x0a]
    } else if focus <= -650 {
        [0x32, 0x38, 0x46, 0x39, 0x0a]
    } else if focus <= -500 {
        [0x32, 0x38, 0x46, 0x37, 0x0a]
    } else if focus <= -350 {
        [0x32, 0x38, 0x46, 0x35, 0x0a]
    } else if focus <= -200 {
        [0x32, 0x38, 0x46, 0x33, 0x0a]
    } else {
        [0x32, 0x38, 0x46, 0x31, 0x0a]
    }
}

/// Decides what one command means for the bridge: the zoom code for any
/// zoom motion, then the autofocus code when asked for, else the focus code
/// for any focus motion; a lone code is doubled so a pair always goes out,
/// and a command moving nothing sends nothing.
pub fn plan_send(command: &Command) -> (r: Option<([u8; 5], [u8; 5])>)
    requires
        command.valid(),
    ensures
        (command.zoom == 0 && !command.autofocus && command.focus == 0) <==> r is None,
        r matches Some(pair) ==> ({
            let z = command.zoom as int;
            let f = command.focus as int;
            &&& (command.zoom != 0 && command.autofocus) ==> pair.0@ == spec_zoom_code(z)
                && pair.1@ == spec_autofocus_code()
            &&& (command.zoom != 0 && !command.autofocus && command.focus != 0) ==> pair.0@
                == spec_zoom_code(z) && pair.1@ == spec_focus_code(f)
            &&& (command.zoom != 0 && !command.autofocus && command.focus == 0) ==> pair.0@
                == spec_zoom_code(z) && pair.1@ == spec_zoom_code(z)
            &&& (command.zoom == 0 && command.autofocus) ==> pair.0@ == spec_autofocus_code()
                && pair.1@ == spec_autofocus_code()
            &&& (command.zoom == 0 && !command.autofocus && command.focus != 0) ==> pair.0@
                == spec_focus_code(f) && pair.1@ == spec_focus_code(f)
        }),
{
    let autofocus_cmd: [u8; 5] = [0x32, 0x38, 0x34, 0x33, 0x0a];
    if command.zoom != 0 {
        let zc = zoom_code(command.zoom);
        if command.autofocus {
            Some((zc, autofocus_cmd))
        } else if command.focus != 0 {
            Some((zc, focus_code(command.focus)))
        } else {
            Some((zc, zc))
        }
    } else if command.autofocus {
        Some((autofocus_cmd, autofocus_cmd))
    } else if command.focus != 0 {
        let fc = focus_code(command.focus);
        Some((fc, fc))
    } else {
        None
    }
}

/// The LANC driver state: identity and the serial device path. The port
/// handle and the sender task live with the caller.
#[derive(Clone, Debug)]
pub struct Lanc {
    pub id: String,
    pub port: String,
}

/// Builds a LANC driver for a serial device path.
pub fn create(id: &str, port: &str) -> (r: Lanc)
    ensures
        r.id@ == id@,
        r.port@ == port@,
{
    Lanc { id: id.to_owned(), port: port.to_owned() }
}

impl Lanc {
    /// The stable id.
    pub fn id(&self) -> (r: String)
        ensures
            r@ == self.id@,
    {
        self.id.clone()
    }

    /// Decides what one command means for the bridge; see [`plan_send`].
    pub fn plan_send(&self, command: &Command) -> (r: Option<([u8; 5], [u8; 5])>)
        requires
            command.valid(),
        ensures
            ((command.zoom == 0 && !command.autofocus && command.focus == 0) <==> r is None),
            r matches Some(pair) ==> ({
                let z = command.zoom as int;
                let f = command.focus as int;
                &&& (command.zoom != 0 && command.autofocus) ==> pair.0@ == spec_zoom_code(z)
                    && pair.1@ == spec_autofocus_code()
                &&& (command.zoom != 0 && !command.autofocus && command.focus != 0) ==> pair.0@
                    == spec_zoom_code(z) && pair.1@ == spec_focus_code(f)
                &&& (command.zoom != 0 && !command.autofocus && command.focus == 0) ==> pair.0@
                    == spec_zoom_code(z) && pair.1@ == spec_zoom_code(z)
                &&& (command.zoom == 0 && command.autofocus) ==> pair.0@ == spec_autofocus_code()
                    && pair.1@ == spec_autofocus_code()
                &&& (command.zoom == 0 && !command.autofocus && command.focus != 0) ==> pair.0@
                    == spec_focus_code(f) && pair.1@ == spec_focus_code(f)
            }),
    {
        plan_send(command)
    }
}

/// Which of the pair the dispatch loop writes on its `counter`-th
/// iteration: the codes alternate so both are emitted fairly.
pub fn pick_command(pair: &([u8; 5], [u8; 5]), counter: u64) -> (r: [u8; 5])
    ensures
        counter % 2 == 0 ==> r == pair.0,
        counter % 2 == 1 ==> r == pair.1,
{
    if counter % 2 == 0 {
        pair.0
    } else {
        pair.1
    }
}

} // verus!
