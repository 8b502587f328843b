use vstd::prelude::*;
use crate::text::{push_str, string_from_chars};

verus! {

pub const SYSTEM_ONLINE: &'static str = "$GONLINE$C";
pub const SYSTEM_OFFLINE: &'static str = "$ROFFLINE$C";

pub open spec fn system_status_spec(online: bool) -> Seq<char> {
    if online {
        SYSTEM_ONLINE@
    } else {
        SYSTEM_OFFLINE@
    }
}

/// The status panel of the ship on the navigation screen, as a paragraph
/// format: the backup power is online once the reactor task is solved, the
/// sensors once the sensors task is.
pub open spec fn ship_status_spec(reactor_solved: bool, sensors_solved: bool) -> Seq<char> {
    "$C $/$*H.L.S. Odyssey$*$/\n    LTF: $ROFFLINE$C\n Backup: "@ + system_status_spec(reactor_solved)
        + "\nSensors: "@ + system_status_spec(sensors_solved) + "\n  Orbit: $GSTABLE"@
}

pub fn ship_status_text(reactor_solved: bool, sensors_solved: bool) -> (s: String)
    ensures
        s@ == ship_status_spec(reactor_solved, sensors_solved),
{
    let mut out: Vec<char> = Vec::new();
    push_str(&mut out, "$C $/$*H.L.S. Odyssey$*$/\n    LTF: $ROFFLINE$C\n Backup: ");
    push_str(&mut out, if reactor_solved { SYSTEM_ONLINE } else { SYSTEM_OFFLINE });
    push_str(&mut out, "\nSensors: ");
    push_str(&mut out, if sensors_solved { SYSTEM_ONLINE } else { SYSTEM_OFFLINE });
    push_str(&mut out, "\n  Orbit: $GSTABLE");
    string_from_chars(&out)
}

/// The solar panels' panel: functional once the heliostat task is solved.
pub open spec fn solar_panels_spec(heliostat_solved: bool) -> Seq<char> {
    "$CSolar panels\n"@ + if heliostat_solved {
        "$G(functional)"@
    } else {
        "    $R(jammed)"@
    }
}

pub fn solar_panels_text(heliostat_solved: bool) -> (s: String)
    ensures
        s@ == solar_panels_spec(heliostat_solved),
{
    let mut out: Vec<char> = Vec::new();
    push_str(&mut out, "$CSolar panels\n");
    push_str(&mut out, if heliostat_solved { "$G(functional)" } else { "    $R(jammed)" });
    string_from_chars(&out)
}

} // verus!
