//! The names that the file format gives to its elements are different
//! names.  The decoders tell elements apart by name; that two of the names
//! differ is read off a mark that is easy to compare.

use vstd::prelude::*;

verus! {

/// The mark of a name: its length, its first character and its fourth (a
/// space where it has none).
pub open spec fn mark(s: Seq<char>) -> (nat, char, char) {
    (
        s.len(),
        if s.len() > 0 {
            s[0]
        } else {
            ' '
        },
        if s.len() > 3 {
            s[3]
        } else {
            ' '
        },
    )
}

/// The marks of the names of the elements that the decoders and the
/// pretty-printer tell apart.  No two of them are the same, so no two of the
/// names are.
pub proof fn lemma_marks()
    ensures
        mark("start"@) == (5nat, 's', 'r'),
        mark("end"@) == (3nat, 'e', ' '),
        mark("center"@) == (6nat, 'c', 't'),
        mark("angle"@) == (5nat, 'a', 'l'),
        mark("layer"@) == (5nat, 'l', 'e'),
        mark("width"@) == (5nat, 'w', 't'),
        mark("size"@) == (4nat, 's', 'e'),
        mark("drill"@) == (5nat, 'd', 'l'),
        mark("tstamp"@) == (6nat, 't', 'a'),
        mark("status"@) == (6nat, 's', 't'),
        mark("net"@) == (3nat, 'n', ' '),
        mark("at"@) == (2nat, 'a', ' '),
        mark("layers"@) == (6nat, 'l', 'e'),
        mark("effects"@) == (7nat, 'e', 'e'),
        mark("version"@) == (7nat, 'v', 's'),
        mark("host"@) == (4nat, 'h', 't'),
        mark("general"@) == (7nat, 'g', 'e'),
        mark("page"@) == (4nat, 'p', 'e'),
        mark("module"@) == (6nat, 'm', 'u'),
        mark("net_class"@) == (9nat, 'n', '_'),
        mark("gr_text"@) == (7nat, 'g', 't'),
        mark("gr_line"@) == (7nat, 'g', 'l'),
        mark("gr_arc"@) == (6nat, 'g', 'a'),
        mark("gr_circle"@) == (9nat, 'g', 'c'),
        mark("dimension"@) == (9nat, 'd', 'e'),
        mark("zone"@) == (4nat, 'z', 'e'),
        mark("segment"@) == (7nat, 's', 'm'),
        mark("via"@) == (3nat, 'v', ' '),
        mark("setup"@) == (5nat, 's', 'u'),
        mark("add_net"@) == (7nat, 'a', '_'),
        mark("clearance"@) == (9nat, 'c', 'a'),
        mark("trace_width"@) == (11nat, 't', 'c'),
        mark("via_dia"@) == (7nat, 'v', '_'),
        mark("via_drill"@) == (9nat, 'v', '_'),
        mark("uvia_dia"@) == (8nat, 'u', 'a'),
        mark("uvia_drill"@) == (10nat, 'u', 'a'),
        mark("diff_pair_gap"@) == (13nat, 'd', 'f'),
        mark("diff_pair_width"@) == (15nat, 'd', 'f'),
        mark("xy"@) == (2nat, 'x', ' '),
        mark("rect_delta"@) == (10nat, 'r', 't'),
        mark("signal"@) == (6nat, 's', 'n'),
        mark("user"@) == (4nat, 'u', 'r'),
        mark("mode"@) == (4nat, 'm', 'e'),
        mark("arc_segments"@) == (12nat, 'a', '_'),
        mark("smoothing"@) == (9nat, 's', 'o'),
        mark("radius"@) == (6nat, 'r', 'i'),
        mark("keepout"@) == (7nat, 'k', 'p'),
        mark("fill"@) == (4nat, 'f', 'l'),
        mark("polygon"@) == (7nat, 'p', 'y'),
        mark("filled_polygon"@) == (14nat, 'f', 'l'),
        mark("fill_segments"@) == (13nat, 'f', 'l'),
        mark("pcbplotparams"@) == (13nat, 'p', 'p'),
        mark("model"@) == (5nat, 'm', 'e'),
        mark("fp_text"@) == (7nat, 'f', 't'),
        mark("kicad_pcb"@) == (9nat, 'k', 'a'),
{
    reveal_strlit("start");
    reveal_strlit("end");
    reveal_strlit("center");
    reveal_strlit("angle");
    reveal_strlit("layer");
    reveal_strlit("width");
    reveal_strlit("size");
    reveal_strlit("drill");
    reveal_strlit("tstamp");
    reveal_strlit("status");
    reveal_strlit("net");
    reveal_strlit("at");
    reveal_strlit("layers");
    reveal_strlit("effects");
    reveal_strlit("version");
    reveal_strlit("host");
    reveal_strlit("general");
    reveal_strlit("page");
    reveal_strlit("module");
    reveal_strlit("net_class");
    reveal_strlit("gr_text");
    reveal_strlit("gr_line");
    reveal_strlit("gr_arc");
    reveal_strlit("gr_circle");
    reveal_strlit("dimension");
    reveal_strlit("zone");
    reveal_strlit("segment");
    reveal_strlit("via");
    reveal_strlit("setup");
    reveal_strlit("add_net");
    reveal_strlit("clearance");
    reveal_strlit("trace_width");
    reveal_strlit("via_dia");
    reveal_strlit("via_drill");
    reveal_strlit("uvia_dia");
    reveal_strlit("uvia_drill");
    reveal_strlit("diff_pair_gap");
    reveal_strlit("diff_pair_width");
    reveal_strlit("xy");
    reveal_strlit("rect_delta");
    reveal_strlit("signal");
    reveal_strlit("user");
    reveal_strlit("mode");
    reveal_strlit("arc_segments");
    reveal_strlit("smoothing");
    reveal_strlit("radius");
    reveal_strlit("keepout");
    reveal_strlit("fill");
    reveal_strlit("polygon");
    reveal_strlit("filled_polygon");
    reveal_strlit("fill_segments");
    reveal_strlit("pcbplotparams");
    reveal_strlit("model");
    reveal_strlit("fp_text");
    reveal_strlit("kicad_pcb");
}

} // verus!
