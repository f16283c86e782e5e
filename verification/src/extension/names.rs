//! The two concrete lookup tables: filter types and effect types. Both are
//! built once at startup and never change; effect codes are assigned by list
//! position starting at 0.

use crate::extension::name_lookup::LookupTable;
use vstd::prelude::*;

verus! {

broadcast use vstd::seq::group_seq_axioms;

/// Appends one code/label pair.
fn push_entry(entries: &mut Vec<(i32, String)>, code: i32, label: &str)
    ensures
        final(entries)@.len() == old(entries)@.len() + 1,
        final(entries)@.subrange(0, old(entries)@.len() as int) == old(entries)@,
        final(entries)@[old(entries)@.len() as int].0 == code,
        final(entries)@[old(entries)@.len() as int].1@ == label@,
{
    let e = (code, label.to_owned());
    entries.push(e);
    proof {
        assert(entries@.subrange(0, old(entries)@.len() as int) =~= old(entries)@);
    }
}

/// The exact content of the filter-type table.
pub open spec fn spec_is_filter_table(t: LookupTable) -> bool {
    &&& t.entries@.len() == 34
    &&& t.entries@[0].0 == 0i32 && t.entries@[0].1@ == "Off"@
    &&& t.entries@[1].0 == 1i32 && t.entries@[1].1@ == "LP 12 dB"@
    &&& t.entries@[2].0 == 2i32 && t.entries@[2].1@ == "LP 24 dB"@
    &&& t.entries@[3].0 == 3i32 && t.entries@[3].1@ == "LP Legacy Ladder"@
    &&& t.entries@[4].0 == 10i32 && t.entries@[4].1@ == "LP Vintage Ladder"@
    &&& t.entries@[5].0 == 13i32 && t.entries@[5].1@ == "LP K35"@
    &&& t.entries@[6].0 == 15i32 && t.entries@[6].1@ == "LP Diode Ladder"@
    &&& t.entries@[7].0 == 11i32 && t.entries@[7].1@ == "LP OB-Xd 12 dB"@
    &&& t.entries@[8].0 == 12i32 && t.entries@[8].1@ == "LP OB-Xd 24 dB"@
    &&& t.entries@[9].0 == 16i32 && t.entries@[9].1@ == "LP Cutoff Warp"@
    &&& t.entries@[10].0 == 28i32 && t.entries@[10].1@ == "LP Res Warp"@
    &&& t.entries@[11].0 == 6i32 && t.entries@[11].1@ == "BP 12 dB"@
    &&& t.entries@[12].0 == 23i32 && t.entries@[12].1@ == "BP 24 dB"@
    &&& t.entries@[13].0 == 22i32 && t.entries@[13].1@ == "BP OB-Xd 12 dB"@
    &&& t.entries@[14].0 == 19i32 && t.entries@[14].1@ == "BP Cutoff Warp"@
    &&& t.entries@[15].0 == 31i32 && t.entries@[15].1@ == "BP Res Warp"@
    &&& t.entries@[16].0 == 4i32 && t.entries@[16].1@ == "HP 12 dB"@
    &&& t.entries@[17].0 == 5i32 && t.entries@[17].1@ == "HP 24 dB"@
    &&& t.entries@[18].0 == 14i32 && t.entries@[18].1@ == "HP K35"@
    &&& t.entries@[19].0 == 20i32 && t.entries@[19].1@ == "HP OB-Xd 12 dB"@
    &&& t.entries@[20].0 == 17i32 && t.entries@[20].1@ == "HP Cutoff Warp"@
    &&& t.entries@[21].0 == 29i32 && t.entries@[21].1@ == "HP Resonance Warp"@
    &&& t.entries@[22].0 == 7i32 && t.entries@[22].1@ == "Notch 12 dB"@
    &&& t.entries@[23].0 == 24i32 && t.entries@[23].1@ == "Notch 24 dB"@
    &&& t.entries@[24].0 == 21i32 && t.entries@[24].1@ == "Notch OB-Xd 12 dB"@
    &&& t.entries@[25].0 == 18i32 && t.entries@[25].1@ == "Notch Cutoff Warp"@
    &&& t.entries@[26].0 == 30i32 && t.entries@[26].1@ == "Notch Resonance Warp"@
    &&& t.entries@[27].0 == 33i32 && t.entries@[27].1@ == "Multi Tripole"@
    &&& t.entries@[28].0 == 36i32 && t.entries@[28].1@ == "FX Allpass"@
    &&& t.entries@[29].0 == 27i32 && t.entries@[29].1@ == "FX Cutoff Warp AP"@
    &&& t.entries@[30].0 == 32i32 && t.entries@[30].1@ == "FX Resonance Warp AP"@
    &&& t.entries@[31].0 == 8i32 && t.entries@[31].1@ == "FX Comb+"@
    &&& t.entries@[32].0 == 25i32 && t.entries@[32].1@ == "FX Comb-"@
    &&& t.entries@[33].0 == 9i32 && t.entries@[33].1@ == "FX Sample & Hold"@
}

/// The filter-type table: code to display label.
pub fn filtertypes() -> (r: LookupTable)
    ensures
        spec_is_filter_table(r),
{
    let mut entries: Vec<(i32, String)> = Vec::new();
    push_entry(&mut entries, 0, "Off");
    push_entry(&mut entries, 1, "LP 12 dB");
    push_entry(&mut entries, 2, "LP 24 dB");
    push_entry(&mut entries, 3, "LP Legacy Ladder");
    push_entry(&mut entries, 10, "LP Vintage Ladder");
    push_entry(&mut entries, 13, "LP K35");
    push_entry(&mut entries, 15, "LP Diode Ladder");
    push_entry(&mut entries, 11, "LP OB-Xd 12 dB");
    push_entry(&mut entries, 12, "LP OB-Xd 24 dB");
    push_entry(&mut entries, 16, "LP Cutoff Warp");
    push_entry(&mut entries, 28, "LP Res Warp");
    push_entry(&mut entries, 6, "BP 12 dB");
    push_entry(&mut entries, 23, "BP 24 dB");
    push_entry(&mut entries, 22, "BP OB-Xd 12 dB");
    push_entry(&mut entries, 19, "BP Cutoff Warp");
    push_entry(&mut entries, 31, "BP Res Warp");
    push_entry(&mut entries, 4, "HP 12 dB");
    push_entry(&mut entries, 5, "HP 24 dB");
    push_entry(&mut entries, 14, "HP K35");
    push_entry(&mut entries, 20, "HP OB-Xd 12 dB");
    push_entry(&mut entries, 17, "HP Cutoff Warp");
    push_entry(&mut entries, 29, "HP Resonance Warp");
    push_entry(&mut entries, 7, "Notch 12 dB");
    push_entry(&mut entries, 24, "Notch 24 dB");
    push_entry(&mut entries, 21, "Notch OB-Xd 12 dB");
    push_entry(&mut entries, 18, "Notch Cutoff Warp");
    push_entry(&mut entries, 30, "Notch Resonance Warp");
    push_entry(&mut entries, 33, "Multi Tripole");
    push_entry(&mut entries, 36, "FX Allpass");
    push_entry(&mut entries, 27, "FX Cutoff Warp AP");
    push_entry(&mut entries, 32, "FX Resonance Warp AP");
    push_entry(&mut entries, 8, "FX Comb+");
    push_entry(&mut entries, 25, "FX Comb-");
    push_entry(&mut entries, 9, "FX Sample & Hold");
    LookupTable { entries }
}

/// The exact content of the effect-type table.
pub open spec fn spec_is_fx_table(t: LookupTable) -> bool {
    &&& t.entries@.len() == 30
    &&& t.entries@[0].0 == 0i32 && t.entries@[0].1@ == "Off"@
    &&& t.entries@[1].0 == 1i32 && t.entries@[1].1@ == "Delay"@
    &&& t.entries@[2].0 == 2i32 && t.entries@[2].1@ == "Reverb 1"@
    &&& t.entries@[3].0 == 3i32 && t.entries@[3].1@ == "Phaser"@
    &&& t.entries@[4].0 == 4i32 && t.entries@[4].1@ == "Rotary"@
    &&& t.entries@[5].0 == 5i32 && t.entries@[5].1@ == "Distortion"@
    &&& t.entries@[6].0 == 6i32 && t.entries@[6].1@ == "EQ"@
    &&& t.entries@[7].0 == 7i32 && t.entries@[7].1@ == "Freq Shift"@
    &&& t.entries@[8].0 == 8i32 && t.entries@[8].1@ == "Conditioner"@
    &&& t.entries@[9].0 == 9i32 && t.entries@[9].1@ == "Chorus"@
    &&& t.entries@[10].0 == 10i32 && t.entries@[10].1@ == "Vocoder"@
    &&& t.entries@[11].0 == 11i32 && t.entries@[11].1@ == "Reverb 2"@
    &&& t.entries@[12].0 == 12i32 && t.entries@[12].1@ == "Flanger"@
    &&& t.entries@[13].0 == 13i32 && t.entries@[13].1@ == "Ring Mod"@
    &&& t.entries@[14].0 == 14i32 && t.entries@[14].1@ == "Airwindows"@
    &&& t.entries@[15].0 == 15i32 && t.entries@[15].1@ == "Neuron"@
    &&& t.entries@[16].0 == 16i32 && t.entries@[16].1@ == "Graphic EQ"@
    &&& t.entries@[17].0 == 17i32 && t.entries@[17].1@ == "Resonator"@
    &&& t.entries@[18].0 == 18i32 && t.entries@[18].1@ == "CHOW"@
    &&& t.entries@[19].0 == 19i32 && t.entries@[19].1@ == "Exciter"@
    &&& t.entries@[20].0 == 20i32 && t.entries@[20].1@ == "Ensemble"@
    &&& t.entries@[21].0 == 21i32 && t.entries@[21].1@ == "Combulator"@
    &&& t.entries@[22].0 == 22i32 && t.entries@[22].1@ == "Nimbus"@
    &&& t.entries@[23].0 == 23i32 && t.entries@[23].1@ == "Tape"@
    &&& t.entries@[24].0 == 24i32 && t.entries@[24].1@ == "Treemonster"@
    &&& t.entries@[25].0 == 25i32 && t.entries@[25].1@ == "Waveshaper"@
    &&& t.entries@[26].0 == 26i32 && t.entries@[26].1@ == "Mid-Side Tool"@
    &&& t.entries@[27].0 == 27i32 && t.entries@[27].1@ == "Spring Reverb"@
    &&& t.entries@[28].0 == 28i32 && t.entries@[28].1@ == "Bonsai"@
    &&& t.entries@[29].0 == 29i32 && t.entries@[29].1@ == "Audio In"@
}

/// The effect-type table: codes assigned by list position.
pub fn fx_types() -> (r: LookupTable)
    ensures
        spec_is_fx_table(r),
{
    let mut entries: Vec<(i32, String)> = Vec::new();
    push_entry(&mut entries, 0, "Off");
    push_entry(&mut entries, 1, "Delay");
    push_entry(&mut entries, 2, "Reverb 1");
    push_entry(&mut entries, 3, "Phaser");
    push_entry(&mut entries, 4, "Rotary");
    push_entry(&mut entries, 5, "Distortion");
    push_entry(&mut entries, 6, "EQ");
    push_entry(&mut entries, 7, "Freq Shift");
    push_entry(&mut entries, 8, "Conditioner");
    push_entry(&mut entries, 9, "Chorus");
    push_entry(&mut entries, 10, "Vocoder");
    push_entry(&mut entries, 11, "Reverb 2");
    push_entry(&mut entries, 12, "Flanger");
    push_entry(&mut entries, 13, "Ring Mod");
    push_entry(&mut entries, 14, "Airwindows");
    push_entry(&mut entries, 15, "Neuron");
    push_entry(&mut entries, 16, "Graphic EQ");
    push_entry(&mut entries, 17, "Resonator");
    push_entry(&mut entries, 18, "CHOW");
    push_entry(&mut entries, 19, "Exciter");
    push_entry(&mut entries, 20, "Ensemble");
    push_entry(&mut entries, 21, "Combulator");
    push_entry(&mut entries, 22, "Nimbus");
    push_entry(&mut entries, 23, "Tape");
    push_entry(&mut entries, 24, "Treemonster");
    push_entry(&mut entries, 25, "Waveshaper");
    push_entry(&mut entries, 26, "Mid-Side Tool");
    push_entry(&mut entries, 27, "Spring Reverb");
    push_entry(&mut entries, 28, "Bonsai");
    push_entry(&mut entries, 29, "Audio In");
    LookupTable { entries }
}

} // verus!
