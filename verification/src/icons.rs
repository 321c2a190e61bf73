//! Desktop-icon visibility, modelled through the shell's folder-view flag
//! word.
//!
//! The shell keeps a per-view bitmask of cosmetic flags; one bit hides the
//! desktop icons. The write the shell offers takes an explicit mask, so a
//! caller can set or clear its one bit while every unrelated flag is
//! preserved. This module states that update as a function on the flag
//! word and proves the two facts the subsystem depends on: the update
//! touches nothing outside its mask, and repeating it changes nothing — the
//! shell holds the state, so no local bookkeeping is needed. Reaching the
//! folder view (the shell object-navigation chain) is the embedding
//! process's part; the steps and their failures are named in
//! [`crate::error::ShellStep`].

use vstd::prelude::*;

verus! {

/// The folder-view flag bit that hides the desktop icons.
pub const FWF_NOICONS: u32 = 0x00001000;

/// The shell's masked flag write: the bits selected by `mask` take the
/// corresponding bits of `value`; all other bits keep their current state.
pub open spec fn spec_apply_folder_flags(current: u32, mask: u32, value: u32) -> u32 {
    (current & !mask) | (value & mask)
}

/// The value written for the icon bit: set to hide, clear to show.
pub open spec fn spec_icon_value(hidden: bool) -> u32 {
    if hidden {
        FWF_NOICONS
    } else {
        0
    }
}

/// The folder-view flag word after asking for the given icon visibility.
pub open spec fn spec_icons_applied(current: u32, hidden: bool) -> u32 {
    spec_apply_folder_flags(current, FWF_NOICONS, spec_icon_value(hidden))
}

/// The mask and value of one masked flag write.
#[derive(Clone, Copy, Debug, PartialEq, Eq, Structural)]
pub struct FolderFlagWrite {
    pub mask: u32,
    pub value: u32,
}

/// The single write that sets the desired icon visibility: the mask selects
/// only the icon bit, so unrelated folder-view flags are untouched.
pub fn icon_flag_write(hidden: bool) -> (r: FolderFlagWrite)
    ensures
        r.mask == FWF_NOICONS,
        r.value == spec_icon_value(hidden),
{
    FolderFlagWrite { mask: FWF_NOICONS, value: if hidden { FWF_NOICONS } else { 0 } }
}

/// The shell's masked flag write, executable form.
pub fn apply_folder_flags(current: u32, mask: u32, value: u32) -> (r: u32)
    ensures
        r == spec_apply_folder_flags(current, mask, value),
{
    (current & !mask) | (value & mask)
}

/// The flag word after one icon-visibility write.
pub fn icons_applied(current: u32, hidden: bool) -> (r: u32)
    ensures
        r == spec_icons_applied(current, hidden),
{
    let w = icon_flag_write(hidden);
    apply_folder_flags(current, w.mask, w.value)
}

/// Law (masked write): an icon-visibility write sets the icon bit exactly
/// as asked and leaves every other folder-view flag as it was.
pub proof fn lemma_icon_write_exact(current: u32, hidden: bool)
    ensures
        spec_has_icon_bit(spec_icons_applied(current, hidden)) == hidden,
        spec_icons_applied(current, hidden) & !FWF_NOICONS == current & !FWF_NOICONS,
{
    assert(((current & !FWF_NOICONS) | (spec_icon_value(hidden) & FWF_NOICONS)) & FWF_NOICONS != 0
        <==> hidden) by (bit_vector);
    assert(((current & !FWF_NOICONS) | (spec_icon_value(hidden) & FWF_NOICONS)) & !FWF_NOICONS
        == current & !FWF_NOICONS) by (bit_vector);
}

/// Law (idempotence): asking for the same icon visibility twice in a row
/// leaves the flag word exactly as one write does; repeating the operation
/// is a no-op.
pub proof fn lemma_icon_write_idempotent(current: u32, hidden: bool)
    ensures
        spec_icons_applied(spec_icons_applied(current, hidden), hidden) == spec_icons_applied(
            current,
            hidden,
        ),
{
    let v = spec_icon_value(hidden);
    assert((((current & !FWF_NOICONS) | (v & FWF_NOICONS)) & !FWF_NOICONS) | (v & FWF_NOICONS) == (
    current & !FWF_NOICONS) | (v & FWF_NOICONS)) by (bit_vector);
}

/// Whether a folder-view flag word currently hides the icons.
pub open spec fn spec_has_icon_bit(word: u32) -> bool {
    word & FWF_NOICONS != 0
}

/// Whether a folder-view flag word currently hides the icons, executable
/// form.
pub fn has_icon_bit(word: u32) -> (r: bool)
    ensures
        r == spec_has_icon_bit(word),
{
    word & FWF_NOICONS != 0
}

} // verus!
