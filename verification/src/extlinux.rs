//! Boot-menu configuration text: a fixed template with two entries, primary
//! and fallback-initramfs, each pointing the kernel command line at the
//! resolved root filesystem identifier.

use vstd::prelude::*;

verus! {

/// The template up to the primary entry's root identifier.
pub open spec fn extlinux_head() -> Seq<char> {
    "DEFAULT arch\nMENU TITLE Boot Menu\nPROMPT 0\nTIMEOUT 50\n\nLABEL arch\nMENU LABEL Arch Linux ARM\nLINUX /Image\nINITRD /initramfs-linux.img\nFDT /dtbs/rockchip/rk3399-pinebook-pro.dtb\nAPPEND root=UUID="@
}

/// The template between the two root identifiers.
pub open spec fn extlinux_mid() -> Seq<char> {
    " rw\n\nLABEL arch-fallback\nMENU LABEL Arch Linux ARM with fallback initramfs\nLINUX /Image\nINITRD /initramfs-linux-fallback.img\nFDT /dtbs/rockchip/rk3399-pinebook-pro.dtb\nAPPEND root=UUID="@
}

/// The template after the fallback entry's root identifier.
pub open spec fn extlinux_tail() -> Seq<char> {
    " rw"@
}

/// The whole boot-menu file for a given root filesystem identifier.
pub open spec fn spec_extlinux_config(uuid: Seq<char>) -> Seq<char> {
    extlinux_head() + uuid + extlinux_mid() + uuid + extlinux_tail()
}

/// Renders the boot-menu file embedding `root_uuid` in both entries' kernel
/// command lines.
pub fn extlinux_config(root_uuid: &str) -> (r: String)
    ensures
        r@ == spec_extlinux_config(root_uuid@),
{
    let mut out = String::from_str(
        "DEFAULT arch\nMENU TITLE Boot Menu\nPROMPT 0\nTIMEOUT 50\n\nLABEL arch\nMENU LABEL Arch Linux ARM\nLINUX /Image\nINITRD /initramfs-linux.img\nFDT /dtbs/rockchip/rk3399-pinebook-pro.dtb\nAPPEND root=UUID=");
    out.append(root_uuid);
    out.append(
        " rw\n\nLABEL arch-fallback\nMENU LABEL Arch Linux ARM with fallback initramfs\nLINUX /Image\nINITRD /initramfs-linux-fallback.img\nFDT /dtbs/rockchip/rk3399-pinebook-pro.dtb\nAPPEND root=UUID=");
    out.append(root_uuid);
    out.append(" rw");
    proof {
        assert(out@ =~= spec_extlinux_config(root_uuid@));
    }
    out
}

} // verus!
