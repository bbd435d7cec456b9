//! Which device a path names, and how a device appears in the device list.
use crate::text::{
    eq_ignore_ascii_case, law_eq_ignore_ascii_case_characters, law_eq_ignore_ascii_case_equivalence,
    pad_right, pad_right_string,
    str_eq_ignore_ascii_case,
};
use vstd::prelude::*;

verus! {

/// Where the commands get their device from.
#[derive(Clone, Copy, Debug, PartialEq, Eq, Structural)]
pub enum DeviceSource {
    /// The built-in simulated device.
    Fake,
    /// The operating system's device at the given path.
    Physical,
}

/// A path names the simulated device when it is `fake` or `fake_device`,
/// whatever the case of its ASCII letters.
pub open spec fn names_fake_device(path: Seq<char>) -> bool {
    eq_ignore_ascii_case(path, "fake"@) || eq_ignore_ascii_case(path, "fake_device"@)
}

/// Decides whether `path` names the simulated device or a physical one.
pub fn device_source(path: &str) -> (r: DeviceSource)
    ensures
        r == (if names_fake_device(path@) {
            DeviceSource::Fake
        } else {
            DeviceSource::Physical
        }),
{
    if str_eq_ignore_ascii_case(path, "fake") || str_eq_ignore_ascii_case(path, "fake_device") {
        DeviceSource::Fake
    } else {
        DeviceSource::Physical
    }
}

/// Law: the device a path names does not depend on the case of its ASCII
/// letters.
pub proof fn law_device_source_ignores_ascii_case(p: Seq<char>, q: Seq<char>)
    requires
        eq_ignore_ascii_case(p, q),
    ensures
        names_fake_device(p) == names_fake_device(q),
{
    law_eq_ignore_ascii_case_equivalence(q, p, "fake"@);
    law_eq_ignore_ascii_case_equivalence(p, q, "fake"@);
    law_eq_ignore_ascii_case_equivalence(q, p, "fake_device"@);
    law_eq_ignore_ascii_case_equivalence(p, q, "fake_device"@);
}

/// Law: only paths of 4 or 11 characters name the simulated device;
/// `fake` and `fake_device` themselves do; and a path names it only if each
/// of its characters is the corresponding letter (in either case) or `_`.
pub proof fn law_names_fake_device(p: Seq<char>, i: int)
    ensures
        names_fake_device(p) ==> p.len() == 4 || p.len() == 11,
        names_fake_device("fake"@),
        names_fake_device("fake_device"@),
        names_fake_device(p) && 0 <= i < p.len() ==> (p[i] == "fake_device"@[i] || p[i] as u32 + 32
            == "fake_device"@[i] as u32),
{
    reveal_strlit("fake");
    reveal_strlit("fake_device");
    law_eq_ignore_ascii_case_equivalence("fake"@, "fake"@, "fake"@);
    law_eq_ignore_ascii_case_equivalence("fake_device"@, "fake_device"@, "fake_device"@);
    if names_fake_device(p) && 0 <= i < p.len() {
        if eq_ignore_ascii_case(p, "fake"@) {
            law_eq_ignore_ascii_case_characters("fake"@, p, i);
            law_eq_ignore_ascii_case_equivalence(p, "fake"@, "fake"@);
        } else {
            law_eq_ignore_ascii_case_characters("fake_device"@, p, i);
            law_eq_ignore_ascii_case_equivalence(p, "fake_device"@, "fake_device"@);
        }
    }
}

/// The width of the name column in the device list.
pub const DEVICE_NAME_WIDTH: usize = 20;

/// The line that lists a device: its name, left-aligned in a column of
/// [`DEVICE_NAME_WIDTH`] characters.
pub fn device_list_line(name: &str) -> (r: String)
    ensures
        r@ == pad_right(name@, DEVICE_NAME_WIDTH as nat),
{
    pad_right_string(name, DEVICE_NAME_WIDTH)
}

} // verus!
