use vstd::prelude::*;
use vstd::string::StringSliceAdditionalSpecFns;

verus! {

/// The directory that holds the input devices.
pub const DEV_PATH: &'static str = "/dev/input";

/// An entry of the device directory.
#[derive(Debug)]
pub struct DeviceEntry {
    /// Whether the entry is a character device, as input devices are.
    pub is_char_device: bool,
    /// The last part of the entry's path, in bytes, if it has one.
    pub file_name: Option<Vec<u8>>,
}

/// The file names that are left out: `mice`, and every name that starts with `js` or
/// with `mouse`. Such files do not play well with libevdev.
pub open spec fn name_is_skipped(name: Seq<u8>) -> bool {
    ||| name == "mice".spec_bytes()
    ||| "js".spec_bytes().is_prefix_of(name)
    ||| "mouse".spec_bytes().is_prefix_of(name)
}

/// Whether an entry is a device whose events are read.
pub open spec fn is_input_device(entry: DeviceEntry) -> bool {
    &&& entry.is_char_device
    &&& entry.file_name matches Some(name) && !name_is_skipped(name@)
}

/// Whether a name is not `mice` and begins neither with `js` nor with `mouse`, byte by byte.
pub open spec fn bytes_are_wanted(name: Seq<u8>) -> bool {
    &&& !(name.len() == 4 && name[0] == 0x6d && name[1] == 0x69 && name[2] == 0x63 && name[3]
        == 0x65)
    &&& !(name.len() >= 2 && name[0] == 0x6a && name[1] == 0x73)
    &&& !(name.len() >= 5 && name[0] == 0x6d && name[1] == 0x6f && name[2] == 0x75 && name[3]
        == 0x73 && name[4] == 0x65)
}

/// The skipped names, byte by byte.
pub proof fn law_skipped_names_in_bytes(name: Seq<u8>)
    ensures
        name_is_skipped(name) <==> !bytes_are_wanted(name),
{
    reveal_strlit("mice");
    reveal_strlit("js");
    reveal_strlit("mouse");
    assert(vstd::string::is_ascii("mice"));
    assert(vstd::string::is_ascii("js"));
    assert(vstd::string::is_ascii("mouse"));
    vstd::string::is_ascii_spec_bytes("mice");
    vstd::string::is_ascii_spec_bytes("js");
    vstd::string::is_ascii_spec_bytes("mouse");
    let mice = seq![0x6du8, 0x69u8, 0x63u8, 0x65u8];
    let js = seq![0x6au8, 0x73u8];
    let mouse = seq![0x6du8, 0x6fu8, 0x75u8, 0x73u8, 0x65u8];
    assert("mice".spec_bytes() =~= mice);
    assert("js".spec_bytes() =~= js);
    assert("mouse".spec_bytes() =~= mouse);
    if name.len() == 4 && name[0] == 0x6d && name[1] == 0x69 && name[2] == 0x63 && name[3] == 0x65 {
        assert(name =~= mice);
    }
    if name.len() >= 2 {
        let head = name.subrange(0, 2);
        assert(head[0] == name[0] && head[1] == name[1]);
        if name[0] == 0x6a && name[1] == 0x73 {
            assert(head =~= js);
        }
    }
    if name.len() >= 5 {
        let head = name.subrange(0, 5);
        assert(head[0] == name[0] && head[1] == name[1] && head[2] == name[2] && head[3] == name[3]
            && head[4] == name[4]);
        if name[0] == 0x6d && name[1] == 0x6f && name[2] == 0x75 && name[3] == 0x73 && name[4]
            == 0x65 {
            assert(head =~= mouse);
        }
    }
}

/// Whether `bytes` starts with `prefix`.
fn starts_with(bytes: &[u8], prefix: &[u8]) -> (yes: bool)
    ensures
        yes == prefix@.is_prefix_of(bytes@),
{
    if bytes.len() < prefix.len() {
        return false;
    }
    for i in 0..prefix.len()
        invariant
            prefix@.len() <= bytes@.len(),
            forall|j: int| 0 <= j < i ==> prefix@[j] == bytes@[j],
    {
        if bytes[i] != prefix[i] {
            assert(bytes@.subrange(0, prefix@.len() as int)[i as int] != prefix@[i as int]);
            return false;
        }
    }
    assert(bytes@.subrange(0, prefix@.len() as int) =~= prefix@);
    true
}

/// Whether a device file of this name is left out.
pub fn is_skipped_file_name(name: &[u8]) -> (skipped: bool)
    ensures
        skipped == name_is_skipped(name@),
        skipped == !bytes_are_wanted(name@),
{
    proof {
        law_skipped_names_in_bytes(name@);
    }
    let mice = "mice".as_bytes();
    assert(mice@.is_prefix_of(name@) && mice@.len() == name@.len() ==> mice@ =~= name@);
    (name.len() == mice.len() && starts_with(name, mice)) || starts_with(name, "js".as_bytes())
        || starts_with(name, "mouse".as_bytes())
}

/// The positions of the input devices in a listing, in its order.
pub open spec fn input_devices(entries: Seq<DeviceEntry>) -> Seq<usize>
    decreases entries.len(),
{
    if entries.len() == 0 {
        seq![]
    } else {
        let before = input_devices(entries.drop_last());
        if is_input_device(entries.last()) {
            before.push((entries.len() - 1) as usize)
        } else {
            before
        }
    }
}

/// Picks the input devices out of the entries of the device directory: their positions in
/// the listing, in its order.
pub fn get_device_files(entries: &Vec<DeviceEntry>) -> (picked: Vec<usize>)
    ensures
        picked@ == input_devices(entries@),
        forall|i: int|
            0 <= i < entries@.len() ==> (picked@.contains(i as usize) <==> (
            #[trigger] entries@[i]).is_char_device && (entries@[i].file_name matches Some(name)
                && bytes_are_wanted(name@))),
        forall|a: int, b: int| 0 <= a < b < picked@.len() ==> picked@[a] < picked@[b],
        forall|a: int| 0 <= a < picked@.len() ==> (#[trigger] picked@[a]) < entries@.len(),
{
    let mut picked: Vec<usize> = Vec::new();
    for i in 0..entries.len()
        invariant
            picked@ == input_devices(entries@.take(i as int)),
    {
        let entry = &entries[i];
        let wanted = match &entry.file_name {
            Some(name) => entry.is_char_device && !is_skipped_file_name(name.as_slice()),
            None => false,
        };
        assert(entries@.take(i + 1).drop_last() =~= entries@.take(i as int));
        if wanted {
            picked.push(i);
        }
    }
    assert(entries@.take(entries@.len() as int) =~= entries@);
    proof {
        law_selection_is_exact(entries@);
        assert forall|i: int| 0 <= i < entries@.len() implies (picked@.contains(i as usize) <==> (
        #[trigger] entries@[i]).is_char_device && (entries@[i].file_name matches Some(name)
            && bytes_are_wanted(name@))) by {
            law_picked_by_bytes(entries@, i);
        }
    }
    picked
}

/// Exactly the entries that are input devices are picked, each once and in the order of the
/// listing.
pub proof fn law_selection_is_exact(entries: Seq<DeviceEntry>)
    requires
        entries.len() <= usize::MAX,
    ensures
        input_devices(entries).len() <= entries.len(),
        forall|a: int, b: int|
            0 <= a < b < input_devices(entries).len() ==> input_devices(entries)[a]
                < input_devices(entries)[b],
        forall|i: int|
            0 <= i < entries.len() ==> (is_input_device(#[trigger] entries[i])
                <==> input_devices(entries).contains(i as usize)),
        forall|a: int|
            0 <= a < input_devices(entries).len() ==> (#[trigger] input_devices(entries)[a])
                < entries.len(),
    decreases entries.len(),
{
    if entries.len() > 0 {
        let rest = entries.drop_last();
        let before = input_devices(rest);
        let all = input_devices(entries);
        law_selection_is_exact(rest);
        assert forall|i: int| 0 <= i < entries.len() implies (is_input_device(
            #[trigger] entries[i],
        ) <==> all.contains(i as usize)) by {
            if i < rest.len() {
                assert(rest[i] == entries[i]);
                if before.contains(i as usize) {
                    let k = choose|k: int| 0 <= k < before.len() && before[k] == i as usize;
                    assert(all[k] == i as usize);
                }
            } else if is_input_device(entries[i]) {
                assert(all[before.len() as int] == i as usize);
            }
        }
    }
}

/// An entry is picked if and only if it is a character device, has a file name, and that name is
/// not `mice` and begins neither with `js` nor with `mouse`, whatever else it is and however long.
pub proof fn law_picked_by_bytes(entries: Seq<DeviceEntry>, at: int)
    requires
        entries.len() <= usize::MAX,
        0 <= at < entries.len(),
    ensures
        input_devices(entries).contains(at as usize) <==> entries[at].is_char_device && (
        entries[at].file_name matches Some(name) && bytes_are_wanted(name@)),
{
    law_selection_is_exact(entries);
    if let Some(name) = entries[at].file_name {
        law_skipped_names_in_bytes(name@);
    }
}

/// Every character device whose name begins with `event` is picked.
pub proof fn law_event_devices_are_picked(entries: Seq<DeviceEntry>, at: int, name: Vec<u8>)
    requires
        entries.len() <= usize::MAX,
        0 <= at < entries.len(),
        entries[at].is_char_device,
        entries[at].file_name == Some(name),
        name@.len() >= 5,
        name@[0] == 0x65 && name@[1] == 0x76 && name@[2] == 0x65 && name@[3] == 0x6e && name@[4]
            == 0x74,
    ensures
        input_devices(entries).contains(at as usize),
{
    law_picked_by_bytes(entries, at);
}

} // verus!
