//! Removable volumes: which block devices are offered for syncing, and how
//! a volume is named to the user.

use vstd::prelude::*;
use vstd::string::*;
use crate::text::{hex_of, push_decimal, starts_with, starts_with_exec, str_eq};

verus! {

broadcast use vstd::std_specs::vec::group_vec_axioms, vstd::seq::group_seq_axioms;

/// One entry of the block-device listing, with its partitions as children.
#[derive(Debug)]
pub struct BlockDevice {
    pub name: String,
    pub label: Option<String>,
    pub mountpoint: Option<String>,
    pub size: Option<u64>,
    pub fstype: Option<String>,
    pub hotplug: Option<bool>,
    pub fsavail: Option<u64>,
    pub fssize: Option<u64>,
    pub children: Option<Vec<BlockDevice>>,
}

/// Unmounted device that can be mounted.
#[derive(Debug, Clone)]
pub struct UnmountedDevice {
    pub name: String,
    pub label: Option<String>,
    pub size: u64,
    pub fs_type: String,
}

/// A hot-pluggable device with a file system that is not mounted.
pub open spec fn is_unmounted_candidate(b: BlockDevice) -> bool {
    b.hotplug == Some(true) && b.fstype is Some && b.mountpoint is None
}

pub open spec fn unmounted_entry(b: BlockDevice) -> Seq<UnmountedDevice> {
    if is_unmounted_candidate(b) {
        seq![UnmountedDevice {
            name: b.name,
            label: b.label,
            size: match b.size { Some(s) => s, None => 0 },
            fs_type: b.fstype->Some_0,
        }]
    } else {
        Seq::empty()
    }
}

/// The unmounted candidates among `bs` and their descendants, each device
/// before its children, in listing order.
pub open spec fn unmounted_in(bs: Seq<BlockDevice>) -> Seq<UnmountedDevice>
    decreases bs,
{
    if bs.len() == 0 {
        Seq::empty()
    } else {
        let b = bs.last();
        let kids = match b.children {
            Some(cs) => unmounted_in(cs@),
            None => Seq::empty(),
        };
        unmounted_in(bs.drop_last()) + unmounted_entry(b) + kids
    }
}

fn unmounted_device(b: &BlockDevice) -> (r: UnmountedDevice)
    requires
        is_unmounted_candidate(*b),
    ensures
        seq![r] == unmounted_entry(*b),
{
    let fs_type = match &b.fstype {
        Some(f) => f.clone(),
        None => String::new(),
    };
    let label = match &b.label {
        Some(l) => Some(l.clone()),
        None => None,
    };
    UnmountedDevice {
        name: b.name.clone(),
        label,
        size: match b.size {
            Some(s) => s,
            None => 0,
        },
        fs_type,
    }
}

/// Appends the unmounted candidates among `bs` and their descendants.
fn collect_unmounted_in(bs: &Vec<BlockDevice>, devices: &mut Vec<UnmountedDevice>)
    ensures
        final(devices)@ == old(devices)@ + unmounted_in(bs@),
    decreases bs@,
{
    let ghost start = devices@;
    let mut i: usize = 0;
    while i < bs.len()
        invariant
            i <= bs@.len(),
            devices@ == start + unmounted_in(bs@.subrange(0, i as int)),
        decreases bs@.len() - i,
    {
        let b = &bs[i];
        let ghost before = devices@;
        if b.hotplug == Some(true) && b.fstype.is_some() && b.mountpoint.is_none() {
            devices.push(unmounted_device(b));
        }
        assert(devices@ == before + unmounted_entry(*b));
        let ghost mid = devices@;
        match &b.children {
            Some(cs) => {
                assert(decreases_to!(bs@ => bs@[i as int]));
                assert(decreases_to!(bs@[i as int] => cs@));
                collect_unmounted_in(cs, devices);
            },
            None => {},
        }
        proof {
            let pre = bs@.subrange(0, i + 1);
            assert(pre.drop_last() =~= bs@.subrange(0, i as int));
            assert(pre.last() == *b);
            assert(devices@ =~= start + unmounted_in(pre));
        }
        i = i + 1;
    }
    assert(bs@.subrange(0, bs@.len() as int) =~= bs@);
}

/// Detection of removable volumes.
pub struct DeviceDetector;

impl DeviceDetector {
    /// Appends the unmounted, hot-pluggable devices with a file system found
    /// at `block` or below it, each device before its children.
    pub fn collect_unmounted(block: &BlockDevice, devices: &mut Vec<UnmountedDevice>)
        ensures
            final(devices)@ == old(devices)@ + unmounted_in(seq![*block]),
    {
        let ghost start = devices@;
        if block.hotplug == Some(true) && block.fstype.is_some() && block.mountpoint.is_none() {
            devices.push(unmounted_device(block));
        }
        assert(devices@ == start + unmounted_entry(*block));
        match &block.children {
            Some(cs) => {
                collect_unmounted_in(cs, devices);
            },
            None => {},
        }
        proof {
            let one = seq![*block];
            assert(one.drop_last() =~= Seq::<BlockDevice>::empty());
            assert(one.last() == *block);
            assert(unmounted_in(one.drop_last()) == Seq::<UnmountedDevice>::empty());
            assert(devices@ =~= start + unmounted_in(one));
        }
    }
}

/// Identifying properties of a device.
#[derive(Debug, Clone)]
pub struct DeviceIdentifiers {
    /// Volume label, if any.
    pub label: Option<String>,
    /// Total size in bytes.
    pub size_bytes: u64,
    /// File system type.
    pub fs_type: String,
}

/// A mounted removable device.
#[derive(Debug, Clone)]
pub struct Device {
    /// Kernel name, e.g. "sdb1".
    pub name: String,
    /// Volume label.
    pub label: Option<String>,
    /// Mount point.
    pub mount_point: String,
    /// Total size in bytes.
    pub size: u64,
    /// Free space in bytes.
    pub free_space: u64,
    /// File system type.
    pub fs_type: String,
    /// Identifier that is stable across reconnects.
    pub uuid: String,
    /// Name the user gave the device.
    pub friendly_name: Option<String>,
}

/// The name shown for a device: its friendly name, else its label, else
/// the first eight characters of its id.
pub open spec fn display_name_of(d: Device) -> Seq<char> {
    match d.friendly_name {
        Some(f) => f@,
        None => match d.label {
            Some(l) => l@,
            None => d.uuid@.subrange(
                0,
                if d.uuid@.len() < 8 {
                    d.uuid@.len() as int
                } else {
                    8
                },
            ),
        },
    }
}

impl Device {
    /// The name shown for this device.
    pub fn display_name(&self) -> (r: String)
        ensures
            r@ == display_name_of(*self),
    {
        match &self.friendly_name {
            Some(f) => f.clone(),
            None => match &self.label {
                Some(l) => l.clone(),
                None => {
                    let n = self.uuid.as_str().unicode_len();
                    let k = if n < 8 {
                        n
                    } else {
                        8
                    };
                    self.uuid.as_str().substring_char(0, k).to_owned()
                },
            },
        }
    }
}

/// A block device that is mounted somewhere other than swap or the boot
/// partitions.
pub open spec fn is_listed_mount(b: BlockDevice) -> bool {
    &&& b.hotplug is Some
    &&& b.mountpoint matches Some(mp) && mp@.len() > 0 && mp@ != "[SWAP]"@ && !starts_with(
        mp@,
        "/boot"@,
    )
}

/// A listed mount that is hot-pluggable or mounted under a removable-media
/// directory.
pub open spec fn is_removable_mount(b: BlockDevice) -> bool {
    &&& is_listed_mount(b)
    &&& {
        ||| b.hotplug == Some(true)
        ||| starts_with(b.mountpoint->Some_0@, "/run/media"@)
        ||| starts_with(b.mountpoint->Some_0@, "/media"@)
        ||| starts_with(b.mountpoint->Some_0@, "/mnt"@)
    }
}

/// The size of a block device: its own, else its file system's, else 0.
pub open spec fn block_size_of(b: BlockDevice) -> u64 {
    match b.size {
        Some(s) => s,
        None => match b.fssize {
            Some(s) => s,
            None => 0,
        },
    }
}

impl DeviceDetector {
    /// Whether a block device is a mounted removable volume to offer.
    pub fn is_removable_mount(block: &BlockDevice) -> (r: bool)
        ensures
            r == is_removable_mount(*block),
    {
        if block.hotplug.is_none() {
            return false;
        }
        match &block.mountpoint {
            None => false,
            Some(mp) => {
                let m = mp.as_str();
                if m.unicode_len() == 0 || str_eq(m, "[SWAP]") || starts_with_exec(m, "/boot") {
                    return false;
                }
                block.hotplug == Some(true) || starts_with_exec(m, "/run/media")
                    || starts_with_exec(m, "/media") || starts_with_exec(m, "/mnt")
            },
        }
    }

    /// The size reported for a block device.
    pub fn block_size(block: &BlockDevice) -> (r: u64)
        ensures
            r == block_size_of(*block),
    {
        match block.size {
            Some(s) => s,
            None => match block.fssize {
                Some(s) => s,
                None => 0,
            },
        }
    }
}

/// The SHA-256 digest of the UTF-8 bytes of `s`.
pub uninterp spec fn sha256_of(s: Seq<char>) -> Seq<u8>;

/// Relies on `sha2::Sha256`: the 32-byte SHA-256 digest of the UTF-8 bytes
/// of `s`, which depends on `s` alone.
#[verifier::external_body]
fn sha256(s: &str) -> (r: Vec<u8>)
    ensures
        r@ == sha256_of(s@),
        r@.len() == 32,
{
    <sha2::Sha256 as sha2::Digest>::digest(s.as_bytes()).to_vec()
}

/// Relies on `hex::encode`: two lowercase hex digits per byte, high nibble
/// first.
#[verifier::external_body]
fn hex_encode(b: &[u8]) -> (r: String)
    ensures
        r@ == hex_of(b@),
{
    hex::encode(b)
}

/// The text hashed to identify a device: label (empty if none), size in
/// decimal and file system type, separated by `|`.
pub open spec fn uuid_input(label: Option<Seq<char>>, size: u64, fs_type: Seq<char>) -> Seq<char> {
    let l = match label {
        Some(l) => l,
        None => Seq::empty(),
    };
    l + seq!['|'] + crate::text::decimal(size as nat) + seq!['|'] + fs_type
}

/// A stable id for a device: the first six bytes of the SHA-256 digest of
/// its label, size and file system type, as twelve hex digits. The mount
/// point plays no part, so the id survives remounting.
pub fn generate_device_uuid(label: Option<&str>, size: u64, fs_type: &str) -> (r: String)
    ensures
        r@ == hex_of(
            sha256_of(
                uuid_input(
                    match label {
                        Some(l) => Some(l@),
                        None => None,
                    },
                    size,
                    fs_type@,
                ),
            ).subrange(0, 6),
        ),
{
    let mut text = String::new();
    match label {
        Some(l) => text.append(l),
        None => {},
    }
    text.append("|");
    push_decimal(&mut text, size);
    text.append("|");
    text.append(fs_type);
    proof {
        reveal_strlit("|");
    }
    assert(text@ =~= uuid_input(
        match label {
            Some(l) => Some(l@),
            None => None,
        },
        size,
        fs_type@,
    ));
    let digest = sha256(text.as_str());
    let mut head: Vec<u8> = Vec::new();
    let mut i: usize = 0;
    while i < 6
        invariant
            i <= 6,
            digest@.len() == 32,
            head@ == digest@.subrange(0, i as int),
        decreases 6 - i,
    {
        head.push(digest[i]);
        i = i + 1;
        assert(head@ =~= digest@.subrange(0, i as int));
    }
    hex_encode(head.as_slice())
}

} // verus!
