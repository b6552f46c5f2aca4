//! Snapshots of a block device and its partitions, and how one is read
//! from the enumeration tool's answer.

use vstd::prelude::*;
use crate::json::{parse_json, parsed_json, Json};

verus! {

/// One child partition of a device. A field the tool left blank is empty.
#[derive(Debug, Clone, PartialEq, Eq)]
pub struct PartitionInfo {
    pub name: String,
    pub fs: String,
    pub mount: String,
    pub label: String,
    pub size: String,
}

/// One block device at the time it was queried. The partitions stand in
/// the order in which the tool reported them.
#[derive(Debug, Clone, PartialEq, Eq)]
pub struct DeviceInfo {
    pub name: String,
    pub model: String,
    pub size: String,
    pub partitions: Vec<PartitionInfo>,
}

/// The mathematical content of a `PartitionInfo`.
pub ghost struct PartitionView {
    pub name: Seq<char>,
    pub fs: Seq<char>,
    pub mount: Seq<char>,
    pub label: Seq<char>,
    pub size: Seq<char>,
}

/// The mathematical content of a `DeviceInfo`.
pub ghost struct DeviceView {
    pub name: Seq<char>,
    pub model: Seq<char>,
    pub size: Seq<char>,
    pub partitions: Seq<PartitionView>,
}

impl View for PartitionInfo {
    type V = PartitionView;

    open spec fn view(&self) -> PartitionView {
        PartitionView {
            name: self.name@,
            fs: self.fs@,
            mount: self.mount@,
            label: self.label@,
            size: self.size@,
        }
    }
}

impl View for DeviceInfo {
    type V = DeviceView;

    open spec fn view(&self) -> DeviceView {
        DeviceView {
            name: self.name@,
            model: self.model@,
            size: self.size@,
            partitions: partition_views(self.partitions@),
        }
    }
}

/// The contents of a list of partitions, in its order.
pub open spec fn partition_views(partitions: Seq<PartitionInfo>) -> Seq<PartitionView> {
    Seq::new(partitions.len(), |i: int| partitions[i]@)
}

/// Why a target could not be resolved to a device snapshot.
#[derive(Debug, Clone, Copy, PartialEq, Eq, Structural)]
pub enum ResolveError {
    /// The tool said that the target is no block device.
    NotABlockDevice,
    /// The tool could not be run, or ended with any other failure.
    QueryFailed,
    /// The tool's answer is not a document of the expected shape.
    MalformedOutput,
}

/// What is said to the user about each error.
pub open spec fn resolve_error_text(error: ResolveError) -> Seq<char> {
    match error {
        ResolveError::NotABlockDevice => "the target is not a block device"@,
        ResolveError::QueryFailed => "the block devices could not be listed"@,
        ResolveError::MalformedOutput => "the listing of block devices could not be understood"@,
    }
}

impl ResolveError {
    /// A short description of the error, for a message to the user.
    pub fn message(&self) -> (text: &'static str)
        ensures
            text@ == resolve_error_text(*self),
    {
        match self {
            ResolveError::NotABlockDevice => "the target is not a block device",
            ResolveError::QueryFailed => "the block devices could not be listed",
            ResolveError::MalformedOutput => "the listing of block devices could not be understood",
        }
    }
}

/// The value of the first member of `members` whose key is `key`.
pub open spec fn member(members: Seq<(String, Json)>, key: Seq<char>) -> Option<Json>
    decreases members.len(),
{
    if members.len() == 0 {
        None
    } else if members[0].0@ == key {
        Some(members[0].1)
    } else {
        member(members.drop_first(), key)
    }
}

/// Looks a member of an object up by its key.
pub fn find_member<'a>(members: &'a Vec<(String, Json)>, key: &str) -> (found: Option<&'a Json>)
    ensures
        match member(members@, key@) {
            Some(value) => found == Some(&value),
            None => found is None,
        },
{
    let wanted: String = key.to_owned();
    let mut i: usize = 0;
    assert(members@.skip(0) =~= members@);
    while i < members.len()
        invariant
            i <= members.len(),
            wanted@ == key@,
            member(members@, key@) == member(members@.skip(i as int), key@),
        decreases members.len() - i,
    {
        let ghost rest = members@.skip(i as int);
        assert(rest[0] == members@[i as int]);
        assert(rest.drop_first() =~= members@.skip(i + 1));
        if members[i].0 == wanted {
            return Some(&members[i].1);
        }
        i += 1;
    }
    assert(members@.skip(i as int).len() == 0);
    None
}

/// The exit status with which the enumeration tool says that its argument
/// is no block device.
pub const NOT_A_BLOCK_DEVICE: i32 = 32;

/// The text of a member that has to be there: a JSON string.
pub open spec fn required_text(members: Seq<(String, Json)>, key: Seq<char>) -> Option<Seq<char>> {
    match member(members, key) {
        Some(Json::Text(text)) => Some(text@),
        _ => None,
    }
}

/// The text of a member that may be blank: a JSON string, or nothing where
/// the member is absent or null. Any other value does not fit.
pub open spec fn optional_text(members: Seq<(String, Json)>, key: Seq<char>) -> Option<Seq<char>> {
    match member(members, key) {
        None => Some(Seq::empty()),
        Some(Json::Null) => Some(Seq::empty()),
        Some(Json::Text(text)) => Some(text@),
        _ => None,
    }
}

/// The partition that a JSON value describes, if it describes one: an
/// object with the strings `name` and `size`, and with `fstype`,
/// `mountpoint` and `label` as strings or blank.
pub open spec fn partition_of(value: Json) -> Option<PartitionView> {
    match value {
        Json::Object(members) => {
            let name = required_text(members@, "name"@);
            let fs = optional_text(members@, "fstype"@);
            let mount = optional_text(members@, "mountpoint"@);
            let label = optional_text(members@, "label"@);
            let size = required_text(members@, "size"@);
            if name is Some && fs is Some && mount is Some && label is Some && size is Some {
                Some(
                    PartitionView {
                        name: name.unwrap(),
                        fs: fs.unwrap(),
                        mount: mount.unwrap(),
                        label: label.unwrap(),
                        size: size.unwrap(),
                    },
                )
            } else {
                None
            }
        },
        _ => None,
    }
}

/// The partitions that a list of JSON values describes, in the list's
/// order, if every one of them describes a partition.
pub open spec fn partitions_of(items: Seq<Json>) -> Option<Seq<PartitionView>> {
    if forall|i: int| 0 <= i < items.len() ==> (#[trigger] partition_of(items[i])) is Some {
        Some(Seq::new(items.len(), |i: int| partition_of(items[i]).unwrap()))
    } else {
        None
    }
}

/// The partitions under a device's `children` member: none where the
/// member is absent or null, else what its array describes.
pub open spec fn children_of(members: Seq<(String, Json)>) -> Option<Seq<PartitionView>> {
    match member(members, "children"@) {
        None => Some(Seq::empty()),
        Some(Json::Null) => Some(Seq::empty()),
        Some(Json::Array(items)) => partitions_of(items@),
        _ => None,
    }
}

/// The device that a JSON value describes, if it describes one: an object
/// with the strings `name` and `size`, with `model` as a string or blank,
/// and with well-formed `children`.
pub open spec fn device_of(value: Json) -> Option<DeviceView> {
    match value {
        Json::Object(members) => {
            let name = required_text(members@, "name"@);
            let model = optional_text(members@, "model"@);
            let size = required_text(members@, "size"@);
            let partitions = children_of(members@);
            if name is Some && model is Some && size is Some && partitions is Some {
                Some(
                    DeviceView {
                        name: name.unwrap(),
                        model: model.unwrap(),
                        size: size.unwrap(),
                        partitions: partitions.unwrap(),
                    },
                )
            } else {
                None
            }
        },
        _ => None,
    }
}

/// The device that a whole document describes: the first entry of the
/// `blockdevices` array of its top-level object.
pub open spec fn first_device(document: Json) -> Option<DeviceView> {
    match document {
        Json::Object(members) => match member(members@, "blockdevices"@) {
            Some(Json::Array(devices)) => if devices@.len() > 0 {
                device_of(devices@[0])
            } else {
                None
            },
            _ => None,
        },
        _ => None,
    }
}

/// What a query resolves to, given the tool's exit status (`None` where it
/// had none) and what it wrote.
pub open spec fn resolution(status: Option<i32>, output: Seq<u8>) -> Result<DeviceView, ResolveError> {
    if status == Some(NOT_A_BLOCK_DEVICE) {
        Err(ResolveError::NotABlockDevice)
    } else if status != Some(0i32) {
        Err(ResolveError::QueryFailed)
    } else {
        match parsed_json(output) {
            Some(document) => match first_device(document) {
                Some(device) => Ok(device),
                None => Err(ResolveError::MalformedOutput),
            },
            None => Err(ResolveError::MalformedOutput),
        }
    }
}

/// Reads a member that has to be there as text.
fn read_required(members: &Vec<(String, Json)>, key: &str) -> (text: Option<String>)
    ensures
        match required_text(members@, key@) {
            Some(expected) => text is Some && text.unwrap()@ == expected,
            None => text is None,
        },
{
    match find_member(members, key) {
        Some(Json::Text(text)) => Some(text.clone()),
        _ => None,
    }
}

/// Reads a member that may be blank as text.
fn read_optional(members: &Vec<(String, Json)>, key: &str) -> (text: Option<String>)
    ensures
        match optional_text(members@, key@) {
            Some(expected) => text is Some && text.unwrap()@ == expected,
            None => text is None,
        },
{
    match find_member(members, key) {
        None => Some(String::new()),
        Some(Json::Null) => Some(String::new()),
        Some(Json::Text(text)) => Some(text.clone()),
        _ => None,
    }
}

/// Reads one partition out of an entry of `children`.
fn read_partition(value: &Json) -> (partition: Option<PartitionInfo>)
    ensures
        match partition_of(*value) {
            Some(expected) => partition is Some && partition.unwrap()@ == expected,
            None => partition is None,
        },
{
    match value {
        Json::Object(members) => {
            let name = read_required(members, "name");
            let fs = read_optional(members, "fstype");
            let mount = read_optional(members, "mountpoint");
            let label = read_optional(members, "label");
            let size = read_required(members, "size");
            match (name, fs, mount, label, size) {
                (Some(name), Some(fs), Some(mount), Some(label), Some(size)) => Some(
                    PartitionInfo { name, fs, mount, label, size },
                ),
                _ => None,
            }
        },
        _ => None,
    }
}

/// Reads every partition of a list, or none if one of them does not fit.
fn read_partitions(items: &Vec<Json>) -> (partitions: Option<Vec<PartitionInfo>>)
    ensures
        match partitions_of(items@) {
            Some(expected) => partitions is Some && partition_views(partitions.unwrap()@)
                == expected,
            None => partitions is None,
        },
{
    let mut partitions: Vec<PartitionInfo> = Vec::new();
    let mut i: usize = 0;
    while i < items.len()
        invariant
            i <= items.len(),
            partitions@.len() == i,
            forall|k: int| 0 <= k < i ==> (#[trigger] partition_of(items@[k])) is Some,
            forall|k: int|
                0 <= k < i ==> (#[trigger] partitions@[k])@ == partition_of(items@[k]).unwrap(),
        decreases items.len() - i,
    {
        match read_partition(&items[i]) {
            Some(partition) => {
                partitions.push(partition);
            },
            None => {
                assert(partition_of(items@[i as int]) is None);
                return None;
            },
        }
        i += 1;
    }
    assert(partition_views(partitions@) =~= partitions_of(items@).unwrap());
    Some(partitions)
}

/// Reads the partitions of a device out of its members.
fn read_children(members: &Vec<(String, Json)>) -> (partitions: Option<Vec<PartitionInfo>>)
    ensures
        match children_of(members@) {
            Some(expected) => partitions is Some && partition_views(partitions.unwrap()@)
                == expected,
            None => partitions is None,
        },
{
    match find_member(members, "children") {
        None => Some(Vec::new()),
        Some(Json::Null) => Some(Vec::new()),
        Some(Json::Array(items)) => read_partitions(items),
        _ => None,
    }
}

/// Reads one device out of an entry of `blockdevices`.
fn read_device(value: &Json) -> (device: Option<DeviceInfo>)
    ensures
        match device_of(*value) {
            Some(expected) => device is Some && device.unwrap()@ == expected,
            None => device is None,
        },
{
    match value {
        Json::Object(members) => {
            let name = read_required(members, "name");
            let model = read_optional(members, "model");
            let size = read_required(members, "size");
            let partitions = read_children(members);
            match (name, model, size, partitions) {
                (Some(name), Some(model), Some(size), Some(partitions)) => {
                    let device = DeviceInfo { name, model, size, partitions };
                    Some(device)
                },
                _ => None,
            }
        },
        _ => None,
    }
}

impl DeviceInfo {
    /// Reads the snapshot out of a parsed answer of the enumeration tool.
    /// An answer that names no device, or whose shape is not the expected
    /// one, is malformed: no snapshot is made up for it.
    pub fn from_json(document: &Json) -> (snapshot: Result<DeviceInfo, ResolveError>)
        ensures
            match first_device(*document) {
                Some(expected) => snapshot is Ok && snapshot.unwrap()@ == expected,
                None => snapshot == Err::<DeviceInfo, ResolveError>(ResolveError::MalformedOutput),
            },
    {
        match document {
            Json::Object(members) => match find_member(members, "blockdevices") {
                Some(Json::Array(devices)) => {
                    if devices.len() > 0 {
                        match read_device(&devices[0]) {
                            Some(device) => Ok(device),
                            None => Err(ResolveError::MalformedOutput),
                        }
                    } else {
                        Err(ResolveError::MalformedOutput)
                    }
                },
                _ => Err(ResolveError::MalformedOutput),
            },
            _ => Err(ResolveError::MalformedOutput),
        }
    }

    /// Resolves one query of the enumeration tool to a snapshot, from the
    /// tool's exit status (`None` where it ended without one) and the bytes
    /// it wrote. The status for "no block device" is told apart from every
    /// other failure; only a successful query is parsed.
    pub fn new(status: Option<i32>, output: &[u8]) -> (snapshot: Result<DeviceInfo, ResolveError>)
        ensures
            match resolution(status, output@) {
                Ok(expected) => snapshot is Ok && snapshot.unwrap()@ == expected,
                Err(error) => snapshot == Err::<DeviceInfo, ResolveError>(error),
            },
    {
        match status {
            Some(code) => {
                if code == NOT_A_BLOCK_DEVICE {
                    return Err(ResolveError::NotABlockDevice);
                }
                if code != 0 {
                    return Err(ResolveError::QueryFailed);
                }
            },
            None => {
                return Err(ResolveError::QueryFailed);
            },
        }
        match parse_json(output) {
            Some(document) => DeviceInfo::from_json(&document),
            None => Err(ResolveError::MalformedOutput),
        }
    }
}

} // verus!
