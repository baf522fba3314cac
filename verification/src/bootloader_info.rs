//! Application and partition information shown at boot.

use vstd::prelude::*;

verus! {

/// Name and version of the running application.
pub struct AppInfo {
    pub name: &'static str,
    pub version: &'static str,
}

/// Name and size of one flash partition.
pub struct PartitionInfo {
    pub name: &'static str,
    pub size: &'static str,
}

/// The partitions that are reported, as name and size.
pub open spec fn partition_table() -> Seq<(Seq<char>, Seq<char>)> {
    seq![("app"@, "1MB"@), ("data"@, "512KB"@), ("ota_0"@, "1MB"@), ("ota_1"@, "1MB"@)]
}

/// Application information from the name and version that the package was
/// built with.
pub fn get_app_info(name: &'static str, version: &'static str) -> (info: AppInfo)
    ensures
        info.name@ == name@,
        info.version@ == version@,
{
    AppInfo { name, version }
}

/// The partition table, limited to the four entries that fit on the display.
pub fn get_partition_info() -> (partitions: [PartitionInfo; 4])
    ensures
        forall|i: int|
            0 <= i < 4 ==> (#[trigger] partitions@[i]).name@ == partition_table()[i].0
                && partitions@[i].size@ == partition_table()[i].1,
{
    [
        PartitionInfo { name: "app", size: "1MB" },
        PartitionInfo { name: "data", size: "512KB" },
        PartitionInfo { name: "ota_0", size: "1MB" },
        PartitionInfo { name: "ota_1", size: "1MB" },
    ]
}

/// The partitions as pairs of name and size, in the same order.
pub fn partition_info_to_tuples(partitions: &[PartitionInfo; 4]) -> (rows: [(&str, &str); 4])
    ensures
        forall|i: int|
            0 <= i < 4 ==> (#[trigger] rows@[i]).0@ == partitions@[i].name@ && rows@[i].1@
                == partitions@[i].size@,
{
    [
        (partitions[0].name, partitions[0].size),
        (partitions[1].name, partitions[1].size),
        (partitions[2].name, partitions[2].size),
        (partitions[3].name, partitions[3].size),
    ]
}

} // verus!
