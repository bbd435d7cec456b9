//! The discovery report: what the device says it supports, one line per
//! property, as the `discovery` command prints it.
use crate::text::{
    bool_str, bool_text, decimal, decimal_string, law_bool_text_injective, law_decimal_injective,
    law_prefix_cancel,
};
use vstd::prelude::*;

verus! {

/// The arguments of the `discovery` command.
pub struct DiscoveryArgs {
    /// The device to query (e.g., /dev/nvme0).
    pub device: String,
}

/// The data-removal mechanisms that a device supports.
#[derive(Clone, Copy, Debug, PartialEq, Eq, Structural)]
pub struct SupportedDataRemovalMechanism {
    pub overwrite: bool,
    pub block_erase: bool,
    pub crypto_erase: bool,
    pub vendor_erase: bool,
}

/// The TPer feature (transport capabilities) of the discovery data.
#[derive(Debug)]
pub struct TPerDescriptor {
    pub com_id_mgmt_supported: bool,
    pub streaming_supported: bool,
    pub buffer_mgmt_supported: bool,
    pub ack_nak_supported: bool,
    pub async_supported: bool,
    pub sync_supported: bool,
}

/// The Locking feature of the discovery data.
#[derive(Debug)]
pub struct LockingDescriptor {
    pub locking_supported: bool,
    pub locking_enabled: bool,
    pub locked: bool,
    pub media_encryption: bool,
    pub mbr_enabled: bool,
    pub mbr_done: bool,
    pub mbr_shadowing_not_supported: bool,
    pub hw_reset_supported: bool,
}

/// The Geometry Reporting feature of the discovery data.
#[derive(Debug)]
pub struct GeometryDescriptor {
    pub align: bool,
    pub logical_block_size: u64,
    pub alignment_granularity: u64,
    pub lowest_aligned_lba: u64,
}

/// The Supported Data Removal Mechanism feature of the discovery data.
#[derive(Debug)]
pub struct DataRemovalDescriptor {
    pub processing: bool,
    pub interrupted: bool,
    pub supported_mechanism: SupportedDataRemovalMechanism,
}

/// The Block SID Authentication feature of the discovery data.
#[derive(Debug)]
pub struct BlockSIDAuthDescriptor {
    pub locking_sp_frozen: bool,
    pub locking_sp_freeze_supported: bool,
    pub sid_authentication_blocked: bool,
    pub sid_msid_pin_differ: bool,
    pub hw_reset_unblocks: bool,
}

/// The Opal SSC V2 feature of the discovery data.
#[derive(Debug)]
pub struct OpalV2Descriptor {
    pub base_com_id: u64,
    pub num_com_ids: u64,
    pub no_range_crossing: bool,
    pub num_locking_admins_supported: u64,
    pub num_locking_users_supported: u64,
    /// Its `{:?}` form.
    pub initial_owner_pw: String,
    /// Its `{:?}` form.
    pub reverted_owner_pw: String,
}

/// The Pyrite SSC V1 feature of the discovery data.
#[derive(Debug)]
pub struct PyriteV1Descriptor {
    pub base_com_id: u64,
    pub num_com_ids: u64,
    /// Its `{:?}` form.
    pub initial_owner_pw: String,
    /// Its `{:?}` form.
    pub reverted_owner_pw: String,
}

/// The Pyrite SSC V2 feature of the discovery data.
#[derive(Debug)]
pub struct PyriteV2Descriptor {
    pub base_com_id: u64,
    pub num_com_ids: u64,
    /// Its `{:?}` form.
    pub initial_owner_pw: String,
    /// Its `{:?}` form.
    pub reverted_owner_pw: String,
}

/// The Enterprise SSC feature of the discovery data.
#[derive(Debug)]
pub struct EnterpriseDescriptor {
    pub base_com_id: u64,
    pub num_com_ids: u64,
    pub no_range_crossing: bool,
}

/// The Opal SSC V1 feature of the discovery data.
#[derive(Debug)]
pub struct OpalV1Descriptor {
    pub base_com_id: u64,
    pub num_com_ids: u64,
    pub no_range_crossing: bool,
}

/// The Opalite SSC feature of the discovery data.
#[derive(Debug)]
pub struct OpaliteDescriptor {
    pub base_com_id: u64,
    pub num_com_ids: u64,
    /// Its `{:?}` form.
    pub initial_owner_pw: String,
    /// Its `{:?}` form.
    pub reverted_owner_pw: String,
}

/// The Ruby SSC feature of the discovery data.
#[derive(Debug)]
pub struct RubyDescriptor {
    pub base_com_id: u64,
    pub num_com_ids: u64,
    pub no_range_crossing: bool,
    pub num_locking_admins_supported: u64,
    pub num_locking_users_supported: u64,
    /// Its `{:?}` form.
    pub initial_owner_pw: String,
    /// Its `{:?}` form.
    pub reverted_owner_pw: String,
}

/// The Key Per I/O SSC feature of the discovery data.
#[derive(Debug)]
pub struct KeyPerIODescriptor {
    pub base_com_id_p1: u64,
    pub num_com_ids_p1: u64,
    pub base_com_id_p3: u64,
    pub num_com_ids_p3: u64,
}

/// The Additional DataStore Tables feature of the discovery data.
#[derive(Debug)]
pub struct AdditionalDataStoreTablesDescriptor {
    pub max_num_tables: u64,
    pub max_total_size_of_tables: u64,
    pub table_size_alignment: u64,
}

/// The feature that this tool does not know of the discovery data.
#[derive(Debug)]
pub struct UnrecognizedDescriptor {
    pub length: u64,
}

/// One feature descriptor of the discovery data.
#[derive(Debug)]
pub enum FeatureDescriptor {
    TPer(TPerDescriptor),
    Locking(LockingDescriptor),
    Geometry(GeometryDescriptor),
    DataRemoval(DataRemovalDescriptor),
    BlockSIDAuth(BlockSIDAuthDescriptor),
    OpalV2(OpalV2Descriptor),
    PyriteV1(PyriteV1Descriptor),
    PyriteV2(PyriteV2Descriptor),
    Enterprise(EnterpriseDescriptor),
    OpalV1(OpalV1Descriptor),
    Opalite(OpaliteDescriptor),
    Ruby(RubyDescriptor),
    KeyPerIO(KeyPerIODescriptor),
    AdditionalDataStoreTables(AdditionalDataStoreTablesDescriptor),
    Unrecognized(UnrecognizedDescriptor),
}

/// A feature of the discovery data: its feature code (as it is displayed),
/// its version and its descriptor.
#[derive(Debug)]
pub struct Feature {
    pub code: String,
    pub version: u64,
    pub descriptor: FeatureDescriptor,
}

/// The discovery data of a device: its features, in the order the device
/// reports them.
#[derive(Debug)]
pub struct Discovery {
    pub features: Vec<Feature>,
}

impl Discovery {
    /// Discovery data with the given features.
    pub fn new(features: Vec<Feature>) -> (r: Self)
        ensures
            r.features@ == features@,
    {
        Discovery { features }
    }
}

/// The texts of a sequence of strings.
pub open spec fn lines_view(v: Seq<String>) -> Seq<Seq<char>> {
    v.map_values(|s: String| s@)
}

fn push_line(lines: &mut Vec<String>, line: String)
    ensures
        lines_view(final(lines)@) == lines_view(old(lines)@).push(line@),
{
    let ghost before = lines@;
    lines.push(line);
    assert(lines_view(lines@) =~= lines_view(before).push(line@));
}

fn bool_line(label: &str, value: bool) -> (r: String)
    ensures
        r@ == label@ + bool_text(value),
{
    let mut s = String::from_str(label);
    s.append(bool_str(value));
    s
}

fn number_line(label: &str, value: u64) -> (r: String)
    ensures
        r@ == label@ + decimal(value as nat),
{
    let mut s = String::from_str(label);
    let d = decimal_string(value);
    s.append(d.as_str());
    s
}

fn text_line(label: &str, value: &String) -> (r: String)
    ensures
        r@ == label@ + value@,
{
    let mut s = String::from_str(label);
    s.append(value.as_str());
    s
}

/// The lines that describe the TPer feature (transport capabilities).
pub open spec fn tper_lines(d: TPerDescriptor) -> Seq<Seq<char>> {
    seq![
        "  ComID Management Supported: "@ + bool_text(d.com_id_mgmt_supported),
        "  Streaming Supported: "@ + bool_text(d.streaming_supported),
        "  Buffer Management Supported: "@ + bool_text(d.buffer_mgmt_supported),
        "  ACK/NAK Supported: "@ + bool_text(d.ack_nak_supported),
        "  Async Supported: "@ + bool_text(d.async_supported),
        "  Sync Supported: "@ + bool_text(d.sync_supported),
    ]
}

fn push_tper_lines(d: &TPerDescriptor, lines: &mut Vec<String>)
    ensures
        lines_view(final(lines)@) == lines_view(old(lines)@) + tper_lines(*d),
{
    push_line(lines, bool_line("  ComID Management Supported: ", d.com_id_mgmt_supported));
    push_line(lines, bool_line("  Streaming Supported: ", d.streaming_supported));
    push_line(lines, bool_line("  Buffer Management Supported: ", d.buffer_mgmt_supported));
    push_line(lines, bool_line("  ACK/NAK Supported: ", d.ack_nak_supported));
    push_line(lines, bool_line("  Async Supported: ", d.async_supported));
    push_line(lines, bool_line("  Sync Supported: ", d.sync_supported));
    assert(lines_view(lines@) =~= lines_view(old(lines)@) + tper_lines(*d));
}

/// The lines that describe the Locking feature.
pub open spec fn locking_lines(d: LockingDescriptor) -> Seq<Seq<char>> {
    seq![
        "  Locking Supported: "@ + bool_text(d.locking_supported),
        "  Locking Enabled: "@ + bool_text(d.locking_enabled),
        "  Locked: "@ + bool_text(d.locked),
        "  Media Encryption: "@ + bool_text(d.media_encryption),
        "  MBR Enabled: "@ + bool_text(d.mbr_enabled),
        "  MBR Done: "@ + bool_text(d.mbr_done),
        "  MBR Shadowing Not Supported: "@ + bool_text(d.mbr_shadowing_not_supported),
        "  HW Reset Supported: "@ + bool_text(d.hw_reset_supported),
    ]
}

fn push_locking_lines(d: &LockingDescriptor, lines: &mut Vec<String>)
    ensures
        lines_view(final(lines)@) == lines_view(old(lines)@) + locking_lines(*d),
{
    push_line(lines, bool_line("  Locking Supported: ", d.locking_supported));
    push_line(lines, bool_line("  Locking Enabled: ", d.locking_enabled));
    push_line(lines, bool_line("  Locked: ", d.locked));
    push_line(lines, bool_line("  Media Encryption: ", d.media_encryption));
    push_line(lines, bool_line("  MBR Enabled: ", d.mbr_enabled));
    push_line(lines, bool_line("  MBR Done: ", d.mbr_done));
    push_line(lines, bool_line("  MBR Shadowing Not Supported: ", d.mbr_shadowing_not_supported));
    push_line(lines, bool_line("  HW Reset Supported: ", d.hw_reset_supported));
    assert(lines_view(lines@) =~= lines_view(old(lines)@) + locking_lines(*d));
}

/// The lines that describe the Geometry Reporting feature.
pub open spec fn geometry_lines(d: GeometryDescriptor) -> Seq<Seq<char>> {
    seq![
        "  Align: "@ + bool_text(d.align),
        "  Logical Block Size: "@ + decimal(d.logical_block_size as nat),
        "  Alignment Granularity: "@ + decimal(d.alignment_granularity as nat),
        "  Lowest Aligned LBA: "@ + decimal(d.lowest_aligned_lba as nat),
    ]
}

fn push_geometry_lines(d: &GeometryDescriptor, lines: &mut Vec<String>)
    ensures
        lines_view(final(lines)@) == lines_view(old(lines)@) + geometry_lines(*d),
{
    push_line(lines, bool_line("  Align: ", d.align));
    push_line(lines, number_line("  Logical Block Size: ", d.logical_block_size));
    push_line(lines, number_line("  Alignment Granularity: ", d.alignment_granularity));
    push_line(lines, number_line("  Lowest Aligned LBA: ", d.lowest_aligned_lba));
    assert(lines_view(lines@) =~= lines_view(old(lines)@) + geometry_lines(*d));
}

/// The lines that describe the Supported Data Removal Mechanism feature.
pub open spec fn data_removal_lines(d: DataRemovalDescriptor) -> Seq<Seq<char>> {
    seq![
        "  Processing: "@ + bool_text(d.processing),
        "  Interrupted: "@ + bool_text(d.interrupted),
        "  Supported Mechanisms:"@,
        "    Overwrite: "@ + bool_text(d.supported_mechanism.overwrite),
        "    Block Erase: "@ + bool_text(d.supported_mechanism.block_erase),
        "    Crypto Erase: "@ + bool_text(d.supported_mechanism.crypto_erase),
        "    Vendor Erase: "@ + bool_text(d.supported_mechanism.vendor_erase),
    ]
}

fn push_data_removal_lines(d: &DataRemovalDescriptor, lines: &mut Vec<String>)
    ensures
        lines_view(final(lines)@) == lines_view(old(lines)@) + data_removal_lines(*d),
{
    push_line(lines, bool_line("  Processing: ", d.processing));
    push_line(lines, bool_line("  Interrupted: ", d.interrupted));
    push_line(lines, String::from_str("  Supported Mechanisms:"));
    push_line(lines, bool_line("    Overwrite: ", d.supported_mechanism.overwrite));
    push_line(lines, bool_line("    Block Erase: ", d.supported_mechanism.block_erase));
    push_line(lines, bool_line("    Crypto Erase: ", d.supported_mechanism.crypto_erase));
    push_line(lines, bool_line("    Vendor Erase: ", d.supported_mechanism.vendor_erase));
    assert(lines_view(lines@) =~= lines_view(old(lines)@) + data_removal_lines(*d));
}

/// The lines that describe the Block SID Authentication feature.
pub open spec fn block_sidauth_lines(d: BlockSIDAuthDescriptor) -> Seq<Seq<char>> {
    seq![
        "  Locking SP Frozen: "@ + bool_text(d.locking_sp_frozen),
        "  Locking SP Freeze Supported: "@ + bool_text(d.locking_sp_freeze_supported),
        "  SID Authentication Blocked: "@ + bool_text(d.sid_authentication_blocked),
        "  SID/MSID PIN Differ: "@ + bool_text(d.sid_msid_pin_differ),
        "  HW Reset Unblocks: "@ + bool_text(d.hw_reset_unblocks),
    ]
}

fn push_block_sidauth_lines(d: &BlockSIDAuthDescriptor, lines: &mut Vec<String>)
    ensures
        lines_view(final(lines)@) == lines_view(old(lines)@) + block_sidauth_lines(*d),
{
    push_line(lines, bool_line("  Locking SP Frozen: ", d.locking_sp_frozen));
    push_line(lines, bool_line("  Locking SP Freeze Supported: ", d.locking_sp_freeze_supported));
    push_line(lines, bool_line("  SID Authentication Blocked: ", d.sid_authentication_blocked));
    push_line(lines, bool_line("  SID/MSID PIN Differ: ", d.sid_msid_pin_differ));
    push_line(lines, bool_line("  HW Reset Unblocks: ", d.hw_reset_unblocks));
    assert(lines_view(lines@) =~= lines_view(old(lines)@) + block_sidauth_lines(*d));
}

/// The lines that describe the Opal SSC V2 feature.
pub open spec fn opal_v2_lines(d: OpalV2Descriptor) -> Seq<Seq<char>> {
    seq![
        "  Base ComID: "@ + decimal(d.base_com_id as nat),
        "  Num ComIDs: "@ + decimal(d.num_com_ids as nat),
        "  No Range Crossing: "@ + bool_text(d.no_range_crossing),
        "  Num Locking Admins: "@ + decimal(d.num_locking_admins_supported as nat),
        "  Num Locking Users: "@ + decimal(d.num_locking_users_supported as nat),
        "  Initial Owner Password: "@ + d.initial_owner_pw@,
        "  Reverted Owner Password: "@ + d.reverted_owner_pw@,
    ]
}

fn push_opal_v2_lines(d: &OpalV2Descriptor, lines: &mut Vec<String>)
    ensures
        lines_view(final(lines)@) == lines_view(old(lines)@) + opal_v2_lines(*d),
{
    push_line(lines, number_line("  Base ComID: ", d.base_com_id));
    push_line(lines, number_line("  Num ComIDs: ", d.num_com_ids));
    push_line(lines, bool_line("  No Range Crossing: ", d.no_range_crossing));
    push_line(lines, number_line("  Num Locking Admins: ", d.num_locking_admins_supported));
    push_line(lines, number_line("  Num Locking Users: ", d.num_locking_users_supported));
    push_line(lines, text_line("  Initial Owner Password: ", &d.initial_owner_pw));
    push_line(lines, text_line("  Reverted Owner Password: ", &d.reverted_owner_pw));
    assert(lines_view(lines@) =~= lines_view(old(lines)@) + opal_v2_lines(*d));
}

/// The lines that describe the Pyrite SSC V1 feature.
pub open spec fn pyrite_v1_lines(d: PyriteV1Descriptor) -> Seq<Seq<char>> {
    seq![
        "  Base ComID: "@ + decimal(d.base_com_id as nat),
        "  Num ComIDs: "@ + decimal(d.num_com_ids as nat),
        "  Initial Owner Password: "@ + d.initial_owner_pw@,
        "  Reverted Owner Password: "@ + d.reverted_owner_pw@,
    ]
}

fn push_pyrite_v1_lines(d: &PyriteV1Descriptor, lines: &mut Vec<String>)
    ensures
        lines_view(final(lines)@) == lines_view(old(lines)@) + pyrite_v1_lines(*d),
{
    push_line(lines, number_line("  Base ComID: ", d.base_com_id));
    push_line(lines, number_line("  Num ComIDs: ", d.num_com_ids));
    push_line(lines, text_line("  Initial Owner Password: ", &d.initial_owner_pw));
    push_line(lines, text_line("  Reverted Owner Password: ", &d.reverted_owner_pw));
    assert(lines_view(lines@) =~= lines_view(old(lines)@) + pyrite_v1_lines(*d));
}

/// The lines that describe the Pyrite SSC V2 feature.
pub open spec fn pyrite_v2_lines(d: PyriteV2Descriptor) -> Seq<Seq<char>> {
    seq![
        "  Base ComID: "@ + decimal(d.base_com_id as nat),
        "  Num ComIDs: "@ + decimal(d.num_com_ids as nat),
        "  Initial Owner Password: "@ + d.initial_owner_pw@,
        "  Reverted Owner Password: "@ + d.reverted_owner_pw@,
    ]
}

fn push_pyrite_v2_lines(d: &PyriteV2Descriptor, lines: &mut Vec<String>)
    ensures
        lines_view(final(lines)@) == lines_view(old(lines)@) + pyrite_v2_lines(*d),
{
    push_line(lines, number_line("  Base ComID: ", d.base_com_id));
    push_line(lines, number_line("  Num ComIDs: ", d.num_com_ids));
    push_line(lines, text_line("  Initial Owner Password: ", &d.initial_owner_pw));
    push_line(lines, text_line("  Reverted Owner Password: ", &d.reverted_owner_pw));
    assert(lines_view(lines@) =~= lines_view(old(lines)@) + pyrite_v2_lines(*d));
}

/// The lines that describe the Enterprise SSC feature.
pub open spec fn enterprise_lines(d: EnterpriseDescriptor) -> Seq<Seq<char>> {
    seq![
        "  Base ComID: "@ + decimal(d.base_com_id as nat),
        "  Num ComIDs: "@ + decimal(d.num_com_ids as nat),
        "  No Range Crossing: "@ + bool_text(d.no_range_crossing),
    ]
}

fn push_enterprise_lines(d: &EnterpriseDescriptor, lines: &mut Vec<String>)
    ensures
        lines_view(final(lines)@) == lines_view(old(lines)@) + enterprise_lines(*d),
{
    push_line(lines, number_line("  Base ComID: ", d.base_com_id));
    push_line(lines, number_line("  Num ComIDs: ", d.num_com_ids));
    push_line(lines, bool_line("  No Range Crossing: ", d.no_range_crossing));
    assert(lines_view(lines@) =~= lines_view(old(lines)@) + enterprise_lines(*d));
}

/// The lines that describe the Opal SSC V1 feature.
pub open spec fn opal_v1_lines(d: OpalV1Descriptor) -> Seq<Seq<char>> {
    seq![
        "  Base ComID: "@ + decimal(d.base_com_id as nat),
        "  Num ComIDs: "@ + decimal(d.num_com_ids as nat),
        "  No Range Crossing: "@ + bool_text(d.no_range_crossing),
    ]
}

fn push_opal_v1_lines(d: &OpalV1Descriptor, lines: &mut Vec<String>)
    ensures
        lines_view(final(lines)@) == lines_view(old(lines)@) + opal_v1_lines(*d),
{
    push_line(lines, number_line("  Base ComID: ", d.base_com_id));
    push_line(lines, number_line("  Num ComIDs: ", d.num_com_ids));
    push_line(lines, bool_line("  No Range Crossing: ", d.no_range_crossing));
    assert(lines_view(lines@) =~= lines_view(old(lines)@) + opal_v1_lines(*d));
}

/// The lines that describe the Opalite SSC feature.
pub open spec fn opalite_lines(d: OpaliteDescriptor) -> Seq<Seq<char>> {
    seq![
        "  Base ComID: "@ + decimal(d.base_com_id as nat),
        "  Num ComIDs: "@ + decimal(d.num_com_ids as nat),
        "  Initial Owner Password: "@ + d.initial_owner_pw@,
        "  Reverted Owner Password: "@ + d.reverted_owner_pw@,
    ]
}

fn push_opalite_lines(d: &OpaliteDescriptor, lines: &mut Vec<String>)
    ensures
        lines_view(final(lines)@) == lines_view(old(lines)@) + opalite_lines(*d),
{
    push_line(lines, number_line("  Base ComID: ", d.base_com_id));
    push_line(lines, number_line("  Num ComIDs: ", d.num_com_ids));
    push_line(lines, text_line("  Initial Owner Password: ", &d.initial_owner_pw));
    push_line(lines, text_line("  Reverted Owner Password: ", &d.reverted_owner_pw));
    assert(lines_view(lines@) =~= lines_view(old(lines)@) + opalite_lines(*d));
}

/// The lines that describe the Ruby SSC feature.
pub open spec fn ruby_lines(d: RubyDescriptor) -> Seq<Seq<char>> {
    seq![
        "  Base ComID: "@ + decimal(d.base_com_id as nat),
        "  Num ComIDs: "@ + decimal(d.num_com_ids as nat),
        "  No Range Crossing: "@ + bool_text(d.no_range_crossing),
        "  Num Locking Admins: "@ + decimal(d.num_locking_admins_supported as nat),
        "  Num Locking Users: "@ + decimal(d.num_locking_users_supported as nat),
        "  Initial Owner Password: "@ + d.initial_owner_pw@,
        "  Reverted Owner Password: "@ + d.reverted_owner_pw@,
    ]
}

fn push_ruby_lines(d: &RubyDescriptor, lines: &mut Vec<String>)
    ensures
        lines_view(final(lines)@) == lines_view(old(lines)@) + ruby_lines(*d),
{
    push_line(lines, number_line("  Base ComID: ", d.base_com_id));
    push_line(lines, number_line("  Num ComIDs: ", d.num_com_ids));
    push_line(lines, bool_line("  No Range Crossing: ", d.no_range_crossing));
    push_line(lines, number_line("  Num Locking Admins: ", d.num_locking_admins_supported));
    push_line(lines, number_line("  Num Locking Users: ", d.num_locking_users_supported));
    push_line(lines, text_line("  Initial Owner Password: ", &d.initial_owner_pw));
    push_line(lines, text_line("  Reverted Owner Password: ", &d.reverted_owner_pw));
    assert(lines_view(lines@) =~= lines_view(old(lines)@) + ruby_lines(*d));
}

/// The lines that describe the Key Per I/O SSC feature.
pub open spec fn key_per_io_lines(d: KeyPerIODescriptor) -> Seq<Seq<char>> {
    seq![
        "  Base ComID P1: "@ + decimal(d.base_com_id_p1 as nat),
        "  Num ComIDs P1: "@ + decimal(d.num_com_ids_p1 as nat),
        "  Base ComID P3: "@ + decimal(d.base_com_id_p3 as nat),
        "  Num ComIDs P3: "@ + decimal(d.num_com_ids_p3 as nat),
    ]
}

fn push_key_per_io_lines(d: &KeyPerIODescriptor, lines: &mut Vec<String>)
    ensures
        lines_view(final(lines)@) == lines_view(old(lines)@) + key_per_io_lines(*d),
{
    push_line(lines, number_line("  Base ComID P1: ", d.base_com_id_p1));
    push_line(lines, number_line("  Num ComIDs P1: ", d.num_com_ids_p1));
    push_line(lines, number_line("  Base ComID P3: ", d.base_com_id_p3));
    push_line(lines, number_line("  Num ComIDs P3: ", d.num_com_ids_p3));
    assert(lines_view(lines@) =~= lines_view(old(lines)@) + key_per_io_lines(*d));
}

/// The lines that describe the Additional DataStore Tables feature.
pub open spec fn additional_data_store_tables_lines(d: AdditionalDataStoreTablesDescriptor) -> Seq<Seq<char>> {
    seq![
        "  Max Num Tables: "@ + decimal(d.max_num_tables as nat),
        "  Max Total Size: "@ + decimal(d.max_total_size_of_tables as nat),
        "  Table Size Alignment: "@ + decimal(d.table_size_alignment as nat),
    ]
}

fn push_additional_data_store_tables_lines(d: &AdditionalDataStoreTablesDescriptor, lines: &mut Vec<String>)
    ensures
        lines_view(final(lines)@) == lines_view(old(lines)@) + additional_data_store_tables_lines(*d),
{
    push_line(lines, number_line("  Max Num Tables: ", d.max_num_tables));
    push_line(lines, number_line("  Max Total Size: ", d.max_total_size_of_tables));
    push_line(lines, number_line("  Table Size Alignment: ", d.table_size_alignment));
    assert(lines_view(lines@) =~= lines_view(old(lines)@) + additional_data_store_tables_lines(*d));
}

/// The lines that describe the feature that this tool does not know.
pub open spec fn unrecognized_lines(d: UnrecognizedDescriptor) -> Seq<Seq<char>> {
    seq![
        "  Length: "@ + decimal(d.length as nat),
    ]
}

fn push_unrecognized_lines(d: &UnrecognizedDescriptor, lines: &mut Vec<String>)
    ensures
        lines_view(final(lines)@) == lines_view(old(lines)@) + unrecognized_lines(*d),
{
    push_line(lines, number_line("  Length: ", d.length));
    assert(lines_view(lines@) =~= lines_view(old(lines)@) + unrecognized_lines(*d));
}

/// The lines that describe a feature descriptor.
pub open spec fn descriptor_lines(d: FeatureDescriptor) -> Seq<Seq<char>> {
    match d {
        FeatureDescriptor::TPer(x) => tper_lines(x),
        FeatureDescriptor::Locking(x) => locking_lines(x),
        FeatureDescriptor::Geometry(x) => geometry_lines(x),
        FeatureDescriptor::DataRemoval(x) => data_removal_lines(x),
        FeatureDescriptor::BlockSIDAuth(x) => block_sidauth_lines(x),
        FeatureDescriptor::OpalV2(x) => opal_v2_lines(x),
        FeatureDescriptor::PyriteV1(x) => pyrite_v1_lines(x),
        FeatureDescriptor::PyriteV2(x) => pyrite_v2_lines(x),
        FeatureDescriptor::Enterprise(x) => enterprise_lines(x),
        FeatureDescriptor::OpalV1(x) => opal_v1_lines(x),
        FeatureDescriptor::Opalite(x) => opalite_lines(x),
        FeatureDescriptor::Ruby(x) => ruby_lines(x),
        FeatureDescriptor::KeyPerIO(x) => key_per_io_lines(x),
        FeatureDescriptor::AdditionalDataStoreTables(x) => additional_data_store_tables_lines(x),
        FeatureDescriptor::Unrecognized(x) => unrecognized_lines(x),
    }
}

fn push_descriptor_lines(d: &FeatureDescriptor, lines: &mut Vec<String>)
    ensures
        lines_view(final(lines)@) == lines_view(old(lines)@) + descriptor_lines(*d),
{
    match d {
        FeatureDescriptor::TPer(x) => push_tper_lines(x, lines),
        FeatureDescriptor::Locking(x) => push_locking_lines(x, lines),
        FeatureDescriptor::Geometry(x) => push_geometry_lines(x, lines),
        FeatureDescriptor::DataRemoval(x) => push_data_removal_lines(x, lines),
        FeatureDescriptor::BlockSIDAuth(x) => push_block_sidauth_lines(x, lines),
        FeatureDescriptor::OpalV2(x) => push_opal_v2_lines(x, lines),
        FeatureDescriptor::PyriteV1(x) => push_pyrite_v1_lines(x, lines),
        FeatureDescriptor::PyriteV2(x) => push_pyrite_v2_lines(x, lines),
        FeatureDescriptor::Enterprise(x) => push_enterprise_lines(x, lines),
        FeatureDescriptor::OpalV1(x) => push_opal_v1_lines(x, lines),
        FeatureDescriptor::Opalite(x) => push_opalite_lines(x, lines),
        FeatureDescriptor::Ruby(x) => push_ruby_lines(x, lines),
        FeatureDescriptor::KeyPerIO(x) => push_key_per_io_lines(x, lines),
        FeatureDescriptor::AdditionalDataStoreTables(x) => push_additional_data_store_tables_lines(x, lines),
        FeatureDescriptor::Unrecognized(x) => push_unrecognized_lines(x, lines),
    }
}

/// The first line of a feature: its code and version.
pub open spec fn feature_header(f: Feature) -> Seq<char> {
    "Feature: "@ + f.code@ + " (Version "@ + decimal(f.version as nat) + ")"@
}

/// The lines of a feature: its header, its descriptor's lines and an empty
/// line.
pub open spec fn feature_lines(f: Feature) -> Seq<Seq<char>> {
    seq![feature_header(f)] + descriptor_lines(f.descriptor) + seq![Seq::<char>::empty()]
}

/// The lines of several features, one after the other.
pub open spec fn features_lines(fs: Seq<Feature>) -> Seq<Seq<char>>
    decreases fs.len(),
{
    if fs.len() == 0 {
        Seq::empty()
    } else {
        features_lines(fs.drop_last()) + feature_lines(fs.last())
    }
}

/// Law: the report is built feature by feature: the lines of two runs of
/// features are the lines of the first run followed by those of the second.
pub proof fn law_features_lines_concat(a: Seq<Feature>, b: Seq<Feature>)
    ensures
        features_lines(a + b) == features_lines(a) + features_lines(b),
    decreases b.len(),
{
    if b.len() == 0 {
        assert(a + b =~= a);
        assert(features_lines(a) + features_lines(b) =~= features_lines(a));
    } else {
        assert((a + b).drop_last() =~= a + b.drop_last());
        assert((a + b).last() == b.last());
        law_features_lines_concat(a, b.drop_last());
        assert(features_lines(a + b) =~= features_lines(a) + features_lines(b));
    }
}

/// The whole report: a title, an empty line, then the lines of every
/// feature in order.
pub open spec fn report_lines(fs: Seq<Feature>) -> Seq<Seq<char>> {
    seq!["Discovery Data:"@, Seq::<char>::empty()] + features_lines(fs)
}

fn push_feature_lines(f: &Feature, lines: &mut Vec<String>)
    ensures
        lines_view(final(lines)@) == lines_view(old(lines)@) + feature_lines(*f),
{
    let mut header = String::from_str("Feature: ");
    header.append(f.code.as_str());
    header.append(" (Version ");
    let v = decimal_string(f.version);
    header.append(v.as_str());
    header.append(")");
    push_line(lines, header);
    push_descriptor_lines(&f.descriptor, lines);
    push_line(lines, String::new());
    assert(lines_view(lines@) =~= lines_view(old(lines)@) + feature_lines(*f));
}

/// The report of the `discovery` command, one string per printed line.
pub fn discovery_report(discovery: &Discovery) -> (r: Vec<String>)
    ensures
        lines_view(r@) == report_lines(discovery.features@),
{
    let mut lines: Vec<String> = Vec::new();
    push_line(&mut lines, String::from_str("Discovery Data:"));
    push_line(&mut lines, String::new());
    let ghost title = seq!["Discovery Data:"@, Seq::<char>::empty()];
    assert(lines_view(lines@) =~= title);
    let n = discovery.features.len();
    let mut i: usize = 0;
    while i < n
        invariant
            n == discovery.features@.len(),
            i <= n,
            title == seq!["Discovery Data:"@, Seq::<char>::empty()],
            lines_view(lines@) == title + features_lines(discovery.features@.take(i as int)),
        decreases n - i,
    {
        push_feature_lines(&discovery.features[i], &mut lines);
        assert(discovery.features@.take(i + 1).drop_last() =~= discovery.features@.take(i as int));
        assert(lines_view(lines@) =~= title + features_lines(discovery.features@.take(i + 1)));
        i = i + 1;
    }
    assert(discovery.features@.take(n as int) =~= discovery.features@);
    lines
}

/// Law: the report is a title line and an empty line, followed by, for each
/// feature in order, a header naming its code and version, the lines of its
/// descriptor, and an empty line.
pub proof fn law_report_layout(fs: Seq<Feature>, f: Feature)
    ensures
        report_lines(fs) == seq!["Discovery Data:"@, Seq::<char>::empty()] + features_lines(fs),
        features_lines(Seq::<Feature>::empty()) == Seq::<Seq<char>>::empty(),
        features_lines(fs.push(f)) == features_lines(fs) + seq![
            "Feature: "@ + f.code@ + " (Version "@ + decimal(f.version as nat) + ")"@,
        ] + descriptor_lines(f.descriptor) + seq![Seq::<char>::empty()],
{
    assert(fs.push(f).drop_last() =~= fs);
    assert(features_lines(fs) + feature_lines(f) =~= features_lines(fs) + seq![
        "Feature: "@ + f.code@ + " (Version "@ + decimal(f.version as nat) + ")"@,
    ] + descriptor_lines(f.descriptor) + seq![Seq::<char>::empty()]);
}

/// Law: the TPer feature (transport capabilities) is shown one field per line, each line the field's
/// label followed by that field's value, in this order.
pub proof fn law_tper_lines(d: TPerDescriptor)
    ensures
        (descriptor_lines(FeatureDescriptor::TPer(d)) == seq![
            "  ComID Management Supported: "@ + (if d.com_id_mgmt_supported { "true"@ } else { "false"@ }),
            "  Streaming Supported: "@ + (if d.streaming_supported { "true"@ } else { "false"@ }),
            "  Buffer Management Supported: "@ + (if d.buffer_mgmt_supported { "true"@ } else { "false"@ }),
            "  ACK/NAK Supported: "@ + (if d.ack_nak_supported { "true"@ } else { "false"@ }),
            "  Async Supported: "@ + (if d.async_supported { "true"@ } else { "false"@ }),
            "  Sync Supported: "@ + (if d.sync_supported { "true"@ } else { "false"@ }),
        ]),
{
}

/// Law: in the lines of the TPer feature (transport capabilities), each line changes exactly when the
/// field its label names changes, whatever the other fields hold.
pub proof fn law_tper_lines_follow_fields(d1: TPerDescriptor, d2: TPerDescriptor)
    ensures
        (descriptor_lines(FeatureDescriptor::TPer(d1))[0] == descriptor_lines(
            FeatureDescriptor::TPer(d2),
        )[0]) <==> (d1.com_id_mgmt_supported == d2.com_id_mgmt_supported),
        (descriptor_lines(FeatureDescriptor::TPer(d1))[1] == descriptor_lines(
            FeatureDescriptor::TPer(d2),
        )[1]) <==> (d1.streaming_supported == d2.streaming_supported),
        (descriptor_lines(FeatureDescriptor::TPer(d1))[2] == descriptor_lines(
            FeatureDescriptor::TPer(d2),
        )[2]) <==> (d1.buffer_mgmt_supported == d2.buffer_mgmt_supported),
        (descriptor_lines(FeatureDescriptor::TPer(d1))[3] == descriptor_lines(
            FeatureDescriptor::TPer(d2),
        )[3]) <==> (d1.ack_nak_supported == d2.ack_nak_supported),
        (descriptor_lines(FeatureDescriptor::TPer(d1))[4] == descriptor_lines(
            FeatureDescriptor::TPer(d2),
        )[4]) <==> (d1.async_supported == d2.async_supported),
        (descriptor_lines(FeatureDescriptor::TPer(d1))[5] == descriptor_lines(
            FeatureDescriptor::TPer(d2),
        )[5]) <==> (d1.sync_supported == d2.sync_supported),
{
    let l1 = descriptor_lines(FeatureDescriptor::TPer(d1));
    let l2 = descriptor_lines(FeatureDescriptor::TPer(d2));
    assert((l1[0] == l2[0]) <==> (d1.com_id_mgmt_supported == d2.com_id_mgmt_supported)) by {
        law_prefix_cancel("  ComID Management Supported: "@, bool_text(d1.com_id_mgmt_supported), bool_text(d2.com_id_mgmt_supported));
        law_bool_text_injective(d1.com_id_mgmt_supported, d2.com_id_mgmt_supported);
    }
    assert((l1[1] == l2[1]) <==> (d1.streaming_supported == d2.streaming_supported)) by {
        law_prefix_cancel("  Streaming Supported: "@, bool_text(d1.streaming_supported), bool_text(d2.streaming_supported));
        law_bool_text_injective(d1.streaming_supported, d2.streaming_supported);
    }
    assert((l1[2] == l2[2]) <==> (d1.buffer_mgmt_supported == d2.buffer_mgmt_supported)) by {
        law_prefix_cancel("  Buffer Management Supported: "@, bool_text(d1.buffer_mgmt_supported), bool_text(d2.buffer_mgmt_supported));
        law_bool_text_injective(d1.buffer_mgmt_supported, d2.buffer_mgmt_supported);
    }
    assert((l1[3] == l2[3]) <==> (d1.ack_nak_supported == d2.ack_nak_supported)) by {
        law_prefix_cancel("  ACK/NAK Supported: "@, bool_text(d1.ack_nak_supported), bool_text(d2.ack_nak_supported));
        law_bool_text_injective(d1.ack_nak_supported, d2.ack_nak_supported);
    }
    assert((l1[4] == l2[4]) <==> (d1.async_supported == d2.async_supported)) by {
        law_prefix_cancel("  Async Supported: "@, bool_text(d1.async_supported), bool_text(d2.async_supported));
        law_bool_text_injective(d1.async_supported, d2.async_supported);
    }
    assert((l1[5] == l2[5]) <==> (d1.sync_supported == d2.sync_supported)) by {
        law_prefix_cancel("  Sync Supported: "@, bool_text(d1.sync_supported), bool_text(d2.sync_supported));
        law_bool_text_injective(d1.sync_supported, d2.sync_supported);
    }
}

/// Law: the Locking feature is shown one field per line, each line the field's
/// label followed by that field's value, in this order.
pub proof fn law_locking_lines(d: LockingDescriptor)
    ensures
        (descriptor_lines(FeatureDescriptor::Locking(d)) == seq![
            "  Locking Supported: "@ + (if d.locking_supported { "true"@ } else { "false"@ }),
            "  Locking Enabled: "@ + (if d.locking_enabled { "true"@ } else { "false"@ }),
            "  Locked: "@ + (if d.locked { "true"@ } else { "false"@ }),
            "  Media Encryption: "@ + (if d.media_encryption { "true"@ } else { "false"@ }),
            "  MBR Enabled: "@ + (if d.mbr_enabled { "true"@ } else { "false"@ }),
            "  MBR Done: "@ + (if d.mbr_done { "true"@ } else { "false"@ }),
            "  MBR Shadowing Not Supported: "@ + (if d.mbr_shadowing_not_supported { "true"@ } else { "false"@ }),
            "  HW Reset Supported: "@ + (if d.hw_reset_supported { "true"@ } else { "false"@ }),
        ]),
{
}

/// Law: in the lines of the Locking feature, each line changes exactly when the
/// field its label names changes, whatever the other fields hold.
pub proof fn law_locking_lines_follow_fields(d1: LockingDescriptor, d2: LockingDescriptor)
    ensures
        (descriptor_lines(FeatureDescriptor::Locking(d1))[0] == descriptor_lines(
            FeatureDescriptor::Locking(d2),
        )[0]) <==> (d1.locking_supported == d2.locking_supported),
        (descriptor_lines(FeatureDescriptor::Locking(d1))[1] == descriptor_lines(
            FeatureDescriptor::Locking(d2),
        )[1]) <==> (d1.locking_enabled == d2.locking_enabled),
        (descriptor_lines(FeatureDescriptor::Locking(d1))[2] == descriptor_lines(
            FeatureDescriptor::Locking(d2),
        )[2]) <==> (d1.locked == d2.locked),
        (descriptor_lines(FeatureDescriptor::Locking(d1))[3] == descriptor_lines(
            FeatureDescriptor::Locking(d2),
        )[3]) <==> (d1.media_encryption == d2.media_encryption),
        (descriptor_lines(FeatureDescriptor::Locking(d1))[4] == descriptor_lines(
            FeatureDescriptor::Locking(d2),
        )[4]) <==> (d1.mbr_enabled == d2.mbr_enabled),
        (descriptor_lines(FeatureDescriptor::Locking(d1))[5] == descriptor_lines(
            FeatureDescriptor::Locking(d2),
        )[5]) <==> (d1.mbr_done == d2.mbr_done),
        (descriptor_lines(FeatureDescriptor::Locking(d1))[6] == descriptor_lines(
            FeatureDescriptor::Locking(d2),
        )[6]) <==> (d1.mbr_shadowing_not_supported == d2.mbr_shadowing_not_supported),
        (descriptor_lines(FeatureDescriptor::Locking(d1))[7] == descriptor_lines(
            FeatureDescriptor::Locking(d2),
        )[7]) <==> (d1.hw_reset_supported == d2.hw_reset_supported),
{
    let l1 = descriptor_lines(FeatureDescriptor::Locking(d1));
    let l2 = descriptor_lines(FeatureDescriptor::Locking(d2));
    assert((l1[0] == l2[0]) <==> (d1.locking_supported == d2.locking_supported)) by {
        law_prefix_cancel("  Locking Supported: "@, bool_text(d1.locking_supported), bool_text(d2.locking_supported));
        law_bool_text_injective(d1.locking_supported, d2.locking_supported);
    }
    assert((l1[1] == l2[1]) <==> (d1.locking_enabled == d2.locking_enabled)) by {
        law_prefix_cancel("  Locking Enabled: "@, bool_text(d1.locking_enabled), bool_text(d2.locking_enabled));
        law_bool_text_injective(d1.locking_enabled, d2.locking_enabled);
    }
    assert((l1[2] == l2[2]) <==> (d1.locked == d2.locked)) by {
        law_prefix_cancel("  Locked: "@, bool_text(d1.locked), bool_text(d2.locked));
        law_bool_text_injective(d1.locked, d2.locked);
    }
    assert((l1[3] == l2[3]) <==> (d1.media_encryption == d2.media_encryption)) by {
        law_prefix_cancel("  Media Encryption: "@, bool_text(d1.media_encryption), bool_text(d2.media_encryption));
        law_bool_text_injective(d1.media_encryption, d2.media_encryption);
    }
    assert((l1[4] == l2[4]) <==> (d1.mbr_enabled == d2.mbr_enabled)) by {
        law_prefix_cancel("  MBR Enabled: "@, bool_text(d1.mbr_enabled), bool_text(d2.mbr_enabled));
        law_bool_text_injective(d1.mbr_enabled, d2.mbr_enabled);
    }
    assert((l1[5] == l2[5]) <==> (d1.mbr_done == d2.mbr_done)) by {
        law_prefix_cancel("  MBR Done: "@, bool_text(d1.mbr_done), bool_text(d2.mbr_done));
        law_bool_text_injective(d1.mbr_done, d2.mbr_done);
    }
    assert((l1[6] == l2[6]) <==> (d1.mbr_shadowing_not_supported == d2.mbr_shadowing_not_supported)) by {
        law_prefix_cancel("  MBR Shadowing Not Supported: "@, bool_text(d1.mbr_shadowing_not_supported), bool_text(d2.mbr_shadowing_not_supported));
        law_bool_text_injective(d1.mbr_shadowing_not_supported, d2.mbr_shadowing_not_supported);
    }
    assert((l1[7] == l2[7]) <==> (d1.hw_reset_supported == d2.hw_reset_supported)) by {
        law_prefix_cancel("  HW Reset Supported: "@, bool_text(d1.hw_reset_supported), bool_text(d2.hw_reset_supported));
        law_bool_text_injective(d1.hw_reset_supported, d2.hw_reset_supported);
    }
}

/// Law: the Geometry Reporting feature is shown one field per line, each line the field's
/// label followed by that field's value, in this order.
pub proof fn law_geometry_lines(d: GeometryDescriptor)
    ensures
        (descriptor_lines(FeatureDescriptor::Geometry(d)) == seq![
            "  Align: "@ + (if d.align { "true"@ } else { "false"@ }),
            "  Logical Block Size: "@ + decimal(d.logical_block_size as nat),
            "  Alignment Granularity: "@ + decimal(d.alignment_granularity as nat),
            "  Lowest Aligned LBA: "@ + decimal(d.lowest_aligned_lba as nat),
        ]),
{
}

/// Law: in the lines of the Geometry Reporting feature, each line changes exactly when the
/// field its label names changes, whatever the other fields hold.
pub proof fn law_geometry_lines_follow_fields(d1: GeometryDescriptor, d2: GeometryDescriptor)
    ensures
        (descriptor_lines(FeatureDescriptor::Geometry(d1))[0] == descriptor_lines(
            FeatureDescriptor::Geometry(d2),
        )[0]) <==> (d1.align == d2.align),
        (descriptor_lines(FeatureDescriptor::Geometry(d1))[1] == descriptor_lines(
            FeatureDescriptor::Geometry(d2),
        )[1]) <==> (d1.logical_block_size == d2.logical_block_size),
        (descriptor_lines(FeatureDescriptor::Geometry(d1))[2] == descriptor_lines(
            FeatureDescriptor::Geometry(d2),
        )[2]) <==> (d1.alignment_granularity == d2.alignment_granularity),
        (descriptor_lines(FeatureDescriptor::Geometry(d1))[3] == descriptor_lines(
            FeatureDescriptor::Geometry(d2),
        )[3]) <==> (d1.lowest_aligned_lba == d2.lowest_aligned_lba),
{
    let l1 = descriptor_lines(FeatureDescriptor::Geometry(d1));
    let l2 = descriptor_lines(FeatureDescriptor::Geometry(d2));
    assert((l1[0] == l2[0]) <==> (d1.align == d2.align)) by {
        law_prefix_cancel("  Align: "@, bool_text(d1.align), bool_text(d2.align));
        law_bool_text_injective(d1.align, d2.align);
    }
    assert((l1[1] == l2[1]) <==> (d1.logical_block_size == d2.logical_block_size)) by {
        law_prefix_cancel("  Logical Block Size: "@, decimal(d1.logical_block_size as nat), decimal(d2.logical_block_size as nat));
        law_decimal_injective(d1.logical_block_size as nat, d2.logical_block_size as nat);
    }
    assert((l1[2] == l2[2]) <==> (d1.alignment_granularity == d2.alignment_granularity)) by {
        law_prefix_cancel("  Alignment Granularity: "@, decimal(d1.alignment_granularity as nat), decimal(d2.alignment_granularity as nat));
        law_decimal_injective(d1.alignment_granularity as nat, d2.alignment_granularity as nat);
    }
    assert((l1[3] == l2[3]) <==> (d1.lowest_aligned_lba == d2.lowest_aligned_lba)) by {
        law_prefix_cancel("  Lowest Aligned LBA: "@, decimal(d1.lowest_aligned_lba as nat), decimal(d2.lowest_aligned_lba as nat));
        law_decimal_injective(d1.lowest_aligned_lba as nat, d2.lowest_aligned_lba as nat);
    }
}

/// Law: the Supported Data Removal Mechanism feature is shown one field per line, each line the field's
/// label followed by that field's value, in this order.
pub proof fn law_data_removal_lines(d: DataRemovalDescriptor)
    ensures
        (descriptor_lines(FeatureDescriptor::DataRemoval(d)) == seq![
            "  Processing: "@ + (if d.processing { "true"@ } else { "false"@ }),
            "  Interrupted: "@ + (if d.interrupted { "true"@ } else { "false"@ }),
            "  Supported Mechanisms:"@,
            "    Overwrite: "@ + (if d.supported_mechanism.overwrite { "true"@ } else { "false"@ }),
            "    Block Erase: "@ + (if d.supported_mechanism.block_erase { "true"@ } else { "false"@ }),
            "    Crypto Erase: "@ + (if d.supported_mechanism.crypto_erase { "true"@ } else { "false"@ }),
            "    Vendor Erase: "@ + (if d.supported_mechanism.vendor_erase { "true"@ } else { "false"@ }),
        ]),
{
}

/// Law: in the lines of the Supported Data Removal Mechanism feature, each line changes exactly when the
/// field its label names changes, whatever the other fields hold.
pub proof fn law_data_removal_lines_follow_fields(d1: DataRemovalDescriptor, d2: DataRemovalDescriptor)
    ensures
        (descriptor_lines(FeatureDescriptor::DataRemoval(d1))[0] == descriptor_lines(
            FeatureDescriptor::DataRemoval(d2),
        )[0]) <==> (d1.processing == d2.processing),
        (descriptor_lines(FeatureDescriptor::DataRemoval(d1))[1] == descriptor_lines(
            FeatureDescriptor::DataRemoval(d2),
        )[1]) <==> (d1.interrupted == d2.interrupted),
        (descriptor_lines(FeatureDescriptor::DataRemoval(d1))[3] == descriptor_lines(
            FeatureDescriptor::DataRemoval(d2),
        )[3]) <==> (d1.supported_mechanism.overwrite == d2.supported_mechanism.overwrite),
        (descriptor_lines(FeatureDescriptor::DataRemoval(d1))[4] == descriptor_lines(
            FeatureDescriptor::DataRemoval(d2),
        )[4]) <==> (d1.supported_mechanism.block_erase == d2.supported_mechanism.block_erase),
        (descriptor_lines(FeatureDescriptor::DataRemoval(d1))[5] == descriptor_lines(
            FeatureDescriptor::DataRemoval(d2),
        )[5]) <==> (d1.supported_mechanism.crypto_erase == d2.supported_mechanism.crypto_erase),
        (descriptor_lines(FeatureDescriptor::DataRemoval(d1))[6] == descriptor_lines(
            FeatureDescriptor::DataRemoval(d2),
        )[6]) <==> (d1.supported_mechanism.vendor_erase == d2.supported_mechanism.vendor_erase),
{
    let l1 = descriptor_lines(FeatureDescriptor::DataRemoval(d1));
    let l2 = descriptor_lines(FeatureDescriptor::DataRemoval(d2));
    assert((l1[0] == l2[0]) <==> (d1.processing == d2.processing)) by {
        law_prefix_cancel("  Processing: "@, bool_text(d1.processing), bool_text(d2.processing));
        law_bool_text_injective(d1.processing, d2.processing);
    }
    assert((l1[1] == l2[1]) <==> (d1.interrupted == d2.interrupted)) by {
        law_prefix_cancel("  Interrupted: "@, bool_text(d1.interrupted), bool_text(d2.interrupted));
        law_bool_text_injective(d1.interrupted, d2.interrupted);
    }
    assert((l1[3] == l2[3]) <==> (d1.supported_mechanism.overwrite == d2.supported_mechanism.overwrite)) by {
        law_prefix_cancel("    Overwrite: "@, bool_text(d1.supported_mechanism.overwrite), bool_text(d2.supported_mechanism.overwrite));
        law_bool_text_injective(d1.supported_mechanism.overwrite, d2.supported_mechanism.overwrite);
    }
    assert((l1[4] == l2[4]) <==> (d1.supported_mechanism.block_erase == d2.supported_mechanism.block_erase)) by {
        law_prefix_cancel("    Block Erase: "@, bool_text(d1.supported_mechanism.block_erase), bool_text(d2.supported_mechanism.block_erase));
        law_bool_text_injective(d1.supported_mechanism.block_erase, d2.supported_mechanism.block_erase);
    }
    assert((l1[5] == l2[5]) <==> (d1.supported_mechanism.crypto_erase == d2.supported_mechanism.crypto_erase)) by {
        law_prefix_cancel("    Crypto Erase: "@, bool_text(d1.supported_mechanism.crypto_erase), bool_text(d2.supported_mechanism.crypto_erase));
        law_bool_text_injective(d1.supported_mechanism.crypto_erase, d2.supported_mechanism.crypto_erase);
    }
    assert((l1[6] == l2[6]) <==> (d1.supported_mechanism.vendor_erase == d2.supported_mechanism.vendor_erase)) by {
        law_prefix_cancel("    Vendor Erase: "@, bool_text(d1.supported_mechanism.vendor_erase), bool_text(d2.supported_mechanism.vendor_erase));
        law_bool_text_injective(d1.supported_mechanism.vendor_erase, d2.supported_mechanism.vendor_erase);
    }
}

/// Law: the Block SID Authentication feature is shown one field per line, each line the field's
/// label followed by that field's value, in this order.
pub proof fn law_block_sidauth_lines(d: BlockSIDAuthDescriptor)
    ensures
        (descriptor_lines(FeatureDescriptor::BlockSIDAuth(d)) == seq![
            "  Locking SP Frozen: "@ + (if d.locking_sp_frozen { "true"@ } else { "false"@ }),
            "  Locking SP Freeze Supported: "@ + (if d.locking_sp_freeze_supported { "true"@ } else { "false"@ }),
            "  SID Authentication Blocked: "@ + (if d.sid_authentication_blocked { "true"@ } else { "false"@ }),
            "  SID/MSID PIN Differ: "@ + (if d.sid_msid_pin_differ { "true"@ } else { "false"@ }),
            "  HW Reset Unblocks: "@ + (if d.hw_reset_unblocks { "true"@ } else { "false"@ }),
        ]),
{
}

/// Law: in the lines of the Block SID Authentication feature, each line changes exactly when the
/// field its label names changes, whatever the other fields hold.
pub proof fn law_block_sidauth_lines_follow_fields(d1: BlockSIDAuthDescriptor, d2: BlockSIDAuthDescriptor)
    ensures
        (descriptor_lines(FeatureDescriptor::BlockSIDAuth(d1))[0] == descriptor_lines(
            FeatureDescriptor::BlockSIDAuth(d2),
        )[0]) <==> (d1.locking_sp_frozen == d2.locking_sp_frozen),
        (descriptor_lines(FeatureDescriptor::BlockSIDAuth(d1))[1] == descriptor_lines(
            FeatureDescriptor::BlockSIDAuth(d2),
        )[1]) <==> (d1.locking_sp_freeze_supported == d2.locking_sp_freeze_supported),
        (descriptor_lines(FeatureDescriptor::BlockSIDAuth(d1))[2] == descriptor_lines(
            FeatureDescriptor::BlockSIDAuth(d2),
        )[2]) <==> (d1.sid_authentication_blocked == d2.sid_authentication_blocked),
        (descriptor_lines(FeatureDescriptor::BlockSIDAuth(d1))[3] == descriptor_lines(
            FeatureDescriptor::BlockSIDAuth(d2),
        )[3]) <==> (d1.sid_msid_pin_differ == d2.sid_msid_pin_differ),
        (descriptor_lines(FeatureDescriptor::BlockSIDAuth(d1))[4] == descriptor_lines(
            FeatureDescriptor::BlockSIDAuth(d2),
        )[4]) <==> (d1.hw_reset_unblocks == d2.hw_reset_unblocks),
{
    let l1 = descriptor_lines(FeatureDescriptor::BlockSIDAuth(d1));
    let l2 = descriptor_lines(FeatureDescriptor::BlockSIDAuth(d2));
    assert((l1[0] == l2[0]) <==> (d1.locking_sp_frozen == d2.locking_sp_frozen)) by {
        law_prefix_cancel("  Locking SP Frozen: "@, bool_text(d1.locking_sp_frozen), bool_text(d2.locking_sp_frozen));
        law_bool_text_injective(d1.locking_sp_frozen, d2.locking_sp_frozen);
    }
    assert((l1[1] == l2[1]) <==> (d1.locking_sp_freeze_supported == d2.locking_sp_freeze_supported)) by {
        law_prefix_cancel("  Locking SP Freeze Supported: "@, bool_text(d1.locking_sp_freeze_supported), bool_text(d2.locking_sp_freeze_supported));
        law_bool_text_injective(d1.locking_sp_freeze_supported, d2.locking_sp_freeze_supported);
    }
    assert((l1[2] == l2[2]) <==> (d1.sid_authentication_blocked == d2.sid_authentication_blocked)) by {
        law_prefix_cancel("  SID Authentication Blocked: "@, bool_text(d1.sid_authentication_blocked), bool_text(d2.sid_authentication_blocked));
        law_bool_text_injective(d1.sid_authentication_blocked, d2.sid_authentication_blocked);
    }
    assert((l1[3] == l2[3]) <==> (d1.sid_msid_pin_differ == d2.sid_msid_pin_differ)) by {
        law_prefix_cancel("  SID/MSID PIN Differ: "@, bool_text(d1.sid_msid_pin_differ), bool_text(d2.sid_msid_pin_differ));
        law_bool_text_injective(d1.sid_msid_pin_differ, d2.sid_msid_pin_differ);
    }
    assert((l1[4] == l2[4]) <==> (d1.hw_reset_unblocks == d2.hw_reset_unblocks)) by {
        law_prefix_cancel("  HW Reset Unblocks: "@, bool_text(d1.hw_reset_unblocks), bool_text(d2.hw_reset_unblocks));
        law_bool_text_injective(d1.hw_reset_unblocks, d2.hw_reset_unblocks);
    }
}

/// Law: the Opal SSC V2 feature is shown one field per line, each line the field's
/// label followed by that field's value, in this order.
pub proof fn law_opal_v2_lines(d: OpalV2Descriptor)
    ensures
        (descriptor_lines(FeatureDescriptor::OpalV2(d)) == seq![
            "  Base ComID: "@ + decimal(d.base_com_id as nat),
            "  Num ComIDs: "@ + decimal(d.num_com_ids as nat),
            "  No Range Crossing: "@ + (if d.no_range_crossing { "true"@ } else { "false"@ }),
            "  Num Locking Admins: "@ + decimal(d.num_locking_admins_supported as nat),
            "  Num Locking Users: "@ + decimal(d.num_locking_users_supported as nat),
            "  Initial Owner Password: "@ + d.initial_owner_pw@,
            "  Reverted Owner Password: "@ + d.reverted_owner_pw@,
        ]),
{
}

/// Law: in the lines of the Opal SSC V2 feature, each line changes exactly when the
/// field its label names changes, whatever the other fields hold.
pub proof fn law_opal_v2_lines_follow_fields(d1: OpalV2Descriptor, d2: OpalV2Descriptor)
    ensures
        (descriptor_lines(FeatureDescriptor::OpalV2(d1))[0] == descriptor_lines(
            FeatureDescriptor::OpalV2(d2),
        )[0]) <==> (d1.base_com_id == d2.base_com_id),
        (descriptor_lines(FeatureDescriptor::OpalV2(d1))[1] == descriptor_lines(
            FeatureDescriptor::OpalV2(d2),
        )[1]) <==> (d1.num_com_ids == d2.num_com_ids),
        (descriptor_lines(FeatureDescriptor::OpalV2(d1))[2] == descriptor_lines(
            FeatureDescriptor::OpalV2(d2),
        )[2]) <==> (d1.no_range_crossing == d2.no_range_crossing),
        (descriptor_lines(FeatureDescriptor::OpalV2(d1))[3] == descriptor_lines(
            FeatureDescriptor::OpalV2(d2),
        )[3]) <==> (d1.num_locking_admins_supported == d2.num_locking_admins_supported),
        (descriptor_lines(FeatureDescriptor::OpalV2(d1))[4] == descriptor_lines(
            FeatureDescriptor::OpalV2(d2),
        )[4]) <==> (d1.num_locking_users_supported == d2.num_locking_users_supported),
        (descriptor_lines(FeatureDescriptor::OpalV2(d1))[5] == descriptor_lines(
            FeatureDescriptor::OpalV2(d2),
        )[5]) <==> (d1.initial_owner_pw@ == d2.initial_owner_pw@),
        (descriptor_lines(FeatureDescriptor::OpalV2(d1))[6] == descriptor_lines(
            FeatureDescriptor::OpalV2(d2),
        )[6]) <==> (d1.reverted_owner_pw@ == d2.reverted_owner_pw@),
{
    let l1 = descriptor_lines(FeatureDescriptor::OpalV2(d1));
    let l2 = descriptor_lines(FeatureDescriptor::OpalV2(d2));
    assert((l1[0] == l2[0]) <==> (d1.base_com_id == d2.base_com_id)) by {
        law_prefix_cancel("  Base ComID: "@, decimal(d1.base_com_id as nat), decimal(d2.base_com_id as nat));
        law_decimal_injective(d1.base_com_id as nat, d2.base_com_id as nat);
    }
    assert((l1[1] == l2[1]) <==> (d1.num_com_ids == d2.num_com_ids)) by {
        law_prefix_cancel("  Num ComIDs: "@, decimal(d1.num_com_ids as nat), decimal(d2.num_com_ids as nat));
        law_decimal_injective(d1.num_com_ids as nat, d2.num_com_ids as nat);
    }
    assert((l1[2] == l2[2]) <==> (d1.no_range_crossing == d2.no_range_crossing)) by {
        law_prefix_cancel("  No Range Crossing: "@, bool_text(d1.no_range_crossing), bool_text(d2.no_range_crossing));
        law_bool_text_injective(d1.no_range_crossing, d2.no_range_crossing);
    }
    assert((l1[3] == l2[3]) <==> (d1.num_locking_admins_supported == d2.num_locking_admins_supported)) by {
        law_prefix_cancel("  Num Locking Admins: "@, decimal(d1.num_locking_admins_supported as nat), decimal(d2.num_locking_admins_supported as nat));
        law_decimal_injective(d1.num_locking_admins_supported as nat, d2.num_locking_admins_supported as nat);
    }
    assert((l1[4] == l2[4]) <==> (d1.num_locking_users_supported == d2.num_locking_users_supported)) by {
        law_prefix_cancel("  Num Locking Users: "@, decimal(d1.num_locking_users_supported as nat), decimal(d2.num_locking_users_supported as nat));
        law_decimal_injective(d1.num_locking_users_supported as nat, d2.num_locking_users_supported as nat);
    }
    assert((l1[5] == l2[5]) <==> (d1.initial_owner_pw@ == d2.initial_owner_pw@)) by {
        law_prefix_cancel("  Initial Owner Password: "@, d1.initial_owner_pw@, d2.initial_owner_pw@);
    }
    assert((l1[6] == l2[6]) <==> (d1.reverted_owner_pw@ == d2.reverted_owner_pw@)) by {
        law_prefix_cancel("  Reverted Owner Password: "@, d1.reverted_owner_pw@, d2.reverted_owner_pw@);
    }
}

/// Law: the Pyrite SSC V1 feature is shown one field per line, each line the field's
/// label followed by that field's value, in this order.
pub proof fn law_pyrite_v1_lines(d: PyriteV1Descriptor)
    ensures
        (descriptor_lines(FeatureDescriptor::PyriteV1(d)) == seq![
            "  Base ComID: "@ + decimal(d.base_com_id as nat),
            "  Num ComIDs: "@ + decimal(d.num_com_ids as nat),
            "  Initial Owner Password: "@ + d.initial_owner_pw@,
            "  Reverted Owner Password: "@ + d.reverted_owner_pw@,
        ]),
{
}

/// Law: in the lines of the Pyrite SSC V1 feature, each line changes exactly when the
/// field its label names changes, whatever the other fields hold.
pub proof fn law_pyrite_v1_lines_follow_fields(d1: PyriteV1Descriptor, d2: PyriteV1Descriptor)
    ensures
        (descriptor_lines(FeatureDescriptor::PyriteV1(d1))[0] == descriptor_lines(
            FeatureDescriptor::PyriteV1(d2),
        )[0]) <==> (d1.base_com_id == d2.base_com_id),
        (descriptor_lines(FeatureDescriptor::PyriteV1(d1))[1] == descriptor_lines(
            FeatureDescriptor::PyriteV1(d2),
        )[1]) <==> (d1.num_com_ids == d2.num_com_ids),
        (descriptor_lines(FeatureDescriptor::PyriteV1(d1))[2] == descriptor_lines(
            FeatureDescriptor::PyriteV1(d2),
        )[2]) <==> (d1.initial_owner_pw@ == d2.initial_owner_pw@),
        (descriptor_lines(FeatureDescriptor::PyriteV1(d1))[3] == descriptor_lines(
            FeatureDescriptor::PyriteV1(d2),
        )[3]) <==> (d1.reverted_owner_pw@ == d2.reverted_owner_pw@),
{
    let l1 = descriptor_lines(FeatureDescriptor::PyriteV1(d1));
    let l2 = descriptor_lines(FeatureDescriptor::PyriteV1(d2));
    assert((l1[0] == l2[0]) <==> (d1.base_com_id == d2.base_com_id)) by {
        law_prefix_cancel("  Base ComID: "@, decimal(d1.base_com_id as nat), decimal(d2.base_com_id as nat));
        law_decimal_injective(d1.base_com_id as nat, d2.base_com_id as nat);
    }
    assert((l1[1] == l2[1]) <==> (d1.num_com_ids == d2.num_com_ids)) by {
        law_prefix_cancel("  Num ComIDs: "@, decimal(d1.num_com_ids as nat), decimal(d2.num_com_ids as nat));
        law_decimal_injective(d1.num_com_ids as nat, d2.num_com_ids as nat);
    }
    assert((l1[2] == l2[2]) <==> (d1.initial_owner_pw@ == d2.initial_owner_pw@)) by {
        law_prefix_cancel("  Initial Owner Password: "@, d1.initial_owner_pw@, d2.initial_owner_pw@);
    }
    assert((l1[3] == l2[3]) <==> (d1.reverted_owner_pw@ == d2.reverted_owner_pw@)) by {
        law_prefix_cancel("  Reverted Owner Password: "@, d1.reverted_owner_pw@, d2.reverted_owner_pw@);
    }
}

/// Law: the Pyrite SSC V2 feature is shown one field per line, each line the field's
/// label followed by that field's value, in this order.
pub proof fn law_pyrite_v2_lines(d: PyriteV2Descriptor)
    ensures
        (descriptor_lines(FeatureDescriptor::PyriteV2(d)) == seq![
            "  Base ComID: "@ + decimal(d.base_com_id as nat),
            "  Num ComIDs: "@ + decimal(d.num_com_ids as nat),
            "  Initial Owner Password: "@ + d.initial_owner_pw@,
            "  Reverted Owner Password: "@ + d.reverted_owner_pw@,
        ]),
{
}

/// Law: in the lines of the Pyrite SSC V2 feature, each line changes exactly when the
/// field its label names changes, whatever the other fields hold.
pub proof fn law_pyrite_v2_lines_follow_fields(d1: PyriteV2Descriptor, d2: PyriteV2Descriptor)
    ensures
        (descriptor_lines(FeatureDescriptor::PyriteV2(d1))[0] == descriptor_lines(
            FeatureDescriptor::PyriteV2(d2),
        )[0]) <==> (d1.base_com_id == d2.base_com_id),
        (descriptor_lines(FeatureDescriptor::PyriteV2(d1))[1] == descriptor_lines(
            FeatureDescriptor::PyriteV2(d2),
        )[1]) <==> (d1.num_com_ids == d2.num_com_ids),
        (descriptor_lines(FeatureDescriptor::PyriteV2(d1))[2] == descriptor_lines(
            FeatureDescriptor::PyriteV2(d2),
        )[2]) <==> (d1.initial_owner_pw@ == d2.initial_owner_pw@),
        (descriptor_lines(FeatureDescriptor::PyriteV2(d1))[3] == descriptor_lines(
            FeatureDescriptor::PyriteV2(d2),
        )[3]) <==> (d1.reverted_owner_pw@ == d2.reverted_owner_pw@),
{
    let l1 = descriptor_lines(FeatureDescriptor::PyriteV2(d1));
    let l2 = descriptor_lines(FeatureDescriptor::PyriteV2(d2));
    assert((l1[0] == l2[0]) <==> (d1.base_com_id == d2.base_com_id)) by {
        law_prefix_cancel("  Base ComID: "@, decimal(d1.base_com_id as nat), decimal(d2.base_com_id as nat));
        law_decimal_injective(d1.base_com_id as nat, d2.base_com_id as nat);
    }
    assert((l1[1] == l2[1]) <==> (d1.num_com_ids == d2.num_com_ids)) by {
        law_prefix_cancel("  Num ComIDs: "@, decimal(d1.num_com_ids as nat), decimal(d2.num_com_ids as nat));
        law_decimal_injective(d1.num_com_ids as nat, d2.num_com_ids as nat);
    }
    assert((l1[2] == l2[2]) <==> (d1.initial_owner_pw@ == d2.initial_owner_pw@)) by {
        law_prefix_cancel("  Initial Owner Password: "@, d1.initial_owner_pw@, d2.initial_owner_pw@);
    }
    assert((l1[3] == l2[3]) <==> (d1.reverted_owner_pw@ == d2.reverted_owner_pw@)) by {
        law_prefix_cancel("  Reverted Owner Password: "@, d1.reverted_owner_pw@, d2.reverted_owner_pw@);
    }
}

/// Law: the Enterprise SSC feature is shown one field per line, each line the field's
/// label followed by that field's value, in this order.
pub proof fn law_enterprise_lines(d: EnterpriseDescriptor)
    ensures
        (descriptor_lines(FeatureDescriptor::Enterprise(d)) == seq![
            "  Base ComID: "@ + decimal(d.base_com_id as nat),
            "  Num ComIDs: "@ + decimal(d.num_com_ids as nat),
            "  No Range Crossing: "@ + (if d.no_range_crossing { "true"@ } else { "false"@ }),
        ]),
{
}

/// Law: in the lines of the Enterprise SSC feature, each line changes exactly when the
/// field its label names changes, whatever the other fields hold.
pub proof fn law_enterprise_lines_follow_fields(d1: EnterpriseDescriptor, d2: EnterpriseDescriptor)
    ensures
        (descriptor_lines(FeatureDescriptor::Enterprise(d1))[0] == descriptor_lines(
            FeatureDescriptor::Enterprise(d2),
        )[0]) <==> (d1.base_com_id == d2.base_com_id),
        (descriptor_lines(FeatureDescriptor::Enterprise(d1))[1] == descriptor_lines(
            FeatureDescriptor::Enterprise(d2),
        )[1]) <==> (d1.num_com_ids == d2.num_com_ids),
        (descriptor_lines(FeatureDescriptor::Enterprise(d1))[2] == descriptor_lines(
            FeatureDescriptor::Enterprise(d2),
        )[2]) <==> (d1.no_range_crossing == d2.no_range_crossing),
{
    let l1 = descriptor_lines(FeatureDescriptor::Enterprise(d1));
    let l2 = descriptor_lines(FeatureDescriptor::Enterprise(d2));
    assert((l1[0] == l2[0]) <==> (d1.base_com_id == d2.base_com_id)) by {
        law_prefix_cancel("  Base ComID: "@, decimal(d1.base_com_id as nat), decimal(d2.base_com_id as nat));
        law_decimal_injective(d1.base_com_id as nat, d2.base_com_id as nat);
    }
    assert((l1[1] == l2[1]) <==> (d1.num_com_ids == d2.num_com_ids)) by {
        law_prefix_cancel("  Num ComIDs: "@, decimal(d1.num_com_ids as nat), decimal(d2.num_com_ids as nat));
        law_decimal_injective(d1.num_com_ids as nat, d2.num_com_ids as nat);
    }
    assert((l1[2] == l2[2]) <==> (d1.no_range_crossing == d2.no_range_crossing)) by {
        law_prefix_cancel("  No Range Crossing: "@, bool_text(d1.no_range_crossing), bool_text(d2.no_range_crossing));
        law_bool_text_injective(d1.no_range_crossing, d2.no_range_crossing);
    }
}

/// Law: the Opal SSC V1 feature is shown one field per line, each line the field's
/// label followed by that field's value, in this order.
pub proof fn law_opal_v1_lines(d: OpalV1Descriptor)
    ensures
        (descriptor_lines(FeatureDescriptor::OpalV1(d)) == seq![
            "  Base ComID: "@ + decimal(d.base_com_id as nat),
            "  Num ComIDs: "@ + decimal(d.num_com_ids as nat),
            "  No Range Crossing: "@ + (if d.no_range_crossing { "true"@ } else { "false"@ }),
        ]),
{
}

/// Law: in the lines of the Opal SSC V1 feature, each line changes exactly when the
/// field its label names changes, whatever the other fields hold.
pub proof fn law_opal_v1_lines_follow_fields(d1: OpalV1Descriptor, d2: OpalV1Descriptor)
    ensures
        (descriptor_lines(FeatureDescriptor::OpalV1(d1))[0] == descriptor_lines(
            FeatureDescriptor::OpalV1(d2),
        )[0]) <==> (d1.base_com_id == d2.base_com_id),
        (descriptor_lines(FeatureDescriptor::OpalV1(d1))[1] == descriptor_lines(
            FeatureDescriptor::OpalV1(d2),
        )[1]) <==> (d1.num_com_ids == d2.num_com_ids),
        (descriptor_lines(FeatureDescriptor::OpalV1(d1))[2] == descriptor_lines(
            FeatureDescriptor::OpalV1(d2),
        )[2]) <==> (d1.no_range_crossing == d2.no_range_crossing),
{
    let l1 = descriptor_lines(FeatureDescriptor::OpalV1(d1));
    let l2 = descriptor_lines(FeatureDescriptor::OpalV1(d2));
    assert((l1[0] == l2[0]) <==> (d1.base_com_id == d2.base_com_id)) by {
        law_prefix_cancel("  Base ComID: "@, decimal(d1.base_com_id as nat), decimal(d2.base_com_id as nat));
        law_decimal_injective(d1.base_com_id as nat, d2.base_com_id as nat);
    }
    assert((l1[1] == l2[1]) <==> (d1.num_com_ids == d2.num_com_ids)) by {
        law_prefix_cancel("  Num ComIDs: "@, decimal(d1.num_com_ids as nat), decimal(d2.num_com_ids as nat));
        law_decimal_injective(d1.num_com_ids as nat, d2.num_com_ids as nat);
    }
    assert((l1[2] == l2[2]) <==> (d1.no_range_crossing == d2.no_range_crossing)) by {
        law_prefix_cancel("  No Range Crossing: "@, bool_text(d1.no_range_crossing), bool_text(d2.no_range_crossing));
        law_bool_text_injective(d1.no_range_crossing, d2.no_range_crossing);
    }
}

/// Law: the Opalite SSC feature is shown one field per line, each line the field's
/// label followed by that field's value, in this order.
pub proof fn law_opalite_lines(d: OpaliteDescriptor)
    ensures
        (descriptor_lines(FeatureDescriptor::Opalite(d)) == seq![
            "  Base ComID: "@ + decimal(d.base_com_id as nat),
            "  Num ComIDs: "@ + decimal(d.num_com_ids as nat),
            "  Initial Owner Password: "@ + d.initial_owner_pw@,
            "  Reverted Owner Password: "@ + d.reverted_owner_pw@,
        ]),
{
}

/// Law: in the lines of the Opalite SSC feature, each line changes exactly when the
/// field its label names changes, whatever the other fields hold.
pub proof fn law_opalite_lines_follow_fields(d1: OpaliteDescriptor, d2: OpaliteDescriptor)
    ensures
        (descriptor_lines(FeatureDescriptor::Opalite(d1))[0] == descriptor_lines(
            FeatureDescriptor::Opalite(d2),
        )[0]) <==> (d1.base_com_id == d2.base_com_id),
        (descriptor_lines(FeatureDescriptor::Opalite(d1))[1] == descriptor_lines(
            FeatureDescriptor::Opalite(d2),
        )[1]) <==> (d1.num_com_ids == d2.num_com_ids),
        (descriptor_lines(FeatureDescriptor::Opalite(d1))[2] == descriptor_lines(
            FeatureDescriptor::Opalite(d2),
        )[2]) <==> (d1.initial_owner_pw@ == d2.initial_owner_pw@),
        (descriptor_lines(FeatureDescriptor::Opalite(d1))[3] == descriptor_lines(
            FeatureDescriptor::Opalite(d2),
        )[3]) <==> (d1.reverted_owner_pw@ == d2.reverted_owner_pw@),
{
    let l1 = descriptor_lines(FeatureDescriptor::Opalite(d1));
    let l2 = descriptor_lines(FeatureDescriptor::Opalite(d2));
    assert((l1[0] == l2[0]) <==> (d1.base_com_id == d2.base_com_id)) by {
        law_prefix_cancel("  Base ComID: "@, decimal(d1.base_com_id as nat), decimal(d2.base_com_id as nat));
        law_decimal_injective(d1.base_com_id as nat, d2.base_com_id as nat);
    }
    assert((l1[1] == l2[1]) <==> (d1.num_com_ids == d2.num_com_ids)) by {
        law_prefix_cancel("  Num ComIDs: "@, decimal(d1.num_com_ids as nat), decimal(d2.num_com_ids as nat));
        law_decimal_injective(d1.num_com_ids as nat, d2.num_com_ids as nat);
    }
    assert((l1[2] == l2[2]) <==> (d1.initial_owner_pw@ == d2.initial_owner_pw@)) by {
        law_prefix_cancel("  Initial Owner Password: "@, d1.initial_owner_pw@, d2.initial_owner_pw@);
    }
    assert((l1[3] == l2[3]) <==> (d1.reverted_owner_pw@ == d2.reverted_owner_pw@)) by {
        law_prefix_cancel("  Reverted Owner Password: "@, d1.reverted_owner_pw@, d2.reverted_owner_pw@);
    }
}

/// Law: the Ruby SSC feature is shown one field per line, each line the field's
/// label followed by that field's value, in this order.
pub proof fn law_ruby_lines(d: RubyDescriptor)
    ensures
        (descriptor_lines(FeatureDescriptor::Ruby(d)) == seq![
            "  Base ComID: "@ + decimal(d.base_com_id as nat),
            "  Num ComIDs: "@ + decimal(d.num_com_ids as nat),
            "  No Range Crossing: "@ + (if d.no_range_crossing { "true"@ } else { "false"@ }),
            "  Num Locking Admins: "@ + decimal(d.num_locking_admins_supported as nat),
            "  Num Locking Users: "@ + decimal(d.num_locking_users_supported as nat),
            "  Initial Owner Password: "@ + d.initial_owner_pw@,
            "  Reverted Owner Password: "@ + d.reverted_owner_pw@,
        ]),
{
}

/// Law: in the lines of the Ruby SSC feature, each line changes exactly when the
/// field its label names changes, whatever the other fields hold.
pub proof fn law_ruby_lines_follow_fields(d1: RubyDescriptor, d2: RubyDescriptor)
    ensures
        (descriptor_lines(FeatureDescriptor::Ruby(d1))[0] == descriptor_lines(
            FeatureDescriptor::Ruby(d2),
        )[0]) <==> (d1.base_com_id == d2.base_com_id),
        (descriptor_lines(FeatureDescriptor::Ruby(d1))[1] == descriptor_lines(
            FeatureDescriptor::Ruby(d2),
        )[1]) <==> (d1.num_com_ids == d2.num_com_ids),
        (descriptor_lines(FeatureDescriptor::Ruby(d1))[2] == descriptor_lines(
            FeatureDescriptor::Ruby(d2),
        )[2]) <==> (d1.no_range_crossing == d2.no_range_crossing),
        (descriptor_lines(FeatureDescriptor::Ruby(d1))[3] == descriptor_lines(
            FeatureDescriptor::Ruby(d2),
        )[3]) <==> (d1.num_locking_admins_supported == d2.num_locking_admins_supported),
        (descriptor_lines(FeatureDescriptor::Ruby(d1))[4] == descriptor_lines(
            FeatureDescriptor::Ruby(d2),
        )[4]) <==> (d1.num_locking_users_supported == d2.num_locking_users_supported),
        (descriptor_lines(FeatureDescriptor::Ruby(d1))[5] == descriptor_lines(
            FeatureDescriptor::Ruby(d2),
        )[5]) <==> (d1.initial_owner_pw@ == d2.initial_owner_pw@),
        (descriptor_lines(FeatureDescriptor::Ruby(d1))[6] == descriptor_lines(
            FeatureDescriptor::Ruby(d2),
        )[6]) <==> (d1.reverted_owner_pw@ == d2.reverted_owner_pw@),
{
    let l1 = descriptor_lines(FeatureDescriptor::Ruby(d1));
    let l2 = descriptor_lines(FeatureDescriptor::Ruby(d2));
    assert((l1[0] == l2[0]) <==> (d1.base_com_id == d2.base_com_id)) by {
        law_prefix_cancel("  Base ComID: "@, decimal(d1.base_com_id as nat), decimal(d2.base_com_id as nat));
        law_decimal_injective(d1.base_com_id as nat, d2.base_com_id as nat);
    }
    assert((l1[1] == l2[1]) <==> (d1.num_com_ids == d2.num_com_ids)) by {
        law_prefix_cancel("  Num ComIDs: "@, decimal(d1.num_com_ids as nat), decimal(d2.num_com_ids as nat));
        law_decimal_injective(d1.num_com_ids as nat, d2.num_com_ids as nat);
    }
    assert((l1[2] == l2[2]) <==> (d1.no_range_crossing == d2.no_range_crossing)) by {
        law_prefix_cancel("  No Range Crossing: "@, bool_text(d1.no_range_crossing), bool_text(d2.no_range_crossing));
        law_bool_text_injective(d1.no_range_crossing, d2.no_range_crossing);
    }
    assert((l1[3] == l2[3]) <==> (d1.num_locking_admins_supported == d2.num_locking_admins_supported)) by {
        law_prefix_cancel("  Num Locking Admins: "@, decimal(d1.num_locking_admins_supported as nat), decimal(d2.num_locking_admins_supported as nat));
        law_decimal_injective(d1.num_locking_admins_supported as nat, d2.num_locking_admins_supported as nat);
    }
    assert((l1[4] == l2[4]) <==> (d1.num_locking_users_supported == d2.num_locking_users_supported)) by {
        law_prefix_cancel("  Num Locking Users: "@, decimal(d1.num_locking_users_supported as nat), decimal(d2.num_locking_users_supported as nat));
        law_decimal_injective(d1.num_locking_users_supported as nat, d2.num_locking_users_supported as nat);
    }
    assert((l1[5] == l2[5]) <==> (d1.initial_owner_pw@ == d2.initial_owner_pw@)) by {
        law_prefix_cancel("  Initial Owner Password: "@, d1.initial_owner_pw@, d2.initial_owner_pw@);
    }
    assert((l1[6] == l2[6]) <==> (d1.reverted_owner_pw@ == d2.reverted_owner_pw@)) by {
        law_prefix_cancel("  Reverted Owner Password: "@, d1.reverted_owner_pw@, d2.reverted_owner_pw@);
    }
}

/// Law: the Key Per I/O SSC feature is shown one field per line, each line the field's
/// label followed by that field's value, in this order.
pub proof fn law_key_per_io_lines(d: KeyPerIODescriptor)
    ensures
        (descriptor_lines(FeatureDescriptor::KeyPerIO(d)) == seq![
            "  Base ComID P1: "@ + decimal(d.base_com_id_p1 as nat),
            "  Num ComIDs P1: "@ + decimal(d.num_com_ids_p1 as nat),
            "  Base ComID P3: "@ + decimal(d.base_com_id_p3 as nat),
            "  Num ComIDs P3: "@ + decimal(d.num_com_ids_p3 as nat),
        ]),
{
}

/// Law: in the lines of the Key Per I/O SSC feature, each line changes exactly when the
/// field its label names changes, whatever the other fields hold.
pub proof fn law_key_per_io_lines_follow_fields(d1: KeyPerIODescriptor, d2: KeyPerIODescriptor)
    ensures
        (descriptor_lines(FeatureDescriptor::KeyPerIO(d1))[0] == descriptor_lines(
            FeatureDescriptor::KeyPerIO(d2),
        )[0]) <==> (d1.base_com_id_p1 == d2.base_com_id_p1),
        (descriptor_lines(FeatureDescriptor::KeyPerIO(d1))[1] == descriptor_lines(
            FeatureDescriptor::KeyPerIO(d2),
        )[1]) <==> (d1.num_com_ids_p1 == d2.num_com_ids_p1),
        (descriptor_lines(FeatureDescriptor::KeyPerIO(d1))[2] == descriptor_lines(
            FeatureDescriptor::KeyPerIO(d2),
        )[2]) <==> (d1.base_com_id_p3 == d2.base_com_id_p3),
        (descriptor_lines(FeatureDescriptor::KeyPerIO(d1))[3] == descriptor_lines(
            FeatureDescriptor::KeyPerIO(d2),
        )[3]) <==> (d1.num_com_ids_p3 == d2.num_com_ids_p3),
{
    let l1 = descriptor_lines(FeatureDescriptor::KeyPerIO(d1));
    let l2 = descriptor_lines(FeatureDescriptor::KeyPerIO(d2));
    assert((l1[0] == l2[0]) <==> (d1.base_com_id_p1 == d2.base_com_id_p1)) by {
        law_prefix_cancel("  Base ComID P1: "@, decimal(d1.base_com_id_p1 as nat), decimal(d2.base_com_id_p1 as nat));
        law_decimal_injective(d1.base_com_id_p1 as nat, d2.base_com_id_p1 as nat);
    }
    assert((l1[1] == l2[1]) <==> (d1.num_com_ids_p1 == d2.num_com_ids_p1)) by {
        law_prefix_cancel("  Num ComIDs P1: "@, decimal(d1.num_com_ids_p1 as nat), decimal(d2.num_com_ids_p1 as nat));
        law_decimal_injective(d1.num_com_ids_p1 as nat, d2.num_com_ids_p1 as nat);
    }
    assert((l1[2] == l2[2]) <==> (d1.base_com_id_p3 == d2.base_com_id_p3)) by {
        law_prefix_cancel("  Base ComID P3: "@, decimal(d1.base_com_id_p3 as nat), decimal(d2.base_com_id_p3 as nat));
        law_decimal_injective(d1.base_com_id_p3 as nat, d2.base_com_id_p3 as nat);
    }
    assert((l1[3] == l2[3]) <==> (d1.num_com_ids_p3 == d2.num_com_ids_p3)) by {
        law_prefix_cancel("  Num ComIDs P3: "@, decimal(d1.num_com_ids_p3 as nat), decimal(d2.num_com_ids_p3 as nat));
        law_decimal_injective(d1.num_com_ids_p3 as nat, d2.num_com_ids_p3 as nat);
    }
}

/// Law: the Additional DataStore Tables feature is shown one field per line, each line the field's
/// label followed by that field's value, in this order.
pub proof fn law_additional_data_store_tables_lines(d: AdditionalDataStoreTablesDescriptor)
    ensures
        (descriptor_lines(FeatureDescriptor::AdditionalDataStoreTables(d)) == seq![
            "  Max Num Tables: "@ + decimal(d.max_num_tables as nat),
            "  Max Total Size: "@ + decimal(d.max_total_size_of_tables as nat),
            "  Table Size Alignment: "@ + decimal(d.table_size_alignment as nat),
        ]),
{
}

/// Law: in the lines of the Additional DataStore Tables feature, each line changes exactly when the
/// field its label names changes, whatever the other fields hold.
pub proof fn law_additional_data_store_tables_lines_follow_fields(d1: AdditionalDataStoreTablesDescriptor, d2: AdditionalDataStoreTablesDescriptor)
    ensures
        (descriptor_lines(FeatureDescriptor::AdditionalDataStoreTables(d1))[0] == descriptor_lines(
            FeatureDescriptor::AdditionalDataStoreTables(d2),
        )[0]) <==> (d1.max_num_tables == d2.max_num_tables),
        (descriptor_lines(FeatureDescriptor::AdditionalDataStoreTables(d1))[1] == descriptor_lines(
            FeatureDescriptor::AdditionalDataStoreTables(d2),
        )[1]) <==> (d1.max_total_size_of_tables == d2.max_total_size_of_tables),
        (descriptor_lines(FeatureDescriptor::AdditionalDataStoreTables(d1))[2] == descriptor_lines(
            FeatureDescriptor::AdditionalDataStoreTables(d2),
        )[2]) <==> (d1.table_size_alignment == d2.table_size_alignment),
{
    let l1 = descriptor_lines(FeatureDescriptor::AdditionalDataStoreTables(d1));
    let l2 = descriptor_lines(FeatureDescriptor::AdditionalDataStoreTables(d2));
    assert((l1[0] == l2[0]) <==> (d1.max_num_tables == d2.max_num_tables)) by {
        law_prefix_cancel("  Max Num Tables: "@, decimal(d1.max_num_tables as nat), decimal(d2.max_num_tables as nat));
        law_decimal_injective(d1.max_num_tables as nat, d2.max_num_tables as nat);
    }
    assert((l1[1] == l2[1]) <==> (d1.max_total_size_of_tables == d2.max_total_size_of_tables)) by {
        law_prefix_cancel("  Max Total Size: "@, decimal(d1.max_total_size_of_tables as nat), decimal(d2.max_total_size_of_tables as nat));
        law_decimal_injective(d1.max_total_size_of_tables as nat, d2.max_total_size_of_tables as nat);
    }
    assert((l1[2] == l2[2]) <==> (d1.table_size_alignment == d2.table_size_alignment)) by {
        law_prefix_cancel("  Table Size Alignment: "@, decimal(d1.table_size_alignment as nat), decimal(d2.table_size_alignment as nat));
        law_decimal_injective(d1.table_size_alignment as nat, d2.table_size_alignment as nat);
    }
}

/// Law: the feature that this tool does not know is shown one field per line, each line the field's
/// label followed by that field's value, in this order.
pub proof fn law_unrecognized_lines(d: UnrecognizedDescriptor)
    ensures
        (descriptor_lines(FeatureDescriptor::Unrecognized(d)) == seq![
            "  Length: "@ + decimal(d.length as nat),
        ]),
{
}

/// Law: in the lines of the feature that this tool does not know, each line changes exactly when the
/// field its label names changes, whatever the other fields hold.
pub proof fn law_unrecognized_lines_follow_fields(d1: UnrecognizedDescriptor, d2: UnrecognizedDescriptor)
    ensures
        (descriptor_lines(FeatureDescriptor::Unrecognized(d1))[0] == descriptor_lines(
            FeatureDescriptor::Unrecognized(d2),
        )[0]) <==> (d1.length == d2.length),
{
    let l1 = descriptor_lines(FeatureDescriptor::Unrecognized(d1));
    let l2 = descriptor_lines(FeatureDescriptor::Unrecognized(d2));
    assert((l1[0] == l2[0]) <==> (d1.length == d2.length)) by {
        law_prefix_cancel("  Length: "@, decimal(d1.length as nat), decimal(d2.length as nat));
        law_decimal_injective(d1.length as nat, d2.length as nat);
    }
}

} // verus!
