use sed_manager_cli::discovery::{
    discovery_report, DataRemovalDescriptor, Discovery, Feature, FeatureDescriptor,
    GeometryDescriptor, LockingDescriptor, OpalV2Descriptor, SupportedDataRemovalMechanism,
    TPerDescriptor, UnrecognizedDescriptor,
};

fn feature(code: &str, version: u64, descriptor: FeatureDescriptor) -> Feature {
    Feature { code: code.to_string(), version, descriptor }
}

#[test]
fn test_print_discovery() {
    let tper = FeatureDescriptor::TPer(TPerDescriptor {
        com_id_mgmt_supported: true,
        streaming_supported: true,
        buffer_mgmt_supported: false,
        ack_nak_supported: false,
        async_supported: true,
        sync_supported: true,
    });

    let locking = FeatureDescriptor::Locking(LockingDescriptor {
        hw_reset_supported: true,
        mbr_shadowing_not_supported: false,
        mbr_done: true,
        mbr_enabled: false,
        media_encryption: true,
        locked: false,
        locking_enabled: true,
        locking_supported: true,
    });

    let discovery = Discovery::new(vec![feature("TPer", 1, tper), feature("Locking", 1, locking)]);

    // Just verify it doesn't panic
    for line in discovery_report(&discovery) {
        println!("{}", line);
    }
}

#[test]
fn discovery_report_lines_of_tper_and_locking() {
    let tper = FeatureDescriptor::TPer(TPerDescriptor {
        com_id_mgmt_supported: true,
        streaming_supported: true,
        buffer_mgmt_supported: false,
        ack_nak_supported: false,
        async_supported: true,
        sync_supported: true,
    });
    let locking = FeatureDescriptor::Locking(LockingDescriptor {
        hw_reset_supported: true,
        mbr_shadowing_not_supported: false,
        mbr_done: true,
        mbr_enabled: false,
        media_encryption: true,
        locked: false,
        locking_enabled: true,
        locking_supported: true,
    });
    let discovery = Discovery::new(vec![feature("TPer", 1, tper), feature("Locking", 2, locking)]);
    let expected = vec![
        "Discovery Data:",
        "",
        "Feature: TPer (Version 1)",
        "  ComID Management Supported: true",
        "  Streaming Supported: true",
        "  Buffer Management Supported: false",
        "  ACK/NAK Supported: false",
        "  Async Supported: true",
        "  Sync Supported: true",
        "",
        "Feature: Locking (Version 2)",
        "  Locking Supported: true",
        "  Locking Enabled: true",
        "  Locked: false",
        "  Media Encryption: true",
        "  MBR Enabled: false",
        "  MBR Done: true",
        "  MBR Shadowing Not Supported: false",
        "  HW Reset Supported: true",
        "",
    ];
    assert_eq!(discovery_report(&discovery), expected);
}

#[test]
fn discovery_report_of_no_features() {
    let discovery = Discovery::new(vec![]);
    assert_eq!(discovery_report(&discovery), vec!["Discovery Data:", ""]);
}

#[test]
fn discovery_report_numbers_and_texts() {
    let opal = FeatureDescriptor::OpalV2(OpalV2Descriptor {
        base_com_id: 4096,
        num_com_ids: 1,
        no_range_crossing: false,
        num_locking_admins_supported: 4,
        num_locking_users_supported: 9,
        initial_owner_pw: "SIDEqualsMSID".to_string(),
        reverted_owner_pw: "VendorSpecified".to_string(),
    });
    let geometry = FeatureDescriptor::Geometry(GeometryDescriptor {
        align: true,
        logical_block_size: 512,
        alignment_granularity: 8,
        lowest_aligned_lba: 0,
    });
    let removal = FeatureDescriptor::DataRemoval(DataRemovalDescriptor {
        processing: false,
        interrupted: true,
        supported_mechanism: SupportedDataRemovalMechanism {
            overwrite: true,
            block_erase: false,
            crypto_erase: true,
            vendor_erase: false,
        },
    });
    let unknown = FeatureDescriptor::Unrecognized(UnrecognizedDescriptor { length: 18446744073709551615 });
    let discovery = Discovery::new(vec![
        feature("OpalV2", 2, opal),
        feature("Geometry", 1, geometry),
        feature("DataRemoval", 1, removal),
        feature("0x4000", 10, unknown),
    ]);
    let expected = vec![
        "Discovery Data:",
        "",
        "Feature: OpalV2 (Version 2)",
        "  Base ComID: 4096",
        "  Num ComIDs: 1",
        "  No Range Crossing: false",
        "  Num Locking Admins: 4",
        "  Num Locking Users: 9",
        "  Initial Owner Password: SIDEqualsMSID",
        "  Reverted Owner Password: VendorSpecified",
        "",
        "Feature: Geometry (Version 1)",
        "  Align: true",
        "  Logical Block Size: 512",
        "  Alignment Granularity: 8",
        "  Lowest Aligned LBA: 0",
        "",
        "Feature: DataRemoval (Version 1)",
        "  Processing: false",
        "  Interrupted: true",
        "  Supported Mechanisms:",
        "    Overwrite: true",
        "    Block Erase: false",
        "    Crypto Erase: true",
        "    Vendor Erase: false",
        "",
        "Feature: 0x4000 (Version 10)",
        "  Length: 18446744073709551615",
        "",
    ];
    assert_eq!(discovery_report(&discovery), expected);
}
