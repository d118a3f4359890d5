use framework_lib::smbios::SmbiosStore;
use framework_tool_tui::smbios::{
    first_bios_string, smbios_release_date, smbios_vendor, smbios_version, BiosField,
};

/// A BIOS information structure (SMBIOS 3.4 layout) whose vendor, version
/// and release date are the strings at the given indices (0: no string).
fn bios_structure(vendor: u8, version: u8, date: u8, strings: &[&str]) -> Vec<u8> {
    let mut s = vec![0x00, 0x1A, 0x00, 0x00, vendor, version, 0x00, 0xE0, date, 0xFF];
    s.extend_from_slice(&[0; 8]);
    s.extend_from_slice(&[0, 0, 3, 5, 0xFF, 0xFF, 0, 0]);
    for string in strings {
        s.extend_from_slice(string.as_bytes());
        s.push(0);
    }
    if strings.is_empty() {
        s.push(0);
    }
    s.push(0);
    s
}

fn end_of_table() -> Vec<u8> {
    vec![127, 4, 0xFF, 0xFF, 0, 0]
}

fn store(structures: &[Vec<u8>]) -> Option<SmbiosStore> {
    let data: Vec<u8> = structures.concat();
    Some(SmbiosStore::from_table_data(data, 3, 4).expect("valid entry point"))
}

#[test]
fn bios_strings_are_read_from_the_table() {
    let smbios = store(&[
        bios_structure(1, 2, 3, &["INSYDE Corp.", "03.19", "05/29/2024"]),
        end_of_table(),
    ]);
    assert_eq!(smbios_vendor(&smbios).as_deref(), Some("INSYDE Corp."));
    assert_eq!(smbios_version(&smbios).as_deref(), Some("03.19"));
    assert_eq!(smbios_release_date(&smbios).as_deref(), Some("05/29/2024"));
}

#[test]
fn empty_bios_strings_are_skipped_for_a_later_structure() {
    let smbios = store(&[
        bios_structure(1, 0, 0, &["First"]),
        bios_structure(1, 2, 3, &["Second", "3.05", "01/01/2025"]),
        end_of_table(),
    ]);
    assert_eq!(smbios_vendor(&smbios).as_deref(), Some("First"));
    assert_eq!(smbios_version(&smbios).as_deref(), Some("3.05"));
    assert_eq!(smbios_release_date(&smbios).as_deref(), Some("01/01/2025"));
}

#[test]
fn table_without_bios_strings() {
    let smbios = store(&[bios_structure(0, 0, 0, &[]), end_of_table()]);
    assert_eq!(smbios_version(&smbios), None);
    assert_eq!(smbios_vendor(&smbios), None);
    assert_eq!(smbios_release_date(&smbios), None);
    assert_eq!(smbios_version(&None), None);
}

#[test]
fn walk_stops_at_the_first_match() {
    // The structure after the BIOS one has a header length below 4, which
    // dmidecode cannot read; the search never reaches it.
    let smbios = store(&[
        bios_structure(1, 2, 3, &["Vendor", "1.0", "12/31/2023"]),
        vec![0x80, 0x02, 0x00, 0x00, 0x00, 0x00],
    ]);
    assert_eq!(smbios_version(&smbios).as_deref(), Some("1.0"));
    assert_eq!(smbios_vendor(&smbios).as_deref(), Some("Vendor"));
    assert_eq!(smbios_release_date(&smbios).as_deref(), Some("12/31/2023"));
}

#[test]
fn undecodable_structures_are_passed_over() {
    // The first BIOS structure names a version string that it lacks.
    let smbios = store(&[
        bios_structure(1, 5, 0, &["Broken"]),
        bios_structure(1, 2, 3, &["Good", "2.0", "01/02/2024"]),
        end_of_table(),
    ]);
    assert_eq!(smbios_version(&smbios).as_deref(), Some("2.0"));
    assert_eq!(smbios_vendor(&smbios).as_deref(), Some("Good"));
}

#[test]
fn first_bios_string_walks_a_table() {
    let smbios = store(&[
        bios_structure(0, 1, 0, &["0.9"]),
        bios_structure(1, 2, 3, &["Vendor", "2.0", "12/31/2023"]),
        end_of_table(),
    ])
    .expect("table");
    assert_eq!(first_bios_string(smbios.structures(), BiosField::Vendor).as_deref(), Some("Vendor"));
    assert_eq!(first_bios_string(smbios.structures(), BiosField::Version).as_deref(), Some("0.9"));
    assert_eq!(
        first_bios_string(smbios.structures(), BiosField::ReleaseDate).as_deref(),
        Some("12/31/2023")
    );
    let empty = store(&[end_of_table()]).expect("table");
    assert_eq!(first_bios_string(empty.structures(), BiosField::Version), None);
}
