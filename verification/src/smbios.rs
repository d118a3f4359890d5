use vstd::prelude::*;

use dmidecode::{MalformedStructureError, Structure, Structures};
use framework_lib::smbios::SmbiosStore;

verus! {

/// The SMBIOS table of `framework_lib`: the entry point and the raw table.
#[verifier::external_type_specification]
#[verifier::external_body]
pub struct ExSmbiosStore(SmbiosStore);

/// `dmidecode`'s walk over an SMBIOS table: an iterator over its structures.
#[verifier::external_type_specification]
#[verifier::external_body]
pub struct ExStructures<'a>(Structures<'a>);

/// A decoded SMBIOS structure of `dmidecode`, the item type of its walk.
#[verifier::external_type_specification]
#[verifier::external_body]
pub struct ExStructure<'a>(Structure<'a>);

/// `dmidecode`'s error for a structure that cannot be read or decoded.
#[verifier::external_type_specification]
#[verifier::external_body]
pub struct ExMalformedStructureError(MalformedStructureError);

/// One structure of the SMBIOS table, as far as the information screen
/// reads it.
pub enum SmbiosEntry {
    /// A BIOS information structure (type 0) with its strings.
    Bios { vendor: String, version: String, release_date: String },
    /// A well-formed structure of another type.
    Other,
    /// A structure that could not be read or decoded.
    Malformed,
}

/// The BIOS strings shown on the information screen.
#[derive(Clone, Copy, Debug, PartialEq, Eq, Structural)]
pub enum BiosField {
    Vendor,
    Version,
    ReleaseDate,
}

// A step of `dmidecode`'s walk is clean when it returns without panicking
// and reads only inside the table. `dmidecode` panics on a structure whose
// header length is below 4 or on an entry point that claims more table than
// the data holds, and reads a BIOS structure's fields without checking its
// length; which tables are walked cleanly cannot be stated here, since the
// table bytes are private to `SmbiosStore`, so the names below speak of it.

/// The structures that a walk over the SMBIOS table yields, in table order,
/// as long as its steps are clean: up to the end of the walk, or up to the
/// first step that is not clean.
pub uninterp spec fn smbios_structures(store: SmbiosStore) -> Seq<SmbiosEntry>;

/// Every step of a walk over the SMBIOS table is clean, the last one
/// included (the one that finds no structure left).
pub uninterp spec fn smbios_walk_completes(store: SmbiosStore) -> bool;

/// The structures that the rest of a walk yields by clean steps.
pub uninterp spec fn pending_structures(walk: Structures<'_>) -> Seq<SmbiosEntry>;

/// Every remaining step of a walk is clean.
pub uninterp spec fn walk_completes(walk: Structures<'_>) -> bool;

/// The text of a BIOS string, where `entry` is a BIOS structure.
pub open spec fn bios_field_text(entry: SmbiosEntry, field: BiosField) -> Option<Seq<char>> {
    match entry {
        SmbiosEntry::Bios { vendor, version, release_date } => Some(
            match field {
                BiosField::Vendor => vendor@,
                BiosField::Version => version@,
                BiosField::ReleaseDate => release_date@,
            },
        ),
        _ => None,
    }
}

/// `entry` is a BIOS structure whose string `field` is not empty.
pub open spec fn shows_bios_field(entry: SmbiosEntry, field: BiosField) -> bool {
    bios_field_text(entry, field) is Some && bios_field_text(entry, field)->0.len() > 0
}

/// The string `field` of the first BIOS structure in which it is not empty.
pub open spec fn first_bios_text(entries: Seq<SmbiosEntry>, field: BiosField) -> Option<Seq<char>>
    decreases entries.len(),
{
    if entries.len() == 0 {
        None
    } else if shows_bios_field(entries[0], field) {
        bios_field_text(entries[0], field)
    } else {
        first_bios_text(entries.drop_first(), field)
    }
}

/// The BIOS string `field` of an SMBIOS table, where a table was read.
pub open spec fn smbios_text(smbios: Option<SmbiosStore>, field: BiosField) -> Option<Seq<char>> {
    match smbios {
        Some(store) => first_bios_text(smbios_structures(store), field),
        None => None,
    }
}

/// The walk that looks for the string `field` stays clean: it reaches a BIOS
/// structure that shows the string, or it completes.
pub open spec fn smbios_readable(smbios: Option<SmbiosStore>, field: BiosField) -> bool {
    match smbios {
        Some(store) => first_bios_text(smbios_structures(store), field) is Some
            || smbios_walk_completes(store),
        None => true,
    }
}

/// The text of an optional string.
pub open spec fn text_of(s: Option<String>) -> Option<Seq<char>> {
    match s {
        Some(t) => Some(t@),
        None => None,
    }
}

/// Starts a walk over the table with `SmbiosStore::structures` of
/// `framework_lib`, which builds a `dmidecode::Structures` iterator at the
/// start of the table and reads nothing yet: what the walk has still to
/// yield is what the table yields, and it is clean where the table's walk is.
#[verifier::external_body]
fn start_walk(store: &SmbiosStore) -> (walk: Structures<'_>)
    ensures
        pending_structures(walk) == smbios_structures(*store),
        walk_completes(walk) == smbios_walk_completes(*store),
{
    store.structures()
}

/// One step of the walk: `Iterator::next` of `dmidecode::Structures`, with
/// the item handed out as an [`SmbiosEntry`]: a decoded BIOS structure with
/// its vendor, version and release date strings, any other decoded
/// structure as `Other`, an error as `Malformed`. `dmidecode` goes on after
/// an error in decoding a structure and ends the walk after an error in
/// reading one; the names above take the walk as it goes. The step must be
/// clean: a structure is still to come, or the rest of the walk is clean.
#[verifier::external_body]
fn next_structure(walk: &mut Structures<'_>) -> (entry: Option<SmbiosEntry>)
    requires
        pending_structures(*old(walk)).len() > 0 || walk_completes(*old(walk)),
    ensures
        pending_structures(*old(walk)).len() > 0 ==> {
            &&& entry == Some(pending_structures(*old(walk))[0])
            &&& pending_structures(*final(walk)) == pending_structures(*old(walk)).drop_first()
            &&& walk_completes(*final(walk)) == walk_completes(*old(walk))
        },
        pending_structures(*old(walk)).len() == 0 ==> entry is None,
{
    match walk.next() {
        None => None,
        Some(Ok(Structure::Bios(bios))) => Some(SmbiosEntry::Bios {
            vendor: bios.vendor.to_string(),
            version: bios.bios_version.to_string(),
            release_date: bios.bios_release_date.to_string(),
        }),
        Some(Ok(_)) => Some(SmbiosEntry::Other),
        Some(Err(_)) => Some(SmbiosEntry::Malformed),
    }
}

/// Walks on until a BIOS structure shows the string `field`, and returns
/// that string; `None` where the walk ends first. Stops at the first match.
pub fn first_bios_string(walk: Structures<'_>, field: BiosField) -> (r: Option<String>)
    requires
        first_bios_text(pending_structures(walk), field) is Some || walk_completes(walk),
    ensures
        text_of(r) == first_bios_text(pending_structures(walk), field),
{
    let mut rest = walk;
    loop
        invariant
            first_bios_text(pending_structures(rest), field) == first_bios_text(
                pending_structures(walk),
                field,
            ),
            first_bios_text(pending_structures(rest), field) is Some || walk_completes(rest),
        decreases pending_structures(rest).len(),
    {
        match next_structure(&mut rest) {
            None => {
                return None;
            },
            Some(entry) => {
                if let SmbiosEntry::Bios { vendor, version, release_date } = entry {
                    let text = match field {
                        BiosField::Vendor => vendor,
                        BiosField::Version => version,
                        BiosField::ReleaseDate => release_date,
                    };
                    if !text.as_str().is_empty() {
                        return Some(text);
                    }
                }
            },
        }
    }
}

fn smbios_string(smbios: &Option<SmbiosStore>, field: BiosField) -> (r: Option<String>)
    requires
        smbios_readable(*smbios, field),
    ensures
        text_of(r) == smbios_text(*smbios, field),
{
    match smbios {
        Some(store) => first_bios_string(start_walk(store), field),
        None => None,
    }
}

/// The BIOS version: that of the first BIOS structure that has one.
pub fn smbios_version(smbios: &Option<SmbiosStore>) -> (r: Option<String>)
    requires
        smbios_readable(*smbios, BiosField::Version),
    ensures
        text_of(r) == smbios_text(*smbios, BiosField::Version),
{
    smbios_string(smbios, BiosField::Version)
}

/// The BIOS release date: that of the first BIOS structure that has one.
pub fn smbios_release_date(smbios: &Option<SmbiosStore>) -> (r: Option<String>)
    requires
        smbios_readable(*smbios, BiosField::ReleaseDate),
    ensures
        text_of(r) == smbios_text(*smbios, BiosField::ReleaseDate),
{
    smbios_string(smbios, BiosField::ReleaseDate)
}

/// The BIOS vendor: that of the first BIOS structure that has one.
pub fn smbios_vendor(smbios: &Option<SmbiosStore>) -> (r: Option<String>)
    requires
        smbios_readable(*smbios, BiosField::Vendor),
    ensures
        text_of(r) == smbios_text(*smbios, BiosField::Vendor),
{
    smbios_string(smbios, BiosField::Vendor)
}

/// A BIOS string is reported exactly when some BIOS structure has it
/// non-empty, and then it is the string of the first such structure: never
/// an empty string, and never one of a later structure.
pub proof fn lemma_first_bios_text_is_first_match(entries: Seq<SmbiosEntry>, field: BiosField)
    ensures
        first_bios_text(entries, field) is None <==> forall|i: int|
            0 <= i < entries.len() ==> !#[trigger] shows_bios_field(entries[i], field),
        first_bios_text(entries, field) is Some ==> exists|i: int|
            0 <= i < entries.len() && #[trigger] shows_bios_field(entries[i], field)
                && first_bios_text(entries, field) == bios_field_text(entries[i], field) && forall|
                j: int,
            |
                0 <= j < i ==> !#[trigger] shows_bios_field(entries[j], field),
    decreases entries.len(),
{
    if entries.len() > 0 && !shows_bios_field(entries[0], field) {
        // The first structure does not show the string: the answer is that of the rest.
        let rest = entries.drop_first();
        lemma_first_bios_text_is_first_match(rest, field);
        assert forall|i: int| 0 < i < entries.len() implies entries[i] == rest[i - 1] by {}
        if first_bios_text(rest, field) is Some {
            let k = choose|k: int|
                0 <= k < rest.len() && #[trigger] shows_bios_field(rest[k], field)
                    && first_bios_text(rest, field) == bios_field_text(rest[k], field) && forall|
                    j: int,
                |
                    0 <= j < k ==> !#[trigger] shows_bios_field(rest[j], field);
            assert(entries[k + 1] == rest[k]);
            assert forall|j: int| 0 <= j < k + 1 implies !#[trigger] shows_bios_field(
                entries[j],
                field,
            ) by {
                if j > 0 {
                    assert(entries[j] == rest[j - 1]);
                }
            }
            assert(shows_bios_field(entries[k + 1], field));
        } else {
            assert forall|i: int| 0 <= i < entries.len() implies !#[trigger] shows_bios_field(
                entries[i],
                field,
            ) by {
                if i > 0 {
                    assert(entries[i] == rest[i - 1]);
                }
            }
        }
    }
}

/// A reported BIOS string is never empty and is the string of a BIOS
/// structure in the walk: its vendor, version or release date as asked.
/// Where the first structure is a BIOS structure with that string
/// non-empty, it is the one reported.
pub proof fn lemma_reported_bios_string_comes_from_a_bios_structure(
    entries: Seq<SmbiosEntry>,
    field: BiosField,
)
    ensures
        first_bios_text(entries, field) is Some ==> first_bios_text(entries, field)->0.len() > 0
            && exists|i: int|
            0 <= i < entries.len() && match #[trigger] entries[i] {
                SmbiosEntry::Bios { vendor, version, release_date } => first_bios_text(
                    entries,
                    field,
                )->0 == match field {
                    BiosField::Vendor => vendor@,
                    BiosField::Version => version@,
                    BiosField::ReleaseDate => release_date@,
                },
                _ => false,
            },
        entries.len() > 0 ==> match entries[0] {
            SmbiosEntry::Bios { vendor, version, release_date } => {
                let text = match field {
                    BiosField::Vendor => vendor@,
                    BiosField::Version => version@,
                    BiosField::ReleaseDate => release_date@,
                };
                text.len() > 0 ==> first_bios_text(entries, field) == Some(text)
            },
            _ => true,
        },
{
    lemma_first_bios_text_is_first_match(entries, field);
}

} // verus!
