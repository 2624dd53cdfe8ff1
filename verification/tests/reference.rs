use luau_lifter::decoder::import::{chain_length, pack, split_first, Import};
use luau_lifter::decoder::ref_known::{RefKnown, UnknownReference};
use luau_lifter::decoder::ref_unknown::RefUnknown;
use luau_lifter::instruction::builtin::{BuiltIn, UnknownBuiltIn};
use luau_lifter::instruction::import::Import as OldImport;

#[test]
fn packing_two_indices_then_unpacking_yields_them_and_no_more() {
    let word = pack(&[3, 7]).expect("two small indices");
    assert_eq!(word, (2 << 30) | 3 | (7 << 10));
    let mut walk = Import::from(word);
    assert_eq!(walk.len(), 2);
    assert_eq!(walk.next(), Some(3));
    assert_eq!(walk.len(), 1);
    assert_eq!(walk.next(), Some(7));
    assert_eq!(walk.len(), 0);
    assert_eq!(walk.next(), None);
    assert_eq!(walk.next(), None);
}

#[test]
fn pack_rejects_what_does_not_fit() {
    assert_eq!(pack(&[]), Some(0));
    assert_eq!(pack(&[1023, 1023, 1023]), Some(0xffff_ffff));
    assert_eq!(pack(&[1024]), None);
    assert_eq!(pack(&[0, 0, 1024]), None);
    assert_eq!(pack(&[1, 2, 3, 4]), None);
}

#[test]
fn chain_of_three() {
    let word: u32 = (3 << 30) | (0x155 << 20) | (0x2aa << 10) | 0x3ff;
    assert_eq!(chain_length(word), 3);
    let mut walk = Import::from(word);
    assert_eq!(walk.next(), Some(0x3ff));
    assert_eq!(walk.next(), Some(0x2aa));
    assert_eq!(walk.next(), Some(0x155));
    assert_eq!(walk.next(), None);
}

#[test]
fn fields_above_the_length_are_not_yielded() {
    let word: u32 = (1 << 30) | (9 << 20) | (8 << 10) | 7;
    let mut walk = Import::from(word);
    assert_eq!(walk.next(), Some(7));
    assert_eq!(walk.next(), None);
    assert_eq!(split_first(0x3fff_ffff), None);
}

#[test]
fn ref_unknown_walks_the_same_chain() {
    let mut walk = RefUnknown::from(pack(&[5, 6, 7]).unwrap());
    assert_eq!(walk.len(), 3);
    assert_eq!(walk.next(), Some(5));
    assert_eq!(walk.next(), Some(6));
    assert_eq!(walk.next(), Some(7));
    assert_eq!(walk.next(), None);
}

#[test]
fn import_of_the_instruction_module_walks_the_same_chain() {
    let mut walk = OldImport::new(pack(&[1000, 1]).unwrap());
    assert_eq!(walk.len(), 2);
    assert_eq!(walk.next(), Some(1000));
    assert_eq!(walk.next(), Some(1));
    assert_eq!(walk.next(), None);
}

#[test]
fn known_references_start_at_one() {
    assert_eq!(RefKnown::try_from(0), Err(UnknownReference));
    assert_eq!(RefKnown::try_from(1), Ok(RefKnown::Assert));
    assert_eq!(RefKnown::try_from(2), Ok(RefKnown::Abs));
    assert_eq!(RefKnown::try_from(57), Ok(RefKnown::Select));
    assert_eq!(RefKnown::try_from(58), Err(UnknownReference));
    assert_eq!(RefKnown::Assert.name(), "assert");
    assert_eq!(RefKnown::Atan2.name(), "math.atan2");
    assert_eq!(RefKnown::Tunpack.name(), "table.unpack");
    assert_eq!(RefKnown::Select.to_string(), "select");
}

#[test]
fn built_ins_start_at_one() {
    assert_eq!(BuiltIn::try_from(0), Err(UnknownBuiltIn));
    assert_eq!(BuiltIn::try_from(1), Ok(BuiltIn::Assert));
    assert_eq!(BuiltIn::try_from(28), Ok(BuiltIn::Arshift));
    assert_eq!(BuiltIn::try_from(57), Ok(BuiltIn::Select));
    assert_eq!(BuiltIn::try_from(58), Err(UnknownBuiltIn));
    assert_eq!(BuiltIn::try_from(255), Err(UnknownBuiltIn));
    assert_eq!(BuiltIn::Arshift.name(), "bit32.arshift");
    assert_eq!(BuiltIn::Countrz.name(), "bit32.countrz");
    assert_eq!(BuiltIn::Typeof.to_string(), "typeof");
    let mut seen = Vec::new();
    for id in 1..=57u8 {
        let name = BuiltIn::try_from(id).unwrap().name();
        assert!(!seen.contains(&name));
        seen.push(name);
    }
}
