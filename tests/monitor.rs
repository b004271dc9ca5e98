use uefi_var_monitor::entry::{
    after_install, after_registration, load_start_line, panic_handler, EntryAction, Fault,
};
use uefi_var_monitor::hex::push_hex;
use uefi_var_monitor::hook::{ForwardingSlot, RelocationError, SlotPhase};
use uefi_var_monitor::name::decode_name;
use uefi_var_monitor::record::{effective_size, handle_get_variable, CallRecord};
use uefi_var_monitor::table::{HookError, ServiceTable};

const ERROR_BIT: usize = 1usize << (usize::BITS - 1);

fn crc32(bytes: &[u8]) -> u32 {
    let mut crc: u32 = 0xffff_ffff;
    for &b in bytes {
        crc ^= b as u32;
        for _ in 0..8 {
            let mask = (crc & 1).wrapping_neg();
            crc = (crc >> 1) ^ (0xedb8_8320 & mask);
        }
    }
    !crc
}

/// A 40-byte image: a 24-byte header covering all 40 bytes, a stale
/// checksum, and one entry at offset 24 holding `entry`, then 8 spare bytes.
fn fake_image(entry: u64) -> Vec<u8> {
    let mut image = vec![0u8; 40];
    image[0..8].copy_from_slice(&0x5652_4553_544e_5552u64.to_le_bytes());
    image[8..12].copy_from_slice(&0x0002_0046u32.to_le_bytes());
    image[12..16].copy_from_slice(&40u32.to_le_bytes());
    image[16..20].copy_from_slice(&0xdead_beefu32.to_le_bytes());
    image[24..32].copy_from_slice(&entry.to_le_bytes());
    image[32..40].copy_from_slice(&0x1111_2222_3333_4444u64.to_le_bytes());
    image
}

fn text(v: &[u8]) -> String {
    String::from_utf8(v.to_vec()).unwrap()
}

fn units(s: &str) -> Vec<u16> {
    s.encode_utf16().collect()
}

#[test]
fn install_exchanges_entry_in_fake_table() {
    let x = 0x0000_0000_7fe1_2340u64;
    let y = 0x0000_0000_7fd0_0100u64;
    let mut table = ServiceTable::from_image(fake_image(x)).unwrap();
    let r = table.install(24, y, |b: &[u8]| (0usize, crc32(b)));
    assert_eq!(r, Ok((x, 0)));
    assert_eq!(table.entry(24), Some(y));
    let mut expected = fake_image(y);
    expected[16..20].copy_from_slice(&[0, 0, 0, 0]);
    let crc = crc32(&expected);
    assert_eq!(table.checksum(), crc);
    expected[16..20].copy_from_slice(&crc.to_le_bytes());
    assert_eq!(table.image(), expected.as_slice());
}

#[test]
fn install_checksum_covers_only_header_size_bytes() {
    let mut image = fake_image(5);
    image[12..16].copy_from_slice(&32u32.to_le_bytes());
    let mut table = ServiceTable::from_image(image).unwrap();
    let seen = std::cell::Cell::new(0usize);
    let r = table.install(24, 9, |b: &[u8]| {
        seen.set(b.len());
        (0usize, crc32(b))
    });
    assert_eq!(r, Ok((5, 0)));
    assert_eq!(seen.get(), 32);
    let mut covered = fake_image(9)[0..32].to_vec();
    covered[12..16].copy_from_slice(&32u32.to_le_bytes());
    covered[16..20].copy_from_slice(&[0, 0, 0, 0]);
    assert_eq!(table.checksum(), crc32(&covered));
}

#[test]
fn install_refuses_entry_already_hooked() {
    let y = 0x7fd0_0100u64;
    let mut table = ServiceTable::from_image(fake_image(y)).unwrap();
    let called = std::cell::Cell::new(false);
    let r = table.install(24, y, |b: &[u8]| {
        called.set(true);
        (0usize, crc32(b))
    });
    assert_eq!(r, Err(HookError::AlreadyInstalled));
    assert!(!called.get());
    assert_eq!(table.image(), fake_image(y).as_slice());
}

#[test]
fn install_refuses_slot_outside_table() {
    let mut table = ServiceTable::from_image(fake_image(1)).unwrap();
    assert_eq!(table.install(33, 2, |b: &[u8]| (0usize, crc32(b))), Err(HookError::InvalidSlot));
    assert_eq!(table.install(16, 2, |b: &[u8]| (0usize, crc32(b))), Err(HookError::InvalidSlot));
    assert_eq!(table.image(), fake_image(1).as_slice());
}

#[test]
fn install_reports_checksum_failure() {
    let mut table = ServiceTable::from_image(fake_image(1)).unwrap();
    let st = ERROR_BIT | 2;
    assert_eq!(table.install(24, 2, |_b: &[u8]| (st, 7u32)), Err(HookError::IntegrityFailure(st)));
    assert_eq!(table.entry(24), Some(2));
    assert_eq!(table.checksum(), 0);
}

#[test]
fn install_treats_warning_status_as_success() {
    let mut table = ServiceTable::from_image(fake_image(1)).unwrap();
    assert_eq!(table.install(24, 2, |_b: &[u8]| (4usize, 0x1234_5678u32)), Ok((1, 4)));
    assert_eq!(table.checksum(), 0x1234_5678);
}

#[test]
fn from_image_rejects_bad_headers() {
    assert!(ServiceTable::from_image(vec![0u8; 23]).is_none());
    let mut image = fake_image(0);
    image[12..16].copy_from_slice(&41u32.to_le_bytes());
    assert!(ServiceTable::from_image(image.clone()).is_none());
    image[12..16].copy_from_slice(&23u32.to_le_bytes());
    assert!(ServiceTable::from_image(image).is_none());
    assert_eq!(ServiceTable::from_image(fake_image(0)).unwrap().entry(32), Some(0x1111_2222_3333_4444));
    assert_eq!(ServiceTable::from_image(fake_image(0)).unwrap().entry(33), None);
}

#[test]
fn secure_boot_call_is_logged() {
    let mut name = units("SecureBoot");
    name.push(0);
    name.extend(units("Junk"));
    let guid = [
        0x04u8, 0x03, 0x02, 0x01, 0x06, 0x05, 0x08, 0x07, 0x09, 0x0A, 0x0B, 0x0C, 0x0D, 0x0E, 0, 0,
    ];
    let (status, line) = handle_get_variable(&name, &guid, None, 0);
    assert_eq!(status, 0);
    let line = text(&line);
    assert!(line.contains("SecureBoot"));
    assert!(!line.contains("Junk"));
    assert!(line.contains("01020304-0506-0708-090A-0B0C0D0E"));
    assert!(line.contains("00000000"));
    assert_eq!(line, "G: 01020304-0506-0708-090A-0B0C0D0E0000 Size=00000000 SecureBoot: 0x0");
}

#[test]
fn status_passes_through_unchanged() {
    let name = units("Boot0001\0");
    let guid = [0xffu8; 16];
    for st in [0usize, 4, ERROR_BIT | 14, ERROR_BIT | 5, usize::MAX] {
        let (status, line) = handle_get_variable(&name, &guid, Some(8), st);
        assert_eq!(status, st);
        assert!(text(&line).ends_with(&format!(": {:#x}", st)));
    }
}

#[test]
fn size_is_logged_after_call() {
    let name = units("Lang\0");
    let guid = [0u8; 16];
    let (_, line) = handle_get_variable(&name, &guid, Some(0x1a2b), ERROR_BIT | 5);
    assert_eq!(
        text(&line),
        "G: 00000000-0000-0000-0000-000000000000 Size=00001a2b Lang: 0x8000000000000005"
    );
    let (_, line) = handle_get_variable(&name, &guid, None, ERROR_BIT | 5);
    assert!(text(&line).contains("Size=00000000 "));
    let (_, line) = handle_get_variable(&name, &guid, Some(0x1_2345_6789), 0);
    assert!(text(&line).contains("Size=123456789 "));
    assert_eq!(effective_size(None), 0);
    assert_eq!(effective_size(Some(77)), 77);
}

#[test]
fn guid_fields_are_little_endian() {
    let bytes = [
        0x61u8, 0xdf, 0xe4, 0x8b, 0xca, 0x93, 0xd2, 0x11, 0xaa, 0x0d, 0x00, 0xe0, 0x98, 0x03,
        0x2b, 0x8c,
    ];
    let rec = CallRecord::decode(&units("x\0"), &bytes, None, 0);
    assert_eq!(rec.guid.time_low, 0x8be4_df61);
    assert_eq!(rec.guid.time_mid, 0x93ca);
    assert_eq!(rec.guid.time_hi_and_version, 0x11d2);
    assert_eq!(rec.guid.clk_seq_hi_res, 0xaa);
    assert_eq!(rec.guid.clk_seq_low, 0x0d);
    assert_eq!(rec.guid.node, [0x00, 0xe0, 0x98, 0x03, 0x2b, 0x8c]);
    assert!(text(&rec.to_line()).starts_with("G: 8BE4DF61-93CA-11D2-AA0D-00E098032B8C Size="));
}

#[test]
fn name_stops_at_terminator() {
    let name = units("PK\0KEK\0");
    assert_eq!(decode_name(&name), b"PK".to_vec());
    assert_eq!(decode_name(&[0u16, 65, 66]), Vec::<u8>::new());
    assert_eq!(decode_name(&[]), Vec::<u8>::new());
}

#[test]
fn name_is_capped_at_sixty_four() {
    let long: Vec<u16> = (0..100u16).map(|i| 65 + (i % 26)).collect();
    let got = decode_name(&long);
    assert_eq!(got.len(), 64);
    let expected: Vec<u8> = long[..64].iter().map(|&c| c as u8).collect();
    assert_eq!(got, expected);
    let mut other = long.clone();
    other[64] = 0;
    other[90] = 7;
    assert_eq!(decode_name(&other), got);
    let mut exact = long[..64].to_vec();
    exact[63] = 0;
    assert_eq!(decode_name(&exact).len(), 63);
}

#[test]
fn name_keeps_wide_characters_as_utf8() {
    assert_eq!(decode_name(&[0x0141u16, 0x0042, 0]), "\u{141}B".as_bytes().to_vec());
    assert_eq!(decode_name(&[0x20acu16, 0x00e9, 0x7f, 0]), "\u{20ac}\u{e9}\u{7f}".as_bytes().to_vec());
    assert_eq!(decode_name(&[0xffffu16, 0x0800, 0x07ff, 0]), "\u{ffff}\u{800}\u{7ff}".as_bytes().to_vec());
    assert_eq!(decode_name(&[0xd83du16, 0x41, 0xdfff, 0]), "\u{fffd}A\u{fffd}".as_bytes().to_vec());
    let long = vec![0x0141u16; 80];
    assert_eq!(decode_name(&long), "\u{141}".repeat(64).into_bytes());
}

#[test]
fn wide_name_is_logged_as_utf8() {
    let name = units("Sch\u{e9}ma\0");
    let (_, line) = handle_get_variable(&name, &[0u8; 16], None, 0);
    assert!(text(&line).contains(" Sch\u{e9}ma: "));
}

#[test]
fn relocation_translates_saved_address() {
    let a = 0x7fe1_2340u64;
    let b = 0xffff_ffff_0012_3340u64;
    let mut table = ServiceTable::from_image(fake_image(a)).unwrap();
    let mut slot = ForwardingSlot::new(0x1000);
    assert_eq!(slot.phase(), SlotPhase::Pristine);
    assert_eq!(slot.install(&mut table, 24, 0x9000, |b: &[u8]| (0usize, crc32(b))), Ok(0));
    assert_eq!(slot.target(), a);
    assert_eq!(slot.phase(), SlotPhase::Installed);
    let (line, result) = slot.relocate(0, b);
    assert_eq!(result, Ok(()));
    assert_eq!(slot.target(), b);
    assert_eq!(slot.phase(), SlotPhase::Relocated);
    let line = text(&line);
    assert_eq!(line, "GetVariable relocated from 0x7fe12340 to 0xffffffff00123340");
    assert!(line.contains(&format!("{:#x}", a)));
    assert!(line.contains(&format!("{:#x}", b)));
}

#[test]
fn relocation_pads_short_addresses() {
    let mut table = ServiceTable::from_image(fake_image(0x1234)).unwrap();
    let mut slot = ForwardingSlot::new(0);
    slot.install(&mut table, 24, 0x9000, |b: &[u8]| (0usize, crc32(b))).unwrap();
    let (line, result) = slot.relocate(ERROR_BIT | 3, 0x1234);
    assert_eq!(result, Err(RelocationError::TranslationFailed(ERROR_BIT | 3)));
    assert_eq!(text(&line), "GetVariable relocated from 0x001234 to 0x001234");
}

#[test]
fn forwarding_slot_installs_once() {
    let mut table = ServiceTable::from_image(fake_image(0x50)).unwrap();
    let mut slot = ForwardingSlot::new(0x1);
    slot.install(&mut table, 24, 0x60, |b: &[u8]| (0usize, crc32(b))).unwrap();
    let before = table.image().to_vec();
    assert_eq!(
        slot.install(&mut table, 24, 0x70, |b: &[u8]| (0usize, crc32(b))),
        Err(HookError::AlreadyInstalled)
    );
    assert_eq!(table.image(), before.as_slice());
    assert_eq!(slot.target(), 0x50);
}

#[test]
fn forwarding_slot_keeps_target_on_failed_install() {
    let mut table = ServiceTable::from_image(fake_image(0x60)).unwrap();
    let mut slot = ForwardingSlot::new(0x1);
    assert_eq!(
        slot.install(&mut table, 24, 0x60, |b: &[u8]| (0usize, crc32(b))),
        Err(HookError::AlreadyInstalled)
    );
    assert_eq!(slot.target(), 0x1);
    assert_eq!(slot.phase(), SlotPhase::Pristine);
}

#[test]
fn load_sequence_decisions() {
    assert_eq!(text(&load_start_line()), "Driver being loaded");
    let (action, line) = after_registration(0);
    assert_eq!(action, EntryAction::Proceed);
    assert!(line.is_empty());
    let (action, line) = after_registration(ERROR_BIT | 9);
    assert_eq!(action, EntryAction::Finish(ERROR_BIT | 9));
    assert_eq!(text(&line), format!("create_event_ex failed : {:#x}", ERROR_BIT | 9));
    let (action, line) = after_registration(ERROR_BIT | (1usize << (usize::BITS - 2)));
    assert_eq!(action, EntryAction::Proceed);
    assert!(line.is_empty());
    assert_eq!(after_install(Ok(0)), (EntryAction::Finish(0), Vec::new()));
    assert_eq!(after_install(Ok(4)), (EntryAction::Finish(4), Vec::new()));
    let (action, line) = after_install(Err(HookError::InvalidSlot));
    assert_eq!(action, EntryAction::CloseEventAndFinish(ERROR_BIT | 2));
    assert_eq!(text(&line), format!("exchange_table_pointer failed : {:#x}", ERROR_BIT | 2));
    assert_eq!(
        after_install(Err(HookError::AlreadyInstalled)).0,
        EntryAction::Halt(Fault::PreconditionViolation)
    );
    assert_eq!(
        after_install(Err(HookError::IntegrityFailure(ERROR_BIT | 27))).0,
        EntryAction::Halt(Fault::IntegrityFailure(ERROR_BIT | 27))
    );
}

#[test]
fn halt_lines() {
    assert_eq!(text(&panic_handler(Fault::PreconditionViolation)), "precondition violated");
    assert_eq!(
        text(&panic_handler(Fault::IntegrityFailure(ERROR_BIT | 27))),
        format!("calculate_crc32 failed : {:#x}", ERROR_BIT | 27)
    );
    assert_eq!(
        text(&panic_handler(Fault::RelocationFailure(ERROR_BIT | 17))),
        format!("convert_pointer failed : {:#x}", ERROR_BIT | 17)
    );
}

#[test]
fn hex_rendering() {
    let mut out = Vec::new();
    push_hex(&mut out, 0, 8, false);
    push_hex(&mut out, 0xabc, 2, true);
    push_hex(&mut out, u64::MAX, 0, false);
    assert_eq!(text(&out), "00000000ABCffffffffffffffff");
}
