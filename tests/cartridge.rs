use nes::rom::load_nes;

fn image(prg_banks: u8, chr_banks: u8) -> Vec<u8> {
    let mut v = vec![0x4E, 0x45, 0x53, 0x1A, prg_banks, chr_banks, 0, 0, 0, 0, 0, 0, 0, 0, 0, 0];
    for i in 0..(prg_banks as usize * 0x4000) {
        v.push((i % 7) as u8);
    }
    for i in 0..(chr_banks as usize * 0x2000) {
        v.push((i % 5) as u8 + 100);
    }
    v
}

#[test]
fn splits_program_and_character_rom() {
    let img = image(2, 1);
    let rom = load_nes(&img).unwrap();
    assert_eq!(rom.program_rom.data.len(), 0x8000);
    assert_eq!(rom.character_rom.data.len(), 0x2000);
    assert_eq!(rom.program_rom.data[..], img[16..16 + 0x8000]);
    assert_eq!(rom.character_rom.data[..], img[16 + 0x8000..]);
}

#[test]
fn rejects_bad_magic_and_short_images() {
    let mut img = image(1, 1);
    img[3] = 0x1B;
    assert!(load_nes(&img).is_none());
    let mut short = image(1, 1);
    short.pop();
    assert!(load_nes(&short).is_none());
    assert!(load_nes(&vec![0x4E, 0x45, 0x53]).is_none());
}
