use amx::{Amx, AmxEmuCtx, MemArgs, MemSize};

fn load_generic(
    ctx: &mut AmxEmuCtx,
    data: &[u8],
    index: usize,
    n_bytes: usize,
    reg: u8,
    interleaved: bool,
) {
    match (n_bytes, reg, interleaved) {
        (64, 0, false) => ctx.load512_x(data, index),
        (64, 1, false) => ctx.load512_y(data, index),
        (64, 2, false) => ctx.load512_z(data, index),
        (64, 2, true) => ctx.load512_z_interleaved(data, index),
        (128, 0, false) => ctx.load1024_x_aligned(data, index),
        (128, 1, false) => ctx.load1024_y_aligned(data, index),
        (128, 2, false) => ctx.load1024_z_aligned(data, index),
        _ => unreachable!(),
    }
}

fn store_generic(
    ctx: &mut AmxEmuCtx,
    out: &mut Vec<u8>,
    index: usize,
    n_bytes: usize,
    reg: u8,
    interleaved: bool,
) {
    match (n_bytes, reg, interleaved) {
        (64, 0, false) => ctx.store512_x(out, 0, index),
        (64, 1, false) => ctx.store512_y(out, 0, index),
        (64, 2, false) => ctx.store512_z(out, 0, index),
        (64, 2, true) => ctx.store512_z_interleaved(out, 0, index),
        (128, 0, false) => ctx.store1024_x_aligned(out, 0, index),
        (128, 1, false) => ctx.store1024_y_aligned(out, 0, index),
        (128, 2, false) => ctx.store1024_z_aligned(out, 0, index),
        _ => unreachable!(),
    }
}

#[test]
fn copy_and_check_memory() {
    let mut ctx = AmxEmuCtx::new();

    let mut src: Vec<u8> = Vec::new();
    for i in 0..4096u16 {
        src.extend_from_slice(&i.to_le_bytes());
    }

    for &n_bytes in &[64usize, 128] {
        for &reg in &[0u8, 1, 2] {
            for reg_offset in 0..64usize {
                for &interleaved in &[false, true] {
                    if interleaved && (reg != 2 || n_bytes != 64) {
                        continue;
                    }
                    if reg != 2 && reg_offset >= 8 {
                        continue;
                    }

                    let mut got: Vec<u8> = Vec::new();
                    for _ in 0..4096u16 {
                        got.extend_from_slice(&0xbeefu16.to_le_bytes());
                    }
                    let mut expected: Vec<u8> = Vec::new();
                    for i in 0..4096u16 {
                        if (i as usize) * 2 < n_bytes {
                            expected.extend_from_slice(&i.to_le_bytes());
                        } else {
                            expected.extend_from_slice(&0xbeefu16.to_le_bytes());
                        }
                    }

                    load_generic(&mut ctx, &src, reg_offset, n_bytes, reg, interleaved);
                    store_generic(&mut ctx, &mut got, reg_offset, n_bytes, reg, interleaved);

                    assert_eq!(got, expected);
                }
            }
        }
    }
}

#[test]
fn load_and_check_register() {
    let mut ctx = AmxEmuCtx::new();

    let mut pat1: Vec<u64> = Vec::new();
    for i in 0..16u64 {
        pat1.push(i + (75 - i) * 0x100000000);
    }
    let mut pat1_bytes: Vec<u8> = Vec::new();
    for v in &pat1 {
        pat1_bytes.extend_from_slice(&v.to_le_bytes());
    }

    let pat2: Vec<u64> = vec![0x2222_2222_2222_2222; 512];
    let mut pat2_bytes: Vec<u8> = Vec::new();
    for v in &pat2 {
        pat2_bytes.extend_from_slice(&v.to_le_bytes());
    }

    for &n_bytes in &[64usize, 128] {
        for &reg in &[0u8, 1, 2] {
            for reg_offset in 0..64usize {
                for &interleaved in &[false, true] {
                    if interleaved && (reg != 2 || n_bytes != 64) {
                        continue;
                    }
                    if reg != 2 && reg_offset >= 8 {
                        continue;
                    }

                    // Number of `u64`s in the register file
                    let reg_size: usize = [64, 64, 512][reg as usize];

                    // Fill the register file with `pat2`.
                    for i in 0..reg_size / 8 {
                        load_generic(&mut ctx, &pat2_bytes[i * 64..], i, 64, reg, false);
                    }

                    // Load `pat1` somewhere in the register file
                    load_generic(&mut ctx, &pat1_bytes, reg_offset, n_bytes, reg, interleaved);

                    // Read the whole register file
                    let got_bytes = match reg {
                        0 => ctx.read_x(),
                        1 => ctx.read_y(),
                        2 => ctx.read_z(),
                        _ => unreachable!(),
                    };
                    let got: Vec<u64> = got_bytes
                        .chunks(8)
                        .map(|c| {
                            let mut b = [0u8; 8];
                            b.copy_from_slice(c);
                            u64::from_le_bytes(b)
                        })
                        .collect();

                    // Calculate the expected result
                    let mut expected: Vec<u64> = pat2[0..reg_size].to_owned();
                    if interleaved {
                        // Each input 64-bit value is split into low
                        // and high halves routed to the two rows of
                        // the pair.
                        let reg_start = (reg_offset % 2) * 4 + (reg_offset / 2) * 16;
                        let mut i = 0usize;
                        while i < n_bytes / 8 {
                            let low1 = pat1[i] & 0xffff_ffff;
                            let low2 = pat1[i + 1] & 0xffff_ffff;
                            let high1 = pat1[i] >> 32;
                            let high2 = pat1[i + 1] >> 32;
                            expected[(reg_start + i / 2) % reg_size] = low1 | (low2 << 32);
                            expected[(reg_start + 8 + i / 2) % reg_size] = high1 | (high2 << 32);
                            i += 2;
                        }
                    } else {
                        // Simple copy with register index wrap-around
                        for i in 0..n_bytes / 8 {
                            expected[(reg_offset * 8 + i) % reg_size] = pat1[i];
                        }
                    }

                    assert_eq!(
                        got, expected,
                        "\ngot = {:x?}\nexpected = {:x?}",
                        got, expected
                    );
                }
            }
        }
    }
}

#[test]
fn encode_packs_row_and_size() {
    let w = MemArgs {
        reg_offset: 5,
        size: MemSize::_64,
    }
    .encode();
    assert_eq!(w, 5u64 << 56);

    let w = MemArgs {
        reg_offset: 13,
        size: MemSize::_128,
    }
    .encode();
    assert_eq!(w, (13u64 << 56) | (1u64 << 62));

    let w = MemArgs {
        reg_offset: 63,
        size: MemSize::_64,
    }
    .encode();
    assert_eq!(w, 63u64 << 56);
    assert_eq!(w & 0x00ff_ffff_ffff_ffff, 0);
}
