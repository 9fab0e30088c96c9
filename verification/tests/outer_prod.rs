use amx::{Amx, AmxEmuCtx};

struct Xorshift32(u32);

impl Xorshift32 {
    fn next(&mut self) -> u32 {
        self.0 ^= self.0 << 13;
        self.0 ^= self.0 >> 17;
        self.0 ^= self.0 << 5;
        self.0
    }
}

fn read_wrapping_i16(a: &[u8], i: usize) -> i16 {
    let lo = a[i % a.len()];
    let hi = a[i.wrapping_add(1) % a.len()];
    i16::from_le_bytes([lo, hi])
}

#[test]
fn outer_product_i16_xy_to_z() {
    let mut ctx = AmxEmuCtx::new();

    let mut rng = Xorshift32(0x114514);
    let in_x: Vec<u8> = (0..512).map(|_| rng.next() as u8).collect();
    let in_y: Vec<u8> = (0..512).map(|_| rng.next() as u8).collect();
    let mut expected_z = ctx.read_z();

    for i in 0..8 {
        ctx.load512_x(&in_x[i * 64..], i);
        ctx.load512_y(&in_y[i * 64..], i);
    }

    for x_offset in (0..0x200usize).step_by(31) {
        for y_offset in (0..0x200usize).step_by(47) {
            for &z_index in &[0usize, 1, 50, 63] {
                ctx.outer_product_i16_xy_to_z(x_offset, y_offset, z_index, false, false, false);

                // Calculate the expected answer
                let mut x_i = 0usize;
                while x_i < 64 {
                    let mut y_i = 0usize;
                    while y_i < 64 {
                        let x = read_wrapping_i16(&in_x, x_i.wrapping_add(x_offset));
                        let y = read_wrapping_i16(&in_y, y_i.wrapping_add(y_offset));
                        let prod = x.wrapping_mul(y).to_le_bytes();
                        let out_row = (z_index % 2 + y_i) % 64;
                        expected_z[out_row * 64 + x_i..out_row * 64 + x_i + 2]
                            .copy_from_slice(&prod);
                        y_i += 2;
                    }
                    x_i += 2;
                }

                // Get the actual answer
                let got_z = ctx.read_z();

                assert_eq!(
                    got_z,
                    expected_z,
                    "(x_offset, y_offset, z_index) = {:?}",
                    (x_offset, y_offset, z_index)
                );
            }
        }
    }
}

#[test]
fn outer_product_accumulates_modulo_two_to_sixteen() {
    let mut ctx = AmxEmuCtx::new();

    // x lane 0 = 300, y lane 0 = 70 (little-endian)
    let mut x_row = vec![0u8; 64];
    x_row[0..2].copy_from_slice(&300i16.to_le_bytes());
    let mut y_row = vec![0u8; 64];
    y_row[0..2].copy_from_slice(&70i16.to_le_bytes());
    ctx.load512_x(&x_row, 0);
    ctx.load512_y(&y_row, 0);

    // overwrite, then accumulate twice more: 3 * 300 * 70 = 63000
    ctx.outer_product_i16_xy_to_z(0, 0, 0, false, false, false);
    ctx.outer_product_i16_xy_to_z(0, 0, 0, true, false, false);
    ctx.outer_product_i16_xy_to_z(0, 0, 0, true, false, false);
    let z = ctx.read_z();
    assert_eq!(i16::from_le_bytes([z[0], z[1]]), 63000u16 as i16);

    // one more accumulation wraps: 4 * 21000 - 65536 = 18464
    ctx.outer_product_i16_xy_to_z(0, 0, 0, true, false, false);
    let z = ctx.read_z();
    assert_eq!(u16::from_le_bytes([z[0], z[1]]), 18464u16);
}
