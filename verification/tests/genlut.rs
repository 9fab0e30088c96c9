use amx::{lut, Amx, AmxEmuCtx, Index4, Normal, XBytes, XRow, YBytes, YRow, ZRow, X8};

struct Xorshift32(u32);

impl Xorshift32 {
    fn next(&mut self) -> u32 {
        self.0 ^= self.0 << 13;
        self.0 ^= self.0 >> 17;
        self.0 ^= self.0 << 5;
        self.0
    }
}

#[test]
fn lut8x16_from_x_to_x() {
    let mut ctx = AmxEmuCtx::new();
    let mut rng = Xorshift32(0xbadcafe);

    let values: Vec<u8> = (0..64).map(|_| rng.next() as u8).collect();
    let indices: Vec<u8> = (0..64).map(|_| rng.next() as u8).collect();

    // indices at byte offset 192 = row 3; the table at row 1
    ctx.load512_x(&indices, 3);
    ctx.load512_x(&values, 1);

    lut(
        &mut ctx,
        XBytes(192),
        XRow(1),
        XRow(6),
        (Normal, Index4, X8),
    );

    let x = ctx.read_x();
    for i in 0..64usize {
        let idx = (indices[i / 2] >> (i % 2 * 4)) as usize & 0xf;
        assert_eq!(x[6 * 64 + i], values[idx], "output byte {}", i);
    }
    // the table row itself is untouched
    assert_eq!(&x[64..128], &values[..]);
}

#[test]
fn lut8x16_from_y_to_z() {
    let mut ctx = AmxEmuCtx::new();
    let mut rng = Xorshift32(0x5eed);

    let values: Vec<u8> = (0..64).map(|_| rng.next() as u8).collect();
    let indices: Vec<u8> = (0..64).map(|_| rng.next() as u8).collect();

    // the 32 index bytes the lookup reads sit at byte offset 96,
    // the second half of row 1 of y
    let mut row1 = vec![0u8; 64];
    row1[32..64].copy_from_slice(&indices[0..32]);
    ctx.load512_y(&row1, 1);
    ctx.load512_x(&values, 7);

    lut(
        &mut ctx,
        YBytes(96),
        XRow(7),
        ZRow(43),
        (Normal, Index4, X8),
    );

    let z = ctx.read_z();
    for i in 0..64usize {
        let idx = (indices[i / 2] >> (i % 2 * 4)) as usize & 0xf;
        assert_eq!(z[43 * 64 + i], values[idx], "output byte {}", i);
    }
    // neighbouring rows of z are untouched
    assert!(z[42 * 64..43 * 64].iter().all(|&b| b == 0));
    assert!(z[44 * 64..45 * 64].iter().all(|&b| b == 0));
}

#[test]
fn lut8x16_to_y() {
    let mut ctx = AmxEmuCtx::new();

    // a constant table makes every output byte that constant
    let values = vec![0x3cu8; 64];
    let indices: Vec<u8> = (0..64u8).collect();
    ctx.load512_x(&values, 0);
    ctx.load512_x(&indices, 4);

    lut(
        &mut ctx,
        XBytes(256),
        XRow(0),
        YRow(2),
        (Normal, Index4, X8),
    );

    let y = ctx.read_y();
    assert!(y[2 * 64..3 * 64].iter().all(|&b| b == 0x3c));
    assert!(y[0..2 * 64].iter().all(|&b| b == 0));
    assert!(y[3 * 64..].iter().all(|&b| b == 0));
}
