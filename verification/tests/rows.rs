use amx::{Amx, AmxEmuCtx, LoadStore, XRow, YRow, ZRow};

#[test]
fn row_addressed_round_trips() {
    let mut ctx = AmxEmuCtx::new();

    let pat: Vec<u8> = (0..64u8).map(|i| i.wrapping_mul(37).wrapping_add(11)).collect();

    XRow(4).load512(&mut ctx, &pat);
    let mut got = vec![0u8; 64];
    XRow(4).store512(&mut ctx, &mut got, 0);
    assert_eq!(got, pat);

    YRow(7).load512(&mut ctx, &pat);
    let mut got = vec![0u8; 64];
    YRow(7).store512(&mut ctx, &mut got, 0);
    assert_eq!(got, pat);

    ZRow(63).load512(&mut ctx, &pat);
    let mut got = vec![0u8; 64];
    ZRow(63).store512(&mut ctx, &mut got, 0);
    assert_eq!(got, pat);
}

#[test]
fn wide_transfers_span_the_row_pair() {
    let mut ctx = AmxEmuCtx::new();

    let pat: Vec<u8> = (0..128u16).map(|i| (i * 3 + 1) as u8).collect();

    // the last row of x wraps to the first
    XRow(7).load1024_aligned(&mut ctx, &pat);
    let x = ctx.read_x();
    assert_eq!(&x[7 * 64..8 * 64], &pat[0..64]);
    assert_eq!(&x[0..64], &pat[64..128]);

    let mut got = vec![0u8; 128];
    XRow(7).store1024_aligned(&mut ctx, &mut got, 0);
    assert_eq!(got, pat);

    // the last row of z wraps to the first
    ZRow(63).load1024_aligned(&mut ctx, &pat);
    let z = ctx.read_z();
    assert_eq!(&z[63 * 64..64 * 64], &pat[0..64]);
    assert_eq!(&z[0..64], &pat[64..128]);

    let mut got = vec![0u8; 128];
    ZRow(63).store1024_aligned(&mut ctx, &mut got, 0);
    assert_eq!(got, pat);

    // stores land at the requested offset and leave the rest alone
    let mut got = vec![0xa5u8; 256];
    YRow(0).load1024_aligned(&mut ctx, &pat);
    YRow(0).store1024_aligned(&mut ctx, &mut got, 64);
    assert!(got[0..64].iter().all(|&b| b == 0xa5));
    assert_eq!(&got[64..192], &pat[..]);
    assert!(got[192..256].iter().all(|&b| b == 0xa5));
}
