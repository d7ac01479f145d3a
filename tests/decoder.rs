use chipeyte::decode;
use chipeyte::Ops;

#[test]
fn decode_returns_correct_op() {
    assert_eq!(decode(0x00E0), Ops::CLS);
    assert_eq!(decode(0x00EE), Ops::RET);
    assert_eq!(decode(0x0ABC), Ops::SYS(0x0ABC));
    assert_eq!(decode(0x1CBA), Ops::JP(0x0CBA));
    assert_eq!(decode(0x2BAC), Ops::CALL(0x0BAC));
    assert_eq!(decode(0x30AB), Ops::SE(0x0, 0xAB));
    assert_eq!(decode(0x40AB), Ops::SNE(0x0, 0xAB));
    assert_eq!(decode(0x5AB0), Ops::SEV(0xA, 0xB));
    assert_eq!(decode(0x6AB0), Ops::LD(0xA, 0xB0));
    assert_eq!(decode(0x7D01), Ops::ADD(0xD, 0x01));
    assert_eq!(decode(0xEEEE), Ops::UNKNOWN(0xEEEE));
}

#[test]
fn decode_literal_scenarios() {
    assert_eq!(decode(0x00E0), Ops::CLS);
    assert_eq!(decode(0x00EE), Ops::RET);
    assert_eq!(decode(0x1ABC), Ops::JP(0x0ABC));
    assert_eq!(decode(0xEEEE), Ops::UNKNOWN(0xEEEE));
}

#[test]
fn decode_remaining_families() {
    assert_eq!(decode(0x8120), Ops::LDV(0x1, 0x2));
    assert_eq!(decode(0x8121), Ops::OR(0x1, 0x2));
    assert_eq!(decode(0x8122), Ops::AND(0x1, 0x2));
    assert_eq!(decode(0x8123), Ops::XOR(0x1, 0x2));
    assert_eq!(decode(0x8124), Ops::ADDV(0x1, 0x2));
    assert_eq!(decode(0x8125), Ops::SUB(0x1, 0x2));
    assert_eq!(decode(0x8126), Ops::SHR(0x1));
    assert_eq!(decode(0x8127), Ops::SUBN(0x1, 0x2));
    assert_eq!(decode(0x812E), Ops::SHL(0x1));
    assert_eq!(decode(0x8128), Ops::UNKNOWN(0x8128));
    assert_eq!(decode(0x9340), Ops::SNEV(0x3, 0x4));
    assert_eq!(decode(0x9341), Ops::UNKNOWN(0x9341));
    assert_eq!(decode(0xA123), Ops::LDI(0x0123));
    assert_eq!(decode(0xB456), Ops::JPV0(0x0456));
    assert_eq!(decode(0xC5F0), Ops::RND(0x5, 0xF0));
    assert_eq!(decode(0xD12F), Ops::DRW(0x1, 0x2, 0xF));
    assert_eq!(decode(0xE59E), Ops::SKP(0x5));
    assert_eq!(decode(0xE5A1), Ops::SKNP(0x5));
    assert_eq!(decode(0xF607), Ops::LDVDT(0x6));
    assert_eq!(decode(0xF60A), Ops::LDK(0x6));
    assert_eq!(decode(0xF615), Ops::LDDT(0x6));
    assert_eq!(decode(0xF618), Ops::LDST(0x6));
    assert_eq!(decode(0xF61E), Ops::ADDI(0x6));
    assert_eq!(decode(0xF629), Ops::LDF(0x6));
    assert_eq!(decode(0xF633), Ops::LDB(0x6));
    assert_eq!(decode(0xF655), Ops::LDIV(0x6));
    assert_eq!(decode(0xF665), Ops::LDVI(0x6));
    assert_eq!(decode(0xF666), Ops::UNKNOWN(0xF666));
    assert_eq!(decode(0x0000), Ops::SYS(0x0000));
}

#[test]
fn decode_every_word_twice_gives_one_well_shaped_operation() {
    for w in 0..=u16::MAX {
        let first = decode(w);
        assert_eq!(first, decode(w));
        match first {
            Ops::SYS(a) | Ops::JP(a) | Ops::CALL(a) | Ops::LDI(a) | Ops::JPV0(a) => {
                assert!(a <= 0x0fff)
            }
            Ops::SE(x, _) | Ops::SNE(x, _) | Ops::LD(x, _) | Ops::ADD(x, _) | Ops::RND(x, _) => {
                assert!(x < 16)
            }
            Ops::DRW(x, y, n) => assert!(x < 16 && y < 16 && n < 16),
            Ops::UNKNOWN(u) => assert_eq!(u, w),
            _ => {}
        }
    }
}
