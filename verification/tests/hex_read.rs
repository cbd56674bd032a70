use overwatch::headers::{HeaderChain, Payloads, UdpHeader};
use overwatch::hex_read::{is_whitespace, parse, run, strip_whitespace, Decoded, HexError};

fn lines(text: &[&str]) -> Vec<String> {
    text.iter().map(|l| l.to_string()).collect()
}

#[test]
fn two_groups_give_two_frames() {
    let r = parse(&lines(&["0102", "0304", "", "0506"]));
    assert_eq!(r, Ok(vec![vec![1, 2, 3, 4], vec![5, 6]]));
}

#[test]
fn a_frame_is_closed_by_a_blank_line_or_by_the_end() {
    assert_eq!(parse(&lines(&["ff"])), Ok(vec![vec![0xff]]));
    assert_eq!(parse(&lines(&["ff", ""])), Ok(vec![vec![0xff]]));
    assert_eq!(parse(&lines(&["ff", "", "ee", ""])), Ok(vec![vec![0xff], vec![0xee]]));
    assert_eq!(parse(&lines(&[])), Ok(vec![]));
}

#[test]
fn every_blank_line_closes_a_frame() {
    assert_eq!(parse(&lines(&[""])), Ok(vec![vec![]]));
    assert_eq!(parse(&lines(&["", "01"])), Ok(vec![vec![], vec![1]]));
    assert_eq!(parse(&lines(&["01", "", "", "02"])), Ok(vec![vec![1], vec![], vec![2]]));
    assert_eq!(parse(&lines(&["  ", "\t"])), Ok(vec![vec![], vec![]]));
}

#[test]
fn white_space_is_ignored() {
    assert_eq!(
        parse(&lines(&["  45 00 00 54  ", "\t0a0b\r", "   ", "de ad\u{a0}be ef"])),
        Ok(vec![vec![0x45, 0, 0, 0x54, 0x0a, 0x0b], vec![0xde, 0xad, 0xbe, 0xef]])
    );
}

#[test]
fn digits_of_either_case() {
    assert_eq!(parse(&lines(&["aAbBcCdDeEfF", "0123456789"])), Ok(vec![vec![
        0xaa, 0xbb, 0xcc, 0xdd, 0xee, 0xff, 0x01, 0x23, 0x45, 0x67, 0x89
    ]]));
}

#[test]
fn odd_number_of_digits_is_an_error() {
    assert_eq!(parse(&lines(&["012"])), Err(HexError::OddLength));
    assert_eq!(parse(&lines(&["01", "0 1 2", "03"])), Err(HexError::OddLength));
    assert_eq!(parse(&lines(&["0g1"])), Err(HexError::OddLength));
}

#[test]
fn first_invalid_character_is_reported() {
    assert_eq!(
        parse(&lines(&["01", "0g"])),
        Err(HexError::InvalidHexCharacter { c: 'g', index: 1 })
    );
    assert_eq!(
        parse(&lines(&["zz"])),
        Err(HexError::InvalidHexCharacter { c: 'z', index: 0 })
    );
    assert_eq!(
        parse(&lines(&["00 x1 y2"])),
        Err(HexError::InvalidHexCharacter { c: 'x', index: 2 })
    );
    assert_eq!(
        parse(&lines(&["0102", "", "03/4", "zz"])),
        Err(HexError::InvalidHexCharacter { c: '/', index: 2 })
    );
    assert_eq!(
        parse(&lines(&["00:1"])),
        Err(HexError::InvalidHexCharacter { c: ':', index: 2 })
    );
}

#[test]
fn a_character_outside_ascii_is_reported_by_its_first_byte() {
    assert_eq!(
        parse(&lines(&["é"])),
        Err(HexError::InvalidHexCharacter { c: '\u{c3}', index: 0 })
    );
}

#[test]
fn white_space_characters() {
    for c in [' ', '\t', '\n', '\r', '\u{b}', '\u{c}', '\u{85}', '\u{a0}', '\u{1680}', '\u{2000}',
        '\u{200a}', '\u{2028}', '\u{2029}', '\u{202f}', '\u{205f}', '\u{3000}']
    {
        assert!(is_whitespace(c));
        assert!(c.is_whitespace());
    }
    for c in ['a', '0', '\u{8}', '\u{e}', '\u{1f}', '!', '\u{84}', '\u{86}', '\u{a1}', '\u{200b}',
        '\u{2027}', '\u{202a}', '\u{3001}', '\u{feff}']
    {
        assert!(!is_whitespace(c));
        assert!(!c.is_whitespace());
    }
}

#[test]
fn white_space_is_stripped_from_a_line() {
    assert_eq!(strip_whitespace(" a b\tc\r\n"), "abc");
    assert_eq!(strip_whitespace(""), "");
    assert_eq!(strip_whitespace(" \u{3000} "), "");
    assert_eq!(strip_whitespace("é x"), "éx");
}

#[test]
fn replay_of_one_frame_is_closed_by_a_separator() {
    let mut a = HeaderChain::default();
    a.udp = UdpHeader { valid: true, src_port: 1, dst_port: 2, len: 8, checksum: 0 };
    let frames = vec![Decoded { headers: a, bytes: vec![0; 8], payloads: Payloads::default() }];
    assert_eq!(
        run(frames).iter().map(|l| l.text()).collect::<Vec<_>>(),
        vec!["=====|", "UDP  | 1 > 2 len 8 chk 0", "=====|"]
    );
}

#[test]
fn several_groups_give_as_many_frames() {
    let r = parse(&lines(&["01", "", "0203", "04", "", "05", "", "0607"]));
    assert_eq!(r, Ok(vec![vec![1], vec![2, 3, 4], vec![5], vec![6, 7]]));
}

#[test]
fn replay_starts_with_the_separator() {
    assert_eq!(run(vec![]).iter().map(|l| l.text()).collect::<Vec<_>>(), vec!["=====|"]);
    let mut a = HeaderChain::default();
    a.udp = UdpHeader { valid: true, src_port: 1, dst_port: 2, len: 8, checksum: 0 };
    let mut b = HeaderChain::default();
    b.udp = UdpHeader { valid: true, src_port: 3, dst_port: 4, len: 9, checksum: 5 };
    let frames = vec![
        Decoded { headers: a, bytes: vec![0; 8], payloads: Payloads::default() },
        Decoded { headers: HeaderChain::default(), bytes: vec![], payloads: Payloads::default() },
        Decoded { headers: b, bytes: vec![0; 9], payloads: Payloads::default() },
    ];
    assert_eq!(
        run(frames).iter().map(|l| l.text()).collect::<Vec<_>>(),
        vec![
            "=====|",
            "UDP  | 1 > 2 len 8 chk 0",
            "=====|",
            "=====|",
            "UDP  | 3 > 4 len 9 chk 5",
            "=====|",
        ]
    );
}
