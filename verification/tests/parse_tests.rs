use vid_kit_simple::services::video_processor::options::{
    parse_blur_regions, parse_region, parse_resolution, parse_rotation,
};
use vid_kit_simple::utils::parse::{
    chars_of, is_white_space, parse_flag, parse_i32, parse_u32, parse_u64,
};

const NUMBERS: [&str; 40] = [
    "",
    "0",
    "7",
    "42",
    "+42",
    "-42",
    "+",
    "-",
    "++1",
    "+-1",
    "-+1",
    "--1",
    "0042",
    "+0",
    "-0",
    " 42",
    "42 ",
    "4 2",
    "4,2",
    "4.2",
    "1e3",
    "0x10",
    "٣",
    "４２",
    "4294967295",
    "4294967296",
    "+4294967295",
    "2147483647",
    "2147483648",
    "-2147483648",
    "-2147483649",
    "18446744073709551615",
    "18446744073709551616",
    "99999999999999999999999999",
    "-99999999999999999999999999",
    "000000000000000000000000000001",
    "abc",
    "12a",
    "a12",
    "1\u{0}",
];

fn region_by_hand(text: &str) -> Option<(u32, u32, u32, u32)> {
    let parts: Vec<&str> = text.split(',').collect();
    if parts.len() == 4 {
        if let (Ok(x), Ok(y), Ok(w), Ok(h)) = (
            parts[0].trim().parse::<u32>(),
            parts[1].trim().parse::<u32>(),
            parts[2].trim().parse::<u32>(),
            parts[3].trim().parse::<u32>(),
        ) {
            return Some((x, y, w, h));
        }
    }
    None
}

fn blur_by_hand(text: &str) -> Option<Vec<(u32, u32, u32, u32)>> {
    let regions: Vec<(u32, u32, u32, u32)> = text.split(';').filter_map(region_by_hand).collect();
    if regions.is_empty() {
        None
    } else {
        Some(regions)
    }
}

#[test]
fn unsigned_numbers_are_read_as_the_standard_library_reads_them() {
    for text in NUMBERS {
        assert_eq!(parse_u32(text), text.parse::<u32>().ok(), "u32 of {text:?}");
        assert_eq!(parse_u64(text), text.parse::<u64>().ok(), "u64 of {text:?}");
    }
    assert_eq!(parse_u32("1280"), Some(1280));
    assert_eq!(parse_u32("+7"), Some(7));
    assert_eq!(parse_u32("4294967295"), Some(u32::MAX));
    assert_eq!(parse_u32("4294967296"), None);
    assert_eq!(parse_u32("-1"), None);
    assert_eq!(parse_u32(""), None);
    assert_eq!(parse_u64("18446744073709551615"), Some(u64::MAX));
    assert_eq!(parse_u64("18446744073709551616"), None);
    assert_eq!(parse_u64("2000000"), Some(2_000_000));
}

#[test]
fn signed_numbers_are_read_as_the_standard_library_reads_them() {
    for text in NUMBERS {
        assert_eq!(parse_i32(text), text.parse::<i32>().ok(), "i32 of {text:?}");
    }
    assert_eq!(parse_i32("-2147483648"), Some(i32::MIN));
    assert_eq!(parse_i32("2147483647"), Some(i32::MAX));
    assert_eq!(parse_i32("2147483648"), None);
    assert_eq!(parse_i32("-0"), Some(0));
    assert_eq!(parse_i32("+90"), Some(90));
    assert_eq!(parse_i32("-"), None);
}

#[test]
fn numbers_near_the_limits_are_read_exactly() {
    for n in (u32::MAX - 20)..=u32::MAX {
        assert_eq!(parse_u32(&n.to_string()), Some(n));
    }
    for n in (u32::MAX as u64 + 1)..(u32::MAX as u64 + 20) {
        assert_eq!(parse_u32(&n.to_string()), None);
        assert_eq!(parse_u64(&n.to_string()), Some(n));
    }
    for n in (i32::MAX - 20)..=i32::MAX {
        assert_eq!(parse_i32(&n.to_string()), Some(n));
        assert_eq!(parse_i32(&format!("+{n}")), Some(n));
    }
    for n in i32::MIN..(i32::MIN + 20) {
        assert_eq!(parse_i32(&n.to_string()), Some(n));
    }
    for n in (i32::MAX as i64 + 1)..(i32::MAX as i64 + 20) {
        assert_eq!(parse_i32(&n.to_string()), None);
        assert_eq!(parse_i32(&(-n - 1).to_string()), None);
    }
}

#[test]
fn white_space_is_what_unicode_says() {
    let mut spaces = 0;
    for code in 0..=0x10FFFFu32 {
        if let Some(c) = char::from_u32(code) {
            assert_eq!(is_white_space(c), c.is_whitespace(), "U+{code:04X}");
            if is_white_space(c) {
                spaces += 1;
            }
        }
    }
    assert_eq!(spaces, 25);
}

#[test]
fn characters_are_read_one_by_one() {
    assert_eq!(chars_of(""), Vec::<char>::new());
    assert_eq!(chars_of("a,b"), vec!['a', ',', 'b']);
    assert_eq!(chars_of("é４"), vec!['é', '４']);
}

#[test]
fn flags_are_true_only_for_true() {
    assert!(parse_flag("true"));
    assert!(!parse_flag("True"));
    assert!(!parse_flag("TRUE"));
    assert!(!parse_flag(" true"));
    assert!(!parse_flag("false"));
    assert!(!parse_flag("1"));
    assert!(!parse_flag(""));
}

const REGIONS: [&str; 30] = [
    "",
    "1,2,3,4",
    "10, 20,300,400",
    " 1 , 2 , 3 , 4 ",
    "\t1,2\n,3,\u{3000}4\u{a0}",
    "1,2,3",
    "1,2,3,4,5",
    "1,2,3,",
    ",1,2,3",
    ",,,",
    "1,,3,4",
    "1,2,3,x",
    "1,2,3,-4",
    "+1,+2,+3,+4",
    "1,2,3,4294967295",
    "1,2,3,4294967296",
    "1, 2 3,4,5",
    "1,2,3,4 5",
    "1;2;3;4",
    "0,0,0,0",
    "00,01,002,0003",
    "1,2,3,4,",
    "1 ,2 ,3 ,4",
    "1,2,3,4\n",
    "  ",
    ",",
    "1.0,2,3,4",
    "１,2,3,4",
    "1,2,3,4\u{200b}",
    "1,\u{2028}2,3,4",
];

#[test]
fn regions_are_four_numbers() {
    assert_eq!(parse_region("10, 20,300,400"), Some((10, 20, 300, 400)));
    assert_eq!(parse_region("1,2,3"), None);
    assert_eq!(parse_region("1,2,3,4,5"), None);
    assert_eq!(parse_region("1,2,3,x"), None);
    assert_eq!(parse_region(""), None);
    for text in REGIONS {
        assert_eq!(parse_region(text), region_by_hand(text), "region of {text:?}");
    }
}

#[test]
fn blur_regions_pass_over_what_is_no_region() {
    assert_eq!(
        parse_blur_regions("0,0,10,10;5,5,20,20"),
        Some(vec![(0, 0, 10, 10), (5, 5, 20, 20)])
    );
    assert_eq!(parse_blur_regions("0,0,10,10;bad;5,5,20,20;"), Some(vec![(0, 0, 10, 10), (5, 5, 20, 20)]));
    assert_eq!(parse_blur_regions("bad"), None);
    assert_eq!(parse_blur_regions(""), None);
    assert_eq!(parse_blur_regions(";;"), None);
    assert_eq!(parse_blur_regions(" 1,2,3,4 "), Some(vec![(1, 2, 3, 4)]));
    for a in REGIONS {
        assert_eq!(parse_blur_regions(a), blur_by_hand(a), "blur of {a:?}");
        for b in REGIONS {
            let text = format!("{a};{b}");
            assert_eq!(parse_blur_regions(&text), blur_by_hand(&text), "blur of {text:?}");
        }
    }
}

#[test]
fn rotations_are_quarter_turns() {
    assert_eq!(parse_rotation("90"), Some(90));
    assert_eq!(parse_rotation("180"), Some(180));
    assert_eq!(parse_rotation("270"), Some(270));
    assert_eq!(parse_rotation("+90"), Some(90));
    assert_eq!(parse_rotation("090"), Some(90));
    assert_eq!(parse_rotation("0"), None);
    assert_eq!(parse_rotation("360"), None);
    assert_eq!(parse_rotation("-90"), None);
    assert_eq!(parse_rotation("45"), None);
    assert_eq!(parse_rotation(" 90"), None);
    assert_eq!(parse_rotation("ninety"), None);
    assert_eq!(parse_rotation(""), None);
}

#[test]
fn resolutions_need_width_and_height() {
    assert_eq!(parse_resolution(Some("1280"), Some("720")), Some((1280, 720)));
    assert_eq!(parse_resolution(Some("1280"), None), None);
    assert_eq!(parse_resolution(None, Some("720")), None);
    assert_eq!(parse_resolution(None, None), None);
    assert_eq!(parse_resolution(Some("wide"), Some("720")), None);
    assert_eq!(parse_resolution(Some("1280"), Some("-1")), None);
    assert_eq!(parse_resolution(Some(" 1280"), Some("720")), None);
    assert_eq!(parse_resolution(Some("0"), Some("0")), Some((0, 0)));
}
