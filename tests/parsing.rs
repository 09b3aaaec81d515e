use gdcf::error::ApiErrorKind;
use gdcf::object::{ObjectData, PortalData};
use gdcf::metadata::{ObjectMetadata, PortalMetadata, PortalType, Speed};
use gdcf::response::{level, levels, parse_fragment, split, ObjectType, ProcessedResponse};
use gdcf::text::TextData;
use gdcf::util::{
    b64_decode_bytes, b64_decode_string, decode_url, default_to_none, into_option, parse, parse_u64,
    xor_decrypt, IntErrorKind, SelfZip, SelfZipExt, ValueError,
};

fn fields(pairs: &[(&str, &str)]) -> Vec<(String, String)> {
    pairs.iter().map(|(a, b)| (a.to_string(), b.to_string())).collect()
}

fn chars(s: &str) -> Vec<char> {
    s.chars().collect()
}

#[test]
fn xor_with_repeated_key() {
    assert_eq!(xor_decrypt("abc", "\u{1}"), "`cb");
    let enc = xor_decrypt("hello", "26364");
    assert_eq!(xor_decrypt(&enc, "26364"), "hello");
    assert_eq!(xor_decrypt("abc", ""), "");
    assert_eq!(xor_decrypt("", "key"), "");
}

#[test]
fn parse_values() {
    assert_eq!(parse("1", ""), Ok(None));
    assert_eq!(parse("1", "1334"), Ok(Some(1334)));
    assert_eq!(parse("1", "+7"), Ok(Some(7)));
    assert_eq!(
        parse("2", "x1"),
        Err(ValueError::Parse("2".to_string(), "x1".to_string(), IntErrorKind::InvalidDigit))
    );
    assert_eq!(parse_u64("18446744073709551615"), Ok(u64::MAX));
    assert_eq!(parse_u64("18446744073709551616"), Err(IntErrorKind::PosOverflow));
    assert_eq!(parse_u64("99999999999999999999x"), Err(IntErrorKind::PosOverflow));
    assert_eq!(parse_u64("9x9999999999999999999"), Err(IntErrorKind::InvalidDigit));
    assert_eq!(parse_u64("+"), Err(IntErrorKind::InvalidDigit));
    assert_eq!(parse_u64(""), Err(IntErrorKind::Empty));
    assert_eq!(parse_u64("-1"), Err(IntErrorKind::InvalidDigit));
}

#[test]
fn default_and_option_helpers() {
    assert_eq!(default_to_none(0), None);
    assert_eq!(default_to_none(5), Some(5));
    assert_eq!(into_option("x"), Some("x"));
}

#[test]
fn base64_url_safe_decoding() {
    assert_eq!(b64_decode_bytes("aGVsbG8=").unwrap(), b"hello".to_vec());
    assert_eq!(b64_decode_string("aGVsbG8gd29ybGQ=").unwrap(), "hello world");
    assert_eq!(b64_decode_bytes("-_8=").unwrap(), vec![0xfb, 0xff]);
    assert!(b64_decode_string("a").is_err());
    assert_eq!(b64_decode_string("_w==").unwrap(), "\u{fffd}");
}

#[test]
fn url_decoding() {
    assert_eq!(decode_url("a%20b%2Fc").unwrap(), "a b/c");
    assert_eq!(decode_url("plain").unwrap(), "plain");
    assert!(decode_url("%FF").is_err());
}

#[test]
fn portal_types_by_id() {
    assert_eq!(PortalType::from_id(200), PortalType::Speed(Speed::Slow));
    assert_eq!(PortalType::from_id(201), PortalType::Speed(Speed::Normal));
    assert_eq!(PortalType::from_id(202), PortalType::Speed(Speed::Medium));
    assert_eq!(PortalType::from_id(203), PortalType::Speed(Speed::Fast));
    assert_eq!(PortalType::from_id(1334), PortalType::Speed(Speed::VeryFast));
    assert_eq!(PortalType::from_id(1), PortalType::Nonsense);
}

#[test]
fn object_metadata_of_portals_and_others() {
    let portal = ObjectMetadata::parse(&fields(&[("2", "15"), ("1", "203"), ("13", "1")])).map(|(m, _)| m);
    assert_eq!(
        portal,
        Ok(ObjectMetadata::Portal(PortalMetadata { checked: true, portal_type: PortalType::Speed(Speed::Fast) }))
    );
    let unchecked = ObjectMetadata::parse(&fields(&[("1", "200")])).map(|(m, _)| m);
    assert_eq!(
        unchecked,
        Ok(ObjectMetadata::Portal(PortalMetadata { checked: false, portal_type: PortalType::Speed(Speed::Slow) }))
    );
    assert_eq!(ObjectMetadata::parse(&fields(&[("1", "8"), ("13", "x")])).map(|(m, _)| m), Ok(ObjectMetadata::Nothing));
    assert_eq!(ObjectMetadata::parse(&fields(&[("2", "8")])).map(|(m, _)| m), Err(ValueError::NoValue("1".to_string())));
    assert_eq!(ObjectMetadata::parse(&fields(&[("1", "")])).map(|(m, _)| m), Err(ValueError::NoValue("1".to_string())));
    assert_eq!(
        ObjectMetadata::parse(&fields(&[("1", "70000")])).map(|(m, _)| m),
        Err(ValueError::Parse("1".to_string(), "70000".to_string(), IntErrorKind::PosOverflow))
    );
    assert_eq!(
        ObjectMetadata::parse(&fields(&[("1", "201"), ("13", "y")])).map(|(m, _)| m),
        Err(ValueError::Parse("13".to_string(), "y".to_string(), IntErrorKind::InvalidDigit))
    );
}

#[test]
fn splitting_left_to_right() {
    let parts = split(&chars("a~:~b~:~~:~"), &chars("~:~"));
    assert_eq!(parts, vec![chars("a"), chars("b"), chars(""), chars("")]);
    assert_eq!(split(&chars(""), &chars("|")), vec![chars("")]);
    assert_eq!(split(&chars("aaa"), &chars("aa")), vec![chars(""), chars("a")]);
}

#[test]
fn fragments_are_index_value_pairs() {
    let o = parse_fragment(ObjectType::Level, &chars("1:42:2:Name"), &chars(":")).unwrap();
    assert_eq!(o.object_type, ObjectType::Level);
    assert_eq!(o.fields, vec![(1, "42".to_string()), (2, "Name".to_string())]);
    assert_eq!(parse_fragment(ObjectType::Level, &chars("1:42:2"), &chars(":")).unwrap_err(), ApiErrorKind::Malformed);
    assert_eq!(parse_fragment(ObjectType::Level, &chars("x:42"), &chars(":")).unwrap_err(), ApiErrorKind::Malformed);
}

#[test]
fn level_response() {
    match level("1:5:2:Stereo Madness#hash").unwrap() {
        ProcessedResponse::One(o) => {
            assert_eq!(o.object_type, ObjectType::Level);
            assert_eq!(o.fields, vec![(1, "5".to_string()), (2, "Stereo Madness".to_string())]);
        },
        _ => panic!("one level expected"),
    }
    assert_eq!(level("-1").unwrap_err(), ApiErrorKind::NoResult);
    assert_eq!(level("1").unwrap_err(), ApiErrorKind::Malformed);
}

#[test]
fn levels_response() {
    let body = "1:10:2:A|1:11:2:B#creators#1~|~5~|~2~|~Song#page";
    match levels(body).unwrap() {
        ProcessedResponse::Many(objs) => {
            assert_eq!(objs.len(), 3);
            assert_eq!(objs[0].object_type, ObjectType::PartialLevel);
            assert_eq!(objs[1].fields, vec![(1, "11".to_string()), (2, "B".to_string())]);
            assert_eq!(objs[2].object_type, ObjectType::NewgroundsSong);
            assert_eq!(objs[2].fields, vec![(1, "5".to_string()), (2, "Song".to_string())]);
        },
        _ => panic!("many expected"),
    }
    assert_eq!(levels("-1").unwrap_err(), ApiErrorKind::NoResult);
    assert_eq!(levels("1:10#creators").unwrap_err(), ApiErrorKind::Malformed);
    assert_eq!(levels("1:10:2#c#1~|~5").unwrap_err(), ApiErrorKind::Malformed);
}

#[test]
fn self_zip_pairs_items() {
    let mut z = vec![1, 2, 3, 4, 5].self_zip();
    assert_eq!(z.next(), Some((1, 2)));
    assert_eq!(z.next(), Some((3, 4)));
    assert_eq!(z.next(), None);
    assert_eq!(z.next(), None);
    let mut e: SelfZip<u8> = SelfZip::new(vec![]);
    assert_eq!(e.next(), None);
}

#[test]
fn text_data_holds_text() {
    let t = TextData { text: "hi".to_string() };
    assert_eq!(t.clone(), t);
}

#[test]
fn object_data_of_portals_and_others() {
    assert_eq!(PortalType::from_id_str("1334"), PortalType::Speed(Speed::VeryFast));
    assert_eq!(PortalType::from_id_str("0200"), PortalType::Nonsense);
    assert_eq!(
        ObjectData::parse(&fields(&[("1", "202"), ("13", "0")])).map(|(o, _)| o),
        Ok(ObjectData::Portal(PortalData { checked: false, portal_type: PortalType::Speed(Speed::Medium) }))
    );
    assert_eq!(ObjectData::parse(&fields(&[("1", "1"), ("13", "z")])).map(|(o, _)| o), Ok(ObjectData::Nothing));
    assert_eq!(ObjectData::parse(&fields(&[("3", "1")])).map(|(o, _)| o), Err(ValueError::NoValue("1".to_string())));
}

#[test]
fn unread_pairs_are_handed_on_in_order() {
    let f = fields(&[("2", "15"), ("1", "203"), ("13", "1"), ("31", "t")]);
    let (_, rest) = ObjectMetadata::parse(&f).unwrap();
    assert_eq!(rest, fields(&[("2", "15"), ("31", "t")]));
    let g = fields(&[("1", "8"), ("13", "x"), ("5", "y")]);
    let (m, rest) = ObjectMetadata::parse(&g).unwrap();
    assert_eq!(m, ObjectMetadata::Nothing);
    assert_eq!(rest, g);
    let (o, rest) = ObjectData::parse(&f).unwrap();
    assert!(matches!(o, ObjectData::Portal(_)));
    assert_eq!(rest, fields(&[("2", "15"), ("31", "t")]));
    let (o, rest) = ObjectData::parse(&g).unwrap();
    assert_eq!(o, ObjectData::Nothing);
    assert_eq!(rest, g);
}
