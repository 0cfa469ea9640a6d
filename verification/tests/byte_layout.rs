use edma::components::database::preview::{apply_template, template_fits_bytes};
use edma::components::rows::{row_height, row_heights};
use edma::text::decimal_string;
use edma::utils::byte::{
    decode_bytes, str_eq, variant_from_name, ByteLayout, DecodedValue, FromLayoutVariant,
    LayoutTemplate, LayoutVariant,
};

fn text(v: &DecodedValue) -> String {
    match v {
        DecodedValue::Text(s) => s.clone(),
        other => panic!("expected text, got {:?}", other),
    }
}

fn layout(name: &str, from: usize, to: usize, variant: LayoutVariant) -> ByteLayout {
    ByteLayout { variant, name: name.to_string(), from, to }
}

#[test]
fn readme_template_splits_edma2022github() {
    let template = LayoutTemplate::new(
        "Custom layout",
        vec![
            layout("name", 0, 4, LayoutVariant::String),
            layout("year", 4, 8, LayoutVariant::Int32),
            layout("site", 8, 13, LayoutVariant::String),
        ],
    );
    let raw = b"edma2022github".to_vec();
    let fields = apply_template(&template, &raw);
    assert_eq!(fields.len(), 3);
    assert_eq!(fields[0].0, "name");
    assert_eq!(text(&fields[0].1), "edma");
    assert_eq!(fields[1].0, "year");
    // the bytes "2022" read as a big-endian i32
    assert_eq!(text(&fields[1].1), "842019378");
    assert_eq!(fields[2].0, "site");
    // `to` is exclusive: bytes 8..13 are "githu"
    assert_eq!(text(&fields[2].1), "githu");
}

#[test]
fn template_field_past_the_end_is_cut_at_the_end() {
    let template = LayoutTemplate::new("all", vec![layout("*", 2, usize::MAX, LayoutVariant::Bytes)]);
    let fields = apply_template(&template, &[1u8, 2, 3, 4]);
    assert_eq!(text(&fields[0].1), "[3, 4]");
}

#[test]
fn decode_string_valid_and_invalid() {
    assert_eq!(text(&decode_bytes("héllo".as_bytes(), LayoutVariant::String)), "héllo");
    assert_eq!(
        text(&decode_bytes(&[0xff, 0x00], LayoutVariant::String)),
        "Unable to parse: [255, 0]"
    );
}

#[test]
fn decode_int64() {
    assert_eq!(text(&decode_bytes(&[0, 0, 0, 0, 0, 0, 1, 0], LayoutVariant::Int64)), "256");
    assert_eq!(text(&decode_bytes(&[0xff; 8], LayoutVariant::Int64)), "-1");
    assert_eq!(
        text(&decode_bytes(&[0x80, 0, 0, 0, 0, 0, 0, 0, 9], LayoutVariant::Int64)),
        "-9223372036854775808"
    );
    assert_eq!(text(&decode_bytes(&[1, 2, 3], LayoutVariant::Int64)), "Unable to parse: [1, 2, 3]");
}

#[test]
fn decode_int32() {
    assert_eq!(text(&decode_bytes(&[0, 0, 0x30, 0x39], LayoutVariant::Int32)), "12345");
    assert_eq!(text(&decode_bytes(&[0xff, 0xff, 0xff, 0xfe, 7], LayoutVariant::Int32)), "-2");
    assert_eq!(text(&decode_bytes(&[], LayoutVariant::Int32)), "Unable to parse: []");
}

#[test]
fn decode_floats_hand_on_their_bits() {
    match decode_bytes(&1.5f32.to_be_bytes(), LayoutVariant::Float32) {
        DecodedValue::Float32Bits(b) => assert_eq!(f32::from_bits(b), 1.5),
        other => panic!("{:?}", other),
    }
    match decode_bytes(&(-2.25f64).to_be_bytes(), LayoutVariant::Float64) {
        DecodedValue::Float64Bits(b) => assert_eq!(f64::from_bits(b), -2.25),
        other => panic!("{:?}", other),
    }
    assert_eq!(text(&decode_bytes(&[1, 2], LayoutVariant::Float32)), "Unable to parse: [1, 2]");
    assert_eq!(text(&decode_bytes(&[1, 2, 3, 4], LayoutVariant::Float64)), "Unable to parse: [1, 2, 3, 4]");
}

#[test]
fn decode_booleans() {
    assert_eq!(text(&decode_bytes(&[1], LayoutVariant::Boolean)), "True");
    assert_eq!(text(&decode_bytes(&[0], LayoutVariant::Boolean)), "False");
    assert_eq!(text(&decode_bytes(&[1, 0, 1], LayoutVariant::Boolean)), "[\"True\", \"False\", \"True\"]");
    assert_eq!(text(&decode_bytes(&[], LayoutVariant::Boolean)), "[]");
    assert_eq!(text(&decode_bytes(&[0, 2], LayoutVariant::Boolean)), "Unable to parse: [0, 2]");
}

#[test]
fn decode_uuid_is_hyphenated_lower_hex() {
    let bytes: Vec<u8> = (0u8..16).map(|b| b * 17).collect();
    assert_eq!(
        text(&decode_bytes(&bytes, LayoutVariant::UuidV4)),
        "00112233-4455-6677-8899-aabbccddeeff"
    );
}

#[test]
fn decode_bytes_debug() {
    assert_eq!(text(&decode_bytes(&[10, 0, 255], LayoutVariant::Bytes)), "[10, 0, 255]");
    assert_eq!(text(&decode_bytes(&[], LayoutVariant::Bytes)), "[]");
}

#[test]
fn from_variant_on_a_vec() {
    let v: Vec<u8> = b"ok".to_vec();
    assert_eq!(text(&v.from_variant(LayoutVariant::String)), "ok");
    assert_eq!(text(&v.from_variant(LayoutVariant::Bytes)), "[111, 107]");
}

#[test]
fn variant_names_round_trip() {
    let all = [
        LayoutVariant::String,
        LayoutVariant::Int32,
        LayoutVariant::Int64,
        LayoutVariant::UuidV4,
        LayoutVariant::Float32,
        LayoutVariant::Float64,
        LayoutVariant::Boolean,
        LayoutVariant::Bytes,
    ];
    for v in all {
        let name = v.to_string();
        assert_eq!(LayoutVariant::from_string(&name).to_string(), name);
        assert!(variant_from_name(&name).is_some());
    }
    assert_eq!(LayoutVariant::Int32.to_string(), "Int32");
    assert!(variant_from_name("int32").is_none());
    assert_eq!(LayoutVariant::default().to_string(), "Bytes");
}

#[test]
fn byte_layout_builders() {
    let mut l = ByteLayout::default();
    assert_eq!(l.name, "*");
    assert_eq!((l.from, l.to), (0, usize::MAX));
    let built = l.with_name("id".to_string()).with_variant(LayoutVariant::Int64).with_range(2, 10).build();
    assert_eq!(built.name, "id");
    assert_eq!(built.variant.to_string(), "Int64");
    assert_eq!((built.from, built.to), (2, 10));
    assert_eq!(l.name, "id");
}

#[test]
fn layout_template_edits() {
    let mut t = LayoutTemplate::default();
    t.set_name("pairs");
    t.push_layout(layout("k", 0, 1, LayoutVariant::Bytes));
    assert_eq!(t.name, "pairs");
    assert_eq!(t.layout.len(), 1);
    assert_eq!(t.layout[0].name, "k");
}

#[test]
fn string_equality_and_decimals() {
    assert!(str_eq("abc", "abc"));
    assert!(!str_eq("abc", "abd"));
    assert_eq!(decimal_string(0), "0");
    assert_eq!(decimal_string(18446744073709551615), "18446744073709551615");
}

#[test]
fn templates_fit_their_bytes() {
    let t = LayoutTemplate::new("t", vec![layout("a", 0, 4, LayoutVariant::Int32)]);
    assert!(template_fits_bytes(&t, &[1, 2, 3, 4]));
    assert!(template_fits_bytes(&t, &[1, 2]));
    let late = LayoutTemplate::new("t", vec![layout("a", 5, 9, LayoutVariant::Bytes)]);
    assert!(!template_fits_bytes(&late, &[1, 2]));
    let id = LayoutTemplate::new("t", vec![layout("id", 0, 16, LayoutVariant::UuidV4)]);
    assert!(!template_fits_bytes(&id, &[0; 15]));
    assert!(template_fits_bytes(&id, &[0; 16]));
}

#[test]
fn row_heights_count_line_breaks() {
    assert_eq!(row_height(&vec![]), 1);
    assert_eq!(row_height(&vec!["a".to_string(), "b\nc\nd".to_string(), "e\n".to_string()]), 3);
    assert_eq!(
        row_heights(&vec![vec!["x".to_string()], vec!["\n\n\n".to_string()]]),
        vec![1, 4]
    );
}
