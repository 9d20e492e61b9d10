use beatmap_parser::hitobject::decode_hitobject_line;
use beatmap_parser::model::HitObjectType;
use beatmap_parser::num::{parse_decimal, parse_i32, Decimal};
use beatmap_parser::timing::decode_timing_line;

fn chars(s: &str) -> Vec<char> {
    s.chars().collect()
}

#[test]
fn parse_i32_handles_bounds() {
    assert_eq!(parse_i32(&chars("0")), Some(0));
    assert_eq!(parse_i32(&chars("42")), Some(42));
    assert_eq!(parse_i32(&chars("-7")), Some(-7));
    assert_eq!(parse_i32(&chars("2147483647")), Some(2147483647));
    assert_eq!(parse_i32(&chars("-2147483648")), Some(-2147483648));
    assert_eq!(parse_i32(&chars("2147483648")), None);
    assert_eq!(parse_i32(&chars("-2147483649")), None);
    assert_eq!(parse_i32(&chars("")), None);
    assert_eq!(parse_i32(&chars("-")), None);
    assert_eq!(parse_i32(&chars("12a")), None);
    assert_eq!(parse_i32(&chars("1.5")), None);
    assert_eq!(parse_i32(&chars("99999999999999999999999")), None);
}

#[test]
fn parse_decimal_is_exact() {
    assert_eq!(parse_decimal(&chars("120.0")), Some(Decimal { neg: false, mantissa: 1200, scale: 1 }));
    assert_eq!(parse_decimal(&chars("-25")), Some(Decimal { neg: true, mantissa: 25, scale: 0 }));
    assert_eq!(parse_decimal(&chars("1.25")), Some(Decimal { neg: false, mantissa: 125, scale: 2 }));
    assert_eq!(parse_decimal(&chars("0.7")), Some(Decimal { neg: false, mantissa: 7, scale: 1 }));
    assert_eq!(parse_decimal(&chars("333.33")), Some(Decimal { neg: false, mantissa: 33333, scale: 2 }));
    assert_eq!(parse_decimal(&chars(".5")), None);
    assert_eq!(parse_decimal(&chars("5.")), None);
    assert_eq!(parse_decimal(&chars("")), None);
    assert_eq!(parse_decimal(&chars("--5")), None);
    assert_eq!(parse_decimal(&chars("1.2.3")), None);
}

#[test]
fn decode_timing_line_directly() {
    let tp = decode_timing_line(&chars("0,500,4,2,1,60,1,0")).expect("line should decode");
    assert_eq!(tp.time_offset, 0);
    assert_eq!(tp.beat_length, Decimal { neg: false, mantissa: 500, scale: 0 });
    assert!(tp.inherited);
    assert!(decode_timing_line(&chars("0")).is_err());
    assert!(decode_timing_line(&chars("a,500")).is_err());
    assert!(decode_timing_line(&chars("0,0,4,2,1,60,1,0")).is_err());
}

#[test]
fn decode_hitobject_line_directly() {
    let h = decode_hitobject_line(&chars("256,192,2000,5,2")).expect("line should decode");
    match h {
        HitObjectType::HitCircle(c) => {
            assert!(c.new_combo);
            assert_eq!(c.hit_sound, 2);
        },
        other => panic!("expected a hit circle, got {:?}", other),
    }
    assert!(decode_hitobject_line(&chars("256,192,2000")).is_err());
    assert!(decode_hitobject_line(&chars("256,192,2000,0,0")).is_err());
}
