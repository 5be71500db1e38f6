use chip8::keypad::{char_to_value, value_to_char};

#[test]
fn value_to_char_maps_all_sixteen_keys() {
    let labels = [
        '0', '1', '2', '3', '4', '5', '6', '7', '8', '9', 'a', 'b', 'c', 'd', 'e', 'f',
    ];
    for v in 0u8..16 {
        assert_eq!(value_to_char(v), Ok(labels[v as usize]));
    }
}

#[test]
fn value_to_char_rejects_out_of_range() {
    assert_eq!(value_to_char(16), Err("Invalid value used for character"));
    assert_eq!(value_to_char(255), Err("Invalid value used for character"));
}

#[test]
fn char_to_value_accepts_both_cases() {
    assert_eq!(char_to_value('0'), Ok(0));
    assert_eq!(char_to_value('9'), Ok(9));
    assert_eq!(char_to_value('a'), Ok(0xA));
    assert_eq!(char_to_value('A'), Ok(0xA));
    assert_eq!(char_to_value('f'), Ok(0xF));
    assert_eq!(char_to_value('F'), Ok(0xF));
}

#[test]
fn char_to_value_rejects_other_characters() {
    assert_eq!(char_to_value('g'), Err("Invalid character used for value"));
    assert_eq!(char_to_value(' '), Err("Invalid character used for value"));
    assert_eq!(char_to_value('\n'), Err("Invalid character used for value"));
}

#[test]
fn key_labels_round_trip() {
    for v in 0u8..16 {
        let c = value_to_char(v).unwrap();
        assert_eq!(char_to_value(c), Ok(v));
    }
}
