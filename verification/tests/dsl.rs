use notation_tab::context::DslError;
use notation_tab::context::GUITAR_STRING_NUM;
use notation_tab::Context;
use notation_tab::ContextDsl;
use notation_tab::FrettedContext;

fn duration(r: Result<ContextDsl, DslError>) -> String {
    match r {
        Ok(ContextDsl::Duration(name)) => name,
        other => panic!("no duration: {:?}", other),
    }
}

fn string_num(r: Result<ContextDsl, DslError>) -> usize {
    match r {
        Ok(ContextDsl::StringNum(n)) => n,
        other => panic!("no number: {:?}", other),
    }
}

#[test]
fn a_guitar_has_six_strings() {
    assert_eq!(GUITAR_STRING_NUM, 6);
    assert_eq!(FrettedContext::default().string_num, 6);
}

#[test]
fn a_fresh_context_has_no_duration_and_a_guitar() {
    let context = Context::default();
    assert_eq!(context._duration(), None);
    assert_eq!(context.fretted(), FrettedContext { string_num: 6 });
}

#[test]
fn a_duration_line_is_read() {
    assert_eq!(duration(ContextDsl::parse("duration", "_1_4")), "_1_4");
    assert_eq!(duration(ContextDsl::parse("duration", "D_1_8")), "D_1_8");
}

#[test]
fn a_string_num_line_is_read() {
    assert_eq!(string_num(ContextDsl::parse("string_num", "4")), 4);
    assert_eq!(string_num(ContextDsl::parse("string_num", "0")), 0);
    assert_eq!(string_num(ContextDsl::parse("string_num", "12")), 12);
}

#[test]
fn space_round_the_parts_is_not_part_of_them() {
    assert_eq!(duration(ContextDsl::parse(" duration ", "  _1_4\n")), "_1_4");
    assert_eq!(string_num(ContextDsl::parse("\tstring_num", " 7 ")), 7);
}

#[test]
fn a_number_is_read_as_rust_reads_it() {
    assert_eq!(string_num(ContextDsl::parse("string_num", "0x10")), 16);
    assert_eq!(string_num(ContextDsl::parse("string_num", "0b101")), 5);
    assert_eq!(string_num(ContextDsl::parse("string_num", "1_0")), 10);
    assert_eq!(string_num(ContextDsl::parse("string_num", "6usize")), 6);
}

#[test]
fn a_line_without_a_name_is_refused() {
    assert_eq!(ContextDsl::parse("4", "4").err(), Some(DslError::ExpectedField));
    assert_eq!(ContextDsl::parse("", "4").err(), Some(DslError::ExpectedField));
    assert_eq!(ContextDsl::parse("type", "4").err(), Some(DslError::ExpectedField));
    assert_eq!(ContextDsl::parse("duration string_num", "4").err(), Some(DslError::ExpectedField));
}

#[test]
fn an_unknown_setting_is_refused() {
    assert_eq!(ContextDsl::parse("tempo", "120").err(), Some(DslError::InvalidField));
    assert_eq!(ContextDsl::parse("Duration", "_1_4").err(), Some(DslError::InvalidField));
    assert_eq!(ContextDsl::parse("string_nums", "4").err(), Some(DslError::InvalidField));
    assert_eq!(ContextDsl::parse("tempo", "").err(), Some(DslError::InvalidField));
}

#[test]
fn a_duration_needs_a_name() {
    assert_eq!(ContextDsl::parse("duration", "4").err(), Some(DslError::ExpectedIdent));
    assert_eq!(ContextDsl::parse("duration", "").err(), Some(DslError::ExpectedIdent));
    assert_eq!(ContextDsl::parse("duration", "fn").err(), Some(DslError::ExpectedIdent));
    assert_eq!(ContextDsl::parse("duration", "a b").err(), Some(DslError::ExpectedIdent));
    assert_eq!(ContextDsl::parse("duration", "\"_1_4\"").err(), Some(DslError::ExpectedIdent));
}

#[test]
fn the_number_of_strings_needs_a_number_in_range() {
    assert_eq!(ContextDsl::parse("string_num", "six").err(), Some(DslError::ExpectedInteger));
    assert_eq!(ContextDsl::parse("string_num", "").err(), Some(DslError::ExpectedInteger));
    assert_eq!(ContextDsl::parse("string_num", "4.0").err(), Some(DslError::ExpectedInteger));
    assert_eq!(ContextDsl::parse("string_num", "-4").err(), Some(DslError::ExpectedInteger));
    assert_eq!(ContextDsl::parse("string_num", "4 4").err(), Some(DslError::ExpectedInteger));
    assert_eq!(
        ContextDsl::parse("string_num", "340282366920938463463374607431768211456").err(),
        Some(DslError::ExpectedInteger)
    );
}

#[test]
fn a_line_is_put_together_from_its_parts() {
    let name = |s: &str| Some(s.to_string());
    assert_eq!(duration(ContextDsl::from_parts(name("duration"), name("_1_2"), Some(3))), "_1_2");
    assert_eq!(string_num(ContextDsl::from_parts(name("string_num"), name("_1_2"), Some(3))), 3);
    assert_eq!(
        ContextDsl::from_parts(None, name("_1_2"), Some(3)).err(),
        Some(DslError::ExpectedField)
    );
    assert_eq!(
        ContextDsl::from_parts(name("duration"), None, Some(3)).err(),
        Some(DslError::ExpectedIdent)
    );
    assert_eq!(
        ContextDsl::from_parts(name("string_num"), name("_1_2"), None).err(),
        Some(DslError::ExpectedInteger)
    );
    assert_eq!(
        ContextDsl::from_parts(name("volume"), name("_1_2"), Some(3)).err(),
        Some(DslError::InvalidField)
    );
}

#[test]
fn a_duration_line_sets_the_duration_and_leaves_a_note() {
    let mut context = Context::default();
    let note = context.apply(&ContextDsl::Duration("_1_8".to_string()));
    assert_eq!(note.key, "dsl::context::duration");
    assert_eq!(note.comment, "_1_8");
    assert_eq!(context._duration(), Some("_1_8".to_string()));
    assert_eq!(context.fretted(), FrettedContext { string_num: 6 });
    context.apply(&ContextDsl::Duration("_1_2".to_string()));
    assert_eq!(context._duration(), Some("_1_2".to_string()));
}

#[test]
fn a_string_num_line_sets_the_strings_and_leaves_a_note() {
    let mut context = Context::default();
    context.apply(&ContextDsl::Duration("_1_8".to_string()));
    let note = context.apply(&ContextDsl::StringNum(4));
    assert_eq!(note.key, "dsl::context::string_num");
    assert_eq!(note.comment, "4");
    assert_eq!(context.fretted(), FrettedContext { string_num: 4 });
    assert_eq!(context._duration(), Some("_1_8".to_string()));
    let note = context.apply(&ContextDsl::StringNum(12));
    assert_eq!(note.comment, "12");
    assert_eq!(context.fretted().string_num, 12);
}
