use wekan_cli::artifact::{satisfy_type, Artifact, AType, WipLimit};
use wekan_cli::result::WekanResult;
use wekan_cli::strutil::{
    contains_str, i16_dec_string, pad_to, split_terminator_on, starts_with, trim_str,
    u32_dec_string,
};

#[test]
fn atype_names_round_trip() {
    assert_eq!(AType::Board.to_string(), "board");
    assert_eq!(AType::Checklist.to_string(), "checklist");
    assert_eq!(AType::Empty.to_string(), "artifact");
    assert_eq!(AType::from_str("board").unwrap(), AType::Board);
    assert_eq!(AType::from_str("cardType-card").unwrap(), AType::Card);
    assert_eq!(AType::from_str("template-container").unwrap(), AType::Empty);
    let err = AType::from_str("rocket").unwrap_err();
    assert_eq!(err.message, "Not a Wekan kind");
    assert_eq!(AType::from(String::from("artifact")), AType::Empty);
    assert_eq!(AType::from(String::from("swimlane")), AType::Swimlane);
}

#[test]
fn artifact_getters_and_setters() {
    let mut a = Artifact {
        _id: String::from("id-1"),
        title: String::from("title-1"),
        kind: AType::Board,
    };
    assert_eq!(a.get_id(), "id-1");
    assert_eq!(a.get_title(), "title-1");
    assert_eq!(a.get_type(), AType::Board);
    assert_eq!(a.set_id("id-2"), "id-2");
    assert_eq!(a.set_type(AType::List), AType::List);
    assert_eq!(a.get_id(), "id-2");
}

#[test]
fn artifact_renders_as_elisp() {
    let a = Artifact {
        _id: String::from("x"),
        title: String::from("y"),
        kind: AType::Card,
    };
    assert_eq!(a.to_elisp(), "((_id . x) (title . y)) ");
}

#[test]
fn satisfy_type_stamps_every_element() {
    let mut v = vec![
        Artifact {
            _id: String::from("1"),
            title: String::from("a"),
            kind: AType::Empty,
        },
        Artifact {
            _id: String::from("2"),
            title: String::from("b"),
            kind: AType::Empty,
        },
    ];
    satisfy_type(&mut v, AType::List);
    assert_eq!(v[0].kind, AType::List);
    assert_eq!(v[1].kind, AType::List);
    assert_eq!(v[0]._id, "1");
    assert_eq!(v[1].title, "b");
}

#[test]
fn wip_limit_defaults_to_disabled_zero() {
    let w = WipLimit::new();
    assert_eq!(w.value, 0);
    assert!(!w.enabled);
    assert!(!w.soft);
}

#[test]
fn wekan_result_carries_its_pieces() {
    let r = WekanResult::new_exit("stopping", 2, Some(String::from("try again")));
    assert_eq!(r.get_msg(), "stopping");
    assert_eq!(r.get_exit_code(), 2);
    assert_eq!(r.get_next_workflow(), Some(String::from("try again")));
    let plain = WekanResult::new_msg("done");
    assert_eq!(plain.get_exit_code(), 0);
    assert_eq!(plain.get_next_workflow(), None);
    assert!(plain.ok().is_ok());
}

#[test]
fn decimal_rendering() {
    assert_eq!(u32_dec_string(0), "0");
    assert_eq!(u32_dec_string(8080), "8080");
    assert_eq!(i16_dec_string(8080), "8080");
    assert_eq!(i16_dec_string(-12), "-12");
    assert_eq!(i16_dec_string(i16::MIN), "-32768");
}

#[test]
fn string_helpers() {
    assert!(starts_with("fake-board-id-1", "fake-board"));
    assert!(!starts_with("fake", "fake-board"));
    assert!(contains_str("fake-board-title-1", "board-title"));
    assert!(!contains_str("fake", "board"));
    assert_eq!(pad_to("ab", 5), "ab   ");
    assert_eq!(pad_to("abcdef", 3), "abcdef");
    assert_eq!(trim_str("  a b\n"), "a b");
    assert_eq!(
        split_terminator_on("a,b,c", ','),
        vec!["a", "b", "c"]
    );
    assert_eq!(split_terminator_on("a,b,", ','), vec!["a", "b"]);
    assert_eq!(split_terminator_on("", ','), Vec::<String>::new());
}
