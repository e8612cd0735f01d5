use wekan_cli::artifact::{Artifact, AType, Details};
use wekan_cli::display::{cmp_by_length, if_field_available, safely_unwrap_date, CliDisplay};
use std::cmp::Ordering;

fn mock_details(id: &str, title: &str, date: &str) -> Details {
    Details {
        _id: Some(id.to_string()),
        title: title.to_string(),
        created_at: date.to_string(),
        modified_at: date.to_string(),
        due_at: Some(date.to_string()),
        end_at: Some(date.to_string()),
        description: None,
    }
}

#[test]
fn print_details_output_normal() {
    let a = mock_details("my-id", "my-title", "2022-10-15T208Z");
    let out = String::new();
    let mut display = CliDisplay::new(out);
    let ok_res = display.print_details(&a, None).unwrap();
    let expected_output = "ID           TITLE        MODIFIED_AT  CREATED_AT   my-i         my-title     2022-10-15   2022-10-15   ";
    let expected_msg = "ID           TITLE        MODIFIED_AT  CREATED_AT\nmy-i         my-title     2022-10-15   2022-10-15\n----\n";
    assert_eq!(
        display.get_captured().escape_debug().to_string(),
        expected_output
    );
    assert_eq!(ok_res.get_msg(), expected_msg);
    assert_eq!(ok_res.get_next_workflow(), None);
    assert_eq!(ok_res.get_exit_code(), 0)
}

#[test]
fn cmp_by_length_greater() {
    assert_eq!(cmp_by_length("202", "2"), Ordering::Greater)
}

#[test]
fn cmp_by_length_less() {
    assert_eq!(cmp_by_length("2", "202"), Ordering::Less)
}

#[test]
fn cmp_by_length_equal() {
    assert_eq!(cmp_by_length("20", "20"), Ordering::Equal)
}

#[test]
fn safely_unwrap_date_exist() {
    assert_eq!(safely_unwrap_date("202T27Z"), String::from("202"))
}

#[test]
fn safely_unwrap_date_dont_exist() {
    assert_eq!(safely_unwrap_date("20"), "")
}

#[test]
fn if_field_vailable_true() {
    assert_eq!(
        if_field_available("HEADER", "header"),
        String::from("HEADER")
    )
}

#[test]
fn if_field_vailable_false() {
    assert_eq!(if_field_available("HEADER", ""), String::new())
}

#[test]
fn print_most_details_shows_optional_columns() {
    let a = mock_details("my-id", "my-title", "2022-10-15T208Z");
    let mut display = CliDisplay::new(String::new());
    let res = display.print_most_details(&a).unwrap();
    let expected_msg = "ID           TITLE        MODIFIED_AT  CREATED_AT   DUE_AT       END_AT\nmy-id        my-title     2022-10-15   2022-10-15   2022-10-15   2022-10-15\n----\n";
    assert_eq!(res.get_msg(), expected_msg);
    assert_eq!(
        res.get_next_workflow(),
        Some(String::from(
            "Update the specified artifact with the subcommand 'update'"
        ))
    );
}

#[test]
fn print_artifacts_plain_listing() {
    let artifacts = vec![
        Artifact {
            _id: String::from("fake-list-id-1"),
            title: String::from("fake-list-title-1"),
            kind: AType::List,
        },
        Artifact {
            _id: String::from("fake-list-id-2"),
            title: String::from("fake-list-title-2"),
            kind: AType::List,
        },
    ];
    let mut display = CliDisplay::new(String::new());
    let res = display.print_artifacts(artifacts, String::new()).unwrap();
    let expected = "ID    TITLE\nfake  fake-list-title-1\nfake  fake-list-title-2\n\n----\n";
    assert_eq!(res.get_msg(), expected);
    assert_eq!(
        res.get_next_workflow(),
        Some(String::from("Get or update details of an artifact."))
    );
}

#[test]
fn print_artifacts_extended_keeps_whole_ids() {
    let artifacts = vec![Artifact {
        _id: String::from("abcdefgh"),
        title: String::from("t1"),
        kind: AType::Board,
    }];
    let mut display = CliDisplay::new(String::new());
    let res = display
        .print_artifacts(artifacts, String::from("extended"))
        .unwrap();
    assert!(res.get_msg().contains("abcdefgh"));
}

#[test]
fn prepare_output_prepends_text() {
    let artifacts = vec![Artifact {
        _id: String::from("fake-list-id-1"),
        title: String::from("fake-list-title-1"),
        kind: AType::List,
    }];
    let mut display = CliDisplay::new(String::new());
    let res = display
        .prepare_output("HEAD:", artifacts, String::new())
        .unwrap();
    assert_eq!(
        res.get_msg(),
        "HEAD:ID    TITLE\nfake  fake-list-title-1\n\n----\n"
    );
}

#[test]
fn print_table_lists_and_first_cards() {
    let lists = vec![
        Artifact {
            _id: String::from("l1"),
            title: String::from("todo"),
            kind: AType::List,
        },
        Artifact {
            _id: String::from("l2"),
            title: String::from("done"),
            kind: AType::List,
        },
    ];
    let cards = vec![
        vec![Artifact {
            _id: String::from("c1"),
            title: String::from("task-a"),
            kind: AType::Card,
        }],
        vec![],
    ];
    let mut display = CliDisplay::new(String::new());
    let res = display.print_table(lists, cards).unwrap();
    assert_eq!(res.get_msg(), "todo  done  \ntask-a\n----\n");
}
