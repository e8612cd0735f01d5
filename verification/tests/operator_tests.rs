use wekan_cli::artifact::{Artifact, AType};
use wekan_cli::card::{card_create_message, move_outcome, put_outcome, swimlane_gate};
use wekan_cli::command::{
    describe_plan, inspect_plan, only_config_allowed, valid_time, verify_id_length, DescribePlan,
    InspectPlan,
};
use wekan_cli::display::CliDisplay;
use wekan_cli::error::{CliError, CoreError, Error};
use wekan_cli::http::{build_archive_card, build_create_board, build_update_card, ResponseOk};
use wekan_cli::operator::{common_dispatch, root_dispatch, CommonAction, Operator, RootAction};
use wekan_cli::resolver::FetchGoal;
use wekan_cli::result::WekanResult;
use wekan_cli::subcommand::{CommonCommand, Create, Delegate, Remove};

fn ok_response() -> Result<ResponseOk, CoreError> {
    Ok(ResponseOk {
        _id: String::from("fresh-id"),
    })
}

fn failed_response() -> Result<ResponseOk, CoreError> {
    Err(CoreError::Http(String::from("connection refused")))
}

fn list_artifact(id: &str, title: &str) -> Artifact {
    Artifact {
        _id: id.to_string(),
        title: title.to_string(),
        kind: AType::List,
    }
}

#[test]
fn children_kinds_of_each_operator() {
    assert_eq!(Operator::new(AType::Board).get_children_type(), AType::List);
    assert_eq!(Operator::new(AType::List).get_children_type(), AType::Card);
    assert_eq!(Operator::new(AType::Card).get_children_type(), AType::Empty);
    assert_eq!(
        Operator::new(AType::Checklist).get_children_type(),
        AType::Empty
    );
}

#[test]
fn childless_kinds_fetch_no_children() {
    assert!(Operator::new(AType::Card)
        .children_fetch("card-1", "b1l1")
        .is_none());
    assert!(Operator::new(AType::Checklist)
        .children_fetch("ch-1", "b1c1")
        .is_none());
}

#[test]
fn board_details_fetch_lists() {
    match Operator::new(AType::Board).children_fetch("board-1", "") {
        Some(FetchGoal::Lists { board_id }) => assert_eq!(board_id, "board-1"),
        other => panic!("expected a lists fetch, got {:?}", other),
    }
    match Operator::new(AType::List).children_fetch("list-1", "board-1") {
        Some(FetchGoal::Cards { board_id, list_id }) => {
            assert_eq!(board_id, "board-1");
            assert_eq!(list_id, "list-1");
        }
        other => panic!("expected a cards fetch, got {:?}", other),
    }
}

#[test]
fn board_without_lists_gets_the_no_children_hint() {
    let op = Operator::new(AType::Board);
    // The one children fetch the details call issues came back empty.
    match op.children_fetch("board-1", "") {
        Some(FetchGoal::Lists { board_id }) => assert_eq!(board_id, "board-1"),
        other => panic!("expected exactly one lists fetch, got {:?}", other),
    }
    let base = WekanResult::new_msg("board details\n");
    let mut display = CliDisplay::new(String::new());
    let res = op.get_children(&mut display, &base, Ok(vec![])).unwrap();
    assert!(res.get_msg().ends_with("This artifact contains no children"));
    assert_eq!(
        res.get_next_workflow(),
        Some(String::from("Create a children using the subcommand"))
    );
}

#[test]
fn board_with_lists_appends_them() {
    let op = Operator::new(AType::Board);
    let base = WekanResult::new_msg("board details\n");
    let mut display = CliDisplay::new(String::new());
    let children = vec![
        list_artifact("fake-list-id-1", "fake-list-title-1"),
        list_artifact("fake-list-id-2", "fake-list-title-2"),
    ];
    let res = op.get_children(&mut display, &base, Ok(children)).unwrap();
    let expected = "board details\nFollowing children are available:\nID    TITLE\nfake  fake-list-title-1\nfake  fake-list-title-2\n\n----\n";
    assert_eq!(res.get_msg(), expected);
}

#[test]
fn children_fetch_errors_pass_through() {
    let op = Operator::new(AType::Board);
    let base = WekanResult::new_msg("board details\n");
    let mut display = CliDisplay::new(String::new());
    let failed: Result<Vec<Artifact>, Error> =
        Err(Error::Cli(CliError::new_msg("Artifact not found")));
    match op.get_children(&mut display, &base, failed) {
        Err(Error::Cli(ce)) => assert_eq!(ce.message, "Artifact not found"),
        other => panic!("expected the fetch error back, got {:?}", other),
    }
}

#[test]
fn root_dispatch_prefers_subcommands() {
    assert!(matches!(
        root_dispatch(true, Some(String::from("n"))),
        RootAction::Specific
    ));
    match root_dispatch(false, Some(String::from("n"))) {
        RootAction::DetailsOf { name } => assert_eq!(name, "n"),
        other => panic!("expected details, got {:?}", other),
    }
    assert!(matches!(root_dispatch(false, None), RootAction::Ls));
}

#[test]
fn common_dispatch_demands_a_name_for_remove() {
    match common_dispatch(CommonCommand::Remove(Remove {}), None) {
        CommonAction::Fail(Error::Cli(ce)) => {
            assert_eq!(ce.message, "Name option '-n' needs to be supplied")
        }
        other => panic!("expected the missing-name failure, got {:?}", other),
    }
    match common_dispatch(
        CommonCommand::Create(Create {
            title: String::from("t"),
        }),
        None,
    ) {
        CommonAction::DoCreate(c) => assert_eq!(c.get_title(), "t"),
        other => panic!("expected a create, got {:?}", other),
    }
}

#[test]
fn unwrap_name_complains_without_a_name() {
    match Operator::unwrap_name(None) {
        Err(Error::Cli(ce)) => assert_eq!(ce.message, "Name not supplied '-n'"),
        other => panic!("expected the fixed complaint, got {:?}", other),
    }
    assert_eq!(
        Operator::unwrap_name(Some(String::from("x"))).unwrap(),
        "x"
    );
}

#[test]
fn create_and_remove_messages() {
    let board_created = Operator::new(AType::Board)
        .create_message(ok_response())
        .unwrap();
    assert_eq!(board_created.get_msg(), "Successfully created");
    assert_eq!(
        board_created.get_next_workflow(),
        Some(String::from(
            "Create a list with subcommand 'list create --help'"
        ))
    );
    let list_created = Operator::new(AType::List)
        .create_message(ok_response())
        .unwrap();
    assert_eq!(
        list_created.get_next_workflow(),
        Some(String::from(
            "Create a card with subcommand 'card create --help'"
        ))
    );
    let checklist_created = Operator::new(AType::Checklist)
        .create_message(ok_response())
        .unwrap();
    assert_eq!(
        checklist_created.get_next_workflow(),
        Some(String::from("Get or update details of an artifact."))
    );
    match Operator::new(AType::Board).create_message(failed_response()) {
        Err(Error::Cli(ce)) => assert_eq!(ce.message, "Failed to create"),
        other => panic!("expected the create failure, got {:?}", other),
    }
    assert_eq!(
        Operator::remove_message(ok_response()).unwrap().get_msg(),
        "Successfully deleted"
    );
    match Operator::remove_message(failed_response()) {
        Err(Error::Cli(ce)) => assert_eq!(ce.message, "Failed to delete"),
        other => panic!("expected the delete failure, got {:?}", other),
    }
}

#[test]
fn card_outcomes() {
    let moved = move_outcome(ok_response()).unwrap();
    assert_eq!(moved.get_msg(), "Successfully moved");
    assert_eq!(
        moved.get_next_workflow(),
        Some(String::from("Update card with more details"))
    );
    match move_outcome(failed_response()) {
        Err(Error::Cli(ce)) => assert_eq!(ce.message, "Failed to update"),
        other => panic!("expected the move failure, got {:?}", other),
    }
    let created = card_create_message(ok_response()).unwrap();
    assert_eq!(created.get_msg(), "Successfully created");
    assert_eq!(
        created.get_next_workflow(),
        Some(String::from("Move card or update card"))
    );
    assert!(put_outcome(ok_response()).is_ok());
    match swimlane_gate(Err(Error::Cli(CliError::new_msg("Artifact not found")))) {
        Err(Error::Cli(ce)) => assert_eq!(ce.message, "List can not be matched to swimlane"),
        other => panic!("expected the swimlane failure, got {:?}", other),
    }
    assert_eq!(swimlane_gate(Ok(String::from("lane-2"))).unwrap(), "lane-2");
}

#[test]
fn board_creation_payload_is_private() {
    let b = build_create_board(String::from("new-board"), String::from("user-1"));
    assert_eq!(b.title, "new-board");
    assert_eq!(b.owner, "user-1");
    assert_eq!(b.permission, Some(String::from("private")));
    assert_eq!(b.color, None);
}

#[test]
fn update_card_splits_labels() {
    let u = build_update_card(
        String::from("c1"),
        Some(String::from("t")),
        None,
        Some(String::from("2022-10-15")),
        None,
        Some(String::from("red,green,blue")),
    );
    assert_eq!(u.get_id(), "c1");
    assert_eq!(
        u.labels,
        Some(vec![
            String::from("red"),
            String::from("green"),
            String::from("blue")
        ])
    );
}

#[test]
fn archive_card_payloads() {
    let a = build_archive_card(
        String::from("c1"),
        false,
        String::from("2022-10-15T00:00:00.000Z"),
    );
    assert!(a.archive);
    assert_eq!(a.archive_at, "2022-10-15T00:00:00.000Z");
    let restored = build_archive_card(String::from("c1"), true, String::from("ignored"));
    assert!(!restored.archive);
    assert_eq!(restored.archive_at, "");
}

#[test]
fn valid_time_accepts_days_and_rejects_junk() {
    assert!(valid_time("2022-10-15").is_ok());
    assert_eq!(
        valid_time("2022-10-155").unwrap_err(),
        "Day format is too long"
    );
    assert_eq!(
        valid_time("not-a-day").unwrap_err(),
        "Not a correct date format YYYY-MM-DD"
    );
}

#[test]
fn only_the_word_please_removes_config() {
    assert!(only_config_allowed("please").is_ok());
    assert_eq!(
        only_config_allowed("pretty please").unwrap_err(),
        "If you want to remove, say please."
    );
    assert!(only_config_allowed("PLEASE").is_err());
}

#[test]
fn id_length_is_checked() {
    assert!(verify_id_length(String::from("B8D3e2qeXitTeqm9s")).unwrap());
    assert!(verify_id_length(String::from("short")).is_err());
}

#[test]
fn describe_plans() {
    let none = Delegate {
        board_id: None,
        list_id: None,
        card_id: None,
    };
    let with_board = Delegate {
        board_id: Some(String::from("b1")),
        list_id: None,
        card_id: None,
    };
    assert!(matches!(
        describe_plan("no-slash", &none),
        DescribePlan::BadFormat
    ));
    assert!(matches!(
        describe_plan("rocket/x", &none),
        DescribePlan::UnknownType
    ));
    match describe_plan("board/my-board", &none) {
        DescribePlan::Board { name } => assert_eq!(name, "my-board"),
        other => panic!("expected a board describe, got {:?}", other),
    }
    assert!(matches!(
        describe_plan("list/my-list", &none),
        DescribePlan::MissingBoard
    ));
    match describe_plan("l/my-list", &with_board) {
        DescribePlan::List { board_id, name } => {
            assert_eq!(board_id, "b1");
            assert_eq!(name, "my-list");
        }
        other => panic!("expected a list describe, got {:?}", other),
    }
    assert!(matches!(
        describe_plan("card/my-card", &with_board),
        DescribePlan::MissingList
    ));
}

#[test]
fn inspect_plans() {
    let none = Delegate {
        board_id: None,
        list_id: None,
        card_id: None,
    };
    assert!(matches!(
        inspect_plan("no-slash", &none),
        Ok(InspectPlan::BadFormat)
    ));
    assert!(inspect_plan("board/short-id", &none).is_err());
    match inspect_plan("b/B8D3e2qeXitTeqm9s", &none) {
        Ok(InspectPlan::Board { id }) => assert_eq!(id, "B8D3e2qeXitTeqm9s"),
        other => panic!("expected a board inspect, got {:?}", other),
    }
    assert!(matches!(
        inspect_plan("list/B8D3e2qeXitTeqm9s", &none),
        Ok(InspectPlan::MissingBoard)
    ));
}
