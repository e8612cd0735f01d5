use wekan_cli::artifact::{Artifact, AType};
use wekan_cli::config::UserConfig;
use wekan_cli::error::Error;
use wekan_cli::filter::parse_filter;
use wekan_cli::resolver::{
    apply_resolution, constraint_stage, ConstraintStage, FetchGoal, Query, SupplyPlan,
};
use wekan_cli::validation::{CardConstraint, Constraint};

fn board(id: &str, title: &str) -> Artifact {
    Artifact {
        _id: id.to_string(),
        title: title.to_string(),
        kind: AType::Board,
    }
}

fn card(id: &str, title: &str) -> Artifact {
    Artifact {
        _id: id.to_string(),
        title: title.to_string(),
        kind: AType::Card,
    }
}

fn query(filter: &str) -> Query {
    Query {
        config: UserConfig::new(),
        filter: filter.to_string(),
        deny_store_usage: true,
    }
}

fn mock_boards() -> Vec<Artifact> {
    vec![
        board("fake-board-id-1", "fake-board-title-1"),
        board("fake-board-id-2", "fake-board-title-2"),
    ]
}

#[test]
fn find_board_id() {
    let q = query("");
    let res = q.find_board_id(Ok(mock_boards()), "fake-board-title-1").unwrap();
    assert_eq!(res, "fake-board-id-1");
}

#[test]
fn find_board_id_structural_filter_overrides_title() {
    let q = query("b:fake-board-id-2");
    let res = q.find_board_id(Ok(mock_boards()), "fake-board-title-1").unwrap();
    assert_eq!(res, "fake-board-id-2");
}

#[test]
fn find_list_id() {
    let q = query("");
    let lists = vec![
        Artifact {
            _id: String::from("fake-list-id-1"),
            title: String::from("fake-list-title-1"),
            kind: AType::List,
        },
        Artifact {
            _id: String::from("fake-list-id-2"),
            title: String::from("fake-list-title-2"),
            kind: AType::List,
        },
    ];
    let res = q.find_list_id(Ok(lists), "fake-list-title-1").unwrap();
    assert_eq!(res, "fake-list-id-1");
}

#[test]
fn find_card_id() {
    let q = query("");
    let cards = vec![
        card("fake-card-id-1", "fake-card-title-1"),
        card("fake-card-id-2", "fake-card-title-2"),
    ];
    let res = q.find_card_id(Ok(cards), "fake-card-title-1").unwrap();
    assert_eq!(res, "fake-card-id-1");
}

#[test]
fn find_card_id_with_order() {
    // A board-segment filter never matches card candidates structurally,
    // so the title rule decides.
    let q = query("b:f");
    let cards = vec![
        card("fake-card-id-1", "fake-card-title-1"),
        card("fake-card-id-2", "fake-card-title-2"),
    ];
    let res = q.find_card_id(Ok(cards), "fake-card-title-1").unwrap();
    assert_eq!(res, "fake-card-id-1");
}

#[test]
fn find_card_id_card_segment_beats_title() {
    let q = query("b:x,l:y,c:fake-card-id-2");
    let cards = vec![
        card("fake-card-id-1", "fake-card-title-1"),
        card("fake-card-id-2", "fake-card-title-2"),
    ];
    let res = q.find_card_id(Ok(cards), "fake-card-title-1").unwrap();
    assert_eq!(res, "fake-card-id-2");
}

#[test]
fn find_swimlane_id_uses_default_name() {
    let q = query("");
    let lanes = vec![
        Artifact {
            _id: String::from("lane-1"),
            title: String::from("Other"),
            kind: AType::Swimlane,
        },
        Artifact {
            _id: String::from("lane-2"),
            title: String::from("Default"),
            kind: AType::Swimlane,
        },
    ];
    let res = q.find_swimlane_id(Ok(lanes)).unwrap();
    assert_eq!(res, "lane-2");
}

#[test]
fn find_checklist_id_falls_back_to_title() {
    let q = query("");
    let checklists = vec![Artifact {
        _id: String::from("ch-1"),
        title: String::from("groceries"),
        kind: AType::Checklist,
    }];
    let res = q.find_checklist_id(Ok(checklists), "grocer").unwrap();
    assert_eq!(res, "ch-1");
}

#[test]
fn nothing_matches_yields_not_found() {
    let q = query("");
    let res = q.find_board_id(Ok(mock_boards()), "no-such-board");
    match res {
        Err(Error::Cli(ce)) => assert_eq!(ce.message, "Artifact not found"),
        other => panic!("expected the not-found error, got {:?}", other),
    }
}

#[test]
fn failed_supply_yields_not_found() {
    let q = query("");
    let failed: Result<Vec<Artifact>, Error> = Err(Error::Store(
        wekan_cli::error::StoreError { found: false },
    ));
    let res = q.find_board_id(failed, "fake-board-title-1");
    match res {
        Err(Error::Cli(ce)) => assert_eq!(ce.message, "Artifact not found"),
        other => panic!("expected the not-found error, got {:?}", other),
    }
}

#[test]
fn empty_filter_never_matches_structurally() {
    let q = query("");
    assert!(q.check_artifact(&board("fake-board-id-1", "zzz"), "zzz"));
    assert!(!q.check_artifact(&board("fake-board-id-1", "zzz"), "yyy"));
}

#[test]
fn malformed_filter_falls_back_to_title() {
    let q = query("bogus-filter");
    let res = q.find_board_id(Ok(mock_boards()), "fake-board-title-2").unwrap();
    assert_eq!(res, "fake-board-id-2");
}

#[test]
fn parse_filter_reads_all_segments() {
    let f = parse_filter("b:ab,l:cd,c:ef");
    assert_eq!(f.board, Some(String::from("ab")));
    assert_eq!(f.list, Some(String::from("cd")));
    assert_eq!(f.card, Some(String::from("ef")));
}

#[test]
fn parse_filter_partial_and_malformed() {
    let f = parse_filter("b:ab");
    assert_eq!(f.board, Some(String::from("ab")));
    assert_eq!(f.list, None);
    assert_eq!(f.card, None);
    let f = parse_filter("l:cd");
    assert_eq!(f.board, None);
    assert_eq!(f.list, None);
    assert_eq!(f.card, None);
    let f = parse_filter("b:ab,zz,c:ef");
    assert_eq!(f.board, Some(String::from("ab")));
    assert_eq!(f.list, None);
    assert_eq!(f.card, None);
    let f = parse_filter("b:");
    assert_eq!(f.board, None);
}

#[test]
fn inquire_plan_denied_store_is_one_remote_fetch() {
    let q = query("");
    match q.inquire_plan(&AType::Board, None, None, false) {
        SupplyPlan::Remote(FetchGoal::Boards) => {}
        other => panic!("expected a bare remote fetch, got {:?}", other),
    }
    match q.inquire_plan(&AType::Card, Some("b1"), Some("l1"), false) {
        SupplyPlan::Remote(FetchGoal::Cards { board_id, list_id }) => {
            assert_eq!(board_id, "b1");
            assert_eq!(list_id, "l1");
        }
        other => panic!("expected a bare remote fetch, got {:?}", other),
    }
}

#[test]
fn inquire_plan_with_store_consults_cache_first() {
    let q = Query {
        config: UserConfig::new(),
        filter: String::new(),
        deny_store_usage: false,
    };
    match q.inquire_plan(&AType::Card, Some("b1"), Some("l1"), false) {
        SupplyPlan::CacheFirst { key, goal } => {
            assert_eq!(key, "b1_l1");
            assert!(matches!(goal, FetchGoal::Cards { .. }));
        }
        other => panic!("expected a cache consultation, got {:?}", other),
    }
    match q.inquire_plan(&AType::List, Some("b1"), None, true) {
        SupplyPlan::Remote(FetchGoal::Lists { board_id }) => assert_eq!(board_id, "b1"),
        other => panic!("a fresh request bypasses the store, got {:?}", other),
    }
}

#[test]
fn null_kind_never_touches_the_store() {
    let q = Query {
        config: UserConfig::new(),
        filter: String::new(),
        deny_store_usage: false,
    };
    match q.inquire_plan(&AType::Empty, None, None, false) {
        SupplyPlan::Remote(FetchGoal::Nothing) => {}
        other => panic!("the null kind must fetch and cache nothing, got {:?}", other),
    }
}

#[test]
fn constraint_steps_fill_card_constraint() {
    let c = Constraint::Card(CardConstraint {
        board: board("", "my-board"),
        list: Artifact {
            _id: String::new(),
            title: String::from("my-list"),
            kind: AType::List,
        },
    });
    match constraint_stage(&c) {
        ConstraintStage::NeedsBoard { name } => assert_eq!(name, "my-board"),
        other => panic!("expected the board stage, got {:?}", other),
    }
    let c = apply_resolution(c, Ok(String::from("board-id"))).unwrap();
    match constraint_stage(&c) {
        ConstraintStage::NeedsList { board_id, name } => {
            assert_eq!(board_id, "board-id");
            assert_eq!(name, "my-list");
        }
        other => panic!("expected the list stage, got {:?}", other),
    }
    let c = apply_resolution(c, Ok(String::from("list-id"))).unwrap();
    assert!(matches!(constraint_stage(&c), ConstraintStage::Complete));
    match c {
        Constraint::Card(con) => {
            assert_eq!(con.board._id, "board-id");
            assert_eq!(con.list._id, "list-id");
        }
        other => panic!("the constraint changed shape: {:?}", other),
    }
}

#[test]
fn constraint_failure_names_the_stage() {
    let c = Constraint::Card(CardConstraint {
        board: board("bid", "my-board"),
        list: Artifact {
            _id: String::new(),
            title: String::from("my-list"),
            kind: AType::List,
        },
    });
    let failed: Result<String, Error> = Err(Error::Cli(
        wekan_cli::error::CliError::new_msg("Artifact not found"),
    ));
    match apply_resolution(c, failed) {
        Err(Error::Cli(ce)) => assert_eq!(ce.message, "List not found"),
        other => panic!("expected the list-not-found error, got {:?}", other),
    }
}

#[test]
fn login_constraint_is_unsupported() {
    match apply_resolution(Constraint::Login(true), Ok(String::from("x"))) {
        Err(Error::Cli(ce)) => assert_eq!(ce.message, "NOT IMPLEMENTED"),
        other => panic!("expected the unsupported error, got {:?}", other),
    }
}
