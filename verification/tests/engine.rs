use rs_cli::format::PrintFormat;
use rs_cli::ids::collect_ids;
use rs_cli::item_definition::{item_eq, ItemDefinition};
use rs_cli::loader::is_data_file;
use rs_cli::modify::{item_file_name, modify, Modification};
use rs_cli::pattern::CompiledPattern;
use rs_cli::print_items;
use rs_cli::search::fetch_items;
use rs_cli::sort::sort_by_id;
use rs_cli::EngineError;

fn record(id: i32, name: Option<&str>) -> ItemDefinition {
    ItemDefinition {
        id,
        name: name.map(|s| s.to_string()),
        description: None,
        ground_actions: None,
        inventory_actions: None,
        members: false,
        note_graphic_id: None,
        note_info_id: None,
        team: 0,
        stackable: false,
        value: 0,
    }
}

fn three_records() -> Vec<ItemDefinition> {
    vec![
        record(1, Some("sword")),
        record(2, Some("shield")),
        record(3, None),
    ]
}

fn strings(texts: &[&str]) -> Vec<String> {
    texts.iter().map(|s| s.to_string()).collect()
}

#[test]
fn pattern_selects_matching_name_basic_format() {
    let out = print_items(
        three_records(),
        &strings(&["^sw"]),
        &strings(&[]),
        &strings(&[]),
        &PrintFormat::Basic,
    );
    assert_eq!(out.unwrap(), "1 | sword | ");
}

#[test]
fn id_list_file_json_ids_format() {
    let out = print_items(
        three_records(),
        &strings(&[]),
        &strings(&["[3]"]),
        &strings(&[]),
        &PrintFormat::JsonId,
    );
    assert_eq!(out.unwrap(), "[3]");
}

#[test]
fn tuple_file_plus_pattern_sorted_tuple_format() {
    let out = print_items(
        three_records(),
        &strings(&["^sw"]),
        &strings(&[]),
        &strings(&["[[2,\"shield\"]]"]),
        &PrintFormat::JsonIdNameTuple,
    );
    assert_eq!(out.unwrap(), "[[1,\"sword\"],[2,\"shield\"]]");
}

#[test]
fn dot_star_matches_present_and_absent_names() {
    let result = fetch_items(
        three_records(),
        &strings(&[".*"]),
        &strings(&[]),
        &strings(&[]),
    )
    .unwrap();
    assert_eq!(result.len(), 3);
}

#[test]
fn empty_request_yields_empty_result() {
    let result = fetch_items(
        three_records(),
        &strings(&[]),
        &strings(&[]),
        &strings(&[]),
    )
    .unwrap();
    assert_eq!(result.len(), 0);
    let out = print_items(
        three_records(),
        &strings(&[]),
        &strings(&[]),
        &strings(&[]),
        &PrintFormat::Basic,
    );
    assert_eq!(out.unwrap(), "");
}

#[test]
fn id_via_both_file_kinds_selects_once() {
    let out = print_items(
        three_records(),
        &strings(&[]),
        &strings(&["[2]"]),
        &strings(&["[[2,\"shield\"]]"]),
        &PrintFormat::JsonId,
    );
    assert_eq!(out.unwrap(), "[2]");
}

#[test]
fn duplicate_records_collapse_to_one_entry() {
    let mut records = three_records();
    records.push(record(1, Some("sword")));
    let out = print_items(
        records,
        &strings(&["^sw"]),
        &strings(&[]),
        &strings(&[]),
        &PrintFormat::JsonId,
    );
    assert_eq!(out.unwrap(), "[1]");
}

#[test]
fn same_id_different_content_stays_distinct() {
    let mut records = three_records();
    records.push(record(1, Some("swordfish")));
    let out = print_items(
        records,
        &strings(&["^sw"]),
        &strings(&[]),
        &strings(&[]),
        &PrintFormat::JsonId,
    );
    assert_eq!(out.unwrap(), "[1,1]");
}

#[test]
fn output_is_sorted_by_id() {
    let records = vec![
        record(30, Some("axe")),
        record(-4, Some("arrow")),
        record(7, Some("anvil")),
    ];
    let out = print_items(
        records,
        &strings(&["^a"]),
        &strings(&[]),
        &strings(&[]),
        &PrintFormat::JsonId,
    );
    assert_eq!(out.unwrap(), "[-4,7,30]");
}

#[test]
fn invalid_pattern_is_a_configuration_error() {
    let out = print_items(
        three_records(),
        &strings(&["foo("]),
        &strings(&[]),
        &strings(&[]),
        &PrintFormat::Basic,
    );
    assert_eq!(out.unwrap_err(), EngineError::InvalidPattern);
}

#[test]
fn malformed_id_list_fails_whole_command() {
    let out = print_items(
        three_records(),
        &strings(&[".*"]),
        &strings(&["[1,2"]),
        &strings(&[]),
        &PrintFormat::Basic,
    );
    assert_eq!(out.unwrap_err(), EngineError::MalformedIdList);
}

#[test]
fn malformed_tuple_list_fails_whole_command() {
    let out = print_items(
        three_records(),
        &strings(&[]),
        &strings(&["[1]"]),
        &strings(&["[[2,3]]"]),
        &PrintFormat::Basic,
    );
    assert_eq!(out.unwrap_err(), EngineError::MalformedIdNameList);
}

#[test]
fn pattern_error_takes_precedence_over_list_error() {
    let out = print_items(
        three_records(),
        &strings(&["("]),
        &strings(&["not json"]),
        &strings(&[]),
        &PrintFormat::Basic,
    );
    assert_eq!(out.unwrap_err(), EngineError::InvalidPattern);
}

#[test]
fn collect_ids_unions_in_file_order() {
    let ids = collect_ids(
        &strings(&["[5,1]", "[9]"]),
        &strings(&["[[2,\"a\"],[7,\"b\"]]"]),
    )
    .unwrap();
    assert_eq!(ids, vec![5, 1, 9, 2, 7]);
}

#[test]
fn missing_name_renders_as_unnamed_in_tuple_format() {
    let out = print_items(
        three_records(),
        &strings(&[]),
        &strings(&["[3]"]),
        &strings(&[]),
        &PrintFormat::JsonIdNameTuple,
    );
    assert_eq!(out.unwrap(), "[[3,\"unnamed\"]]");
}

#[test]
fn missing_description_renders_empty_in_basic_format() {
    let records = vec![record(3, None)];
    let out = print_items(
        records,
        &strings(&[]),
        &strings(&["[3]"]),
        &strings(&[]),
        &PrintFormat::Basic,
    );
    assert_eq!(out.unwrap(), "3 |  | ");
}

#[test]
fn description_appears_in_basic_format() {
    let mut r = record(4, Some("mace"));
    r.description = Some("blunt".to_string());
    let out = print_items(
        vec![r],
        &strings(&["^ma"]),
        &strings(&[]),
        &strings(&[]),
        &PrintFormat::Basic,
    );
    assert_eq!(out.unwrap(), "4 | mace | blunt");
}

#[test]
fn multiple_records_join_with_newlines() {
    let out = print_items(
        three_records(),
        &strings(&["^s"]),
        &strings(&[]),
        &strings(&[]),
        &PrintFormat::Basic,
    );
    assert_eq!(out.unwrap(), "1 | sword | \n2 | shield | ");
}

#[test]
fn tuple_format_escapes_like_the_json_encoder() {
    let tricky = "he\"llo\\wor\nld\t\u{1}";
    let records = vec![record(1, Some(tricky))];
    let out = print_items(
        records,
        &strings(&[""]),
        &strings(&[]),
        &strings(&[]),
        &PrintFormat::JsonIdNameTuple,
    )
    .unwrap();
    let expected = serde_json::to_string(&vec![(1, tricky)]).unwrap();
    assert_eq!(out, expected);
}

#[test]
fn negative_ids_render_with_minus_sign() {
    let records = vec![record(-2147483648, Some("edge")), record(2147483647, Some("edge2"))];
    let out = print_items(
        records,
        &strings(&["^edge"]),
        &strings(&[]),
        &strings(&[]),
        &PrintFormat::JsonId,
    );
    assert_eq!(out.unwrap(), "[-2147483648,2147483647]");
}

#[test]
fn data_file_filter_accepts_only_json_extension() {
    assert!(is_data_file("4151.json"));
    assert!(is_data_file("a.b.json"));
    assert!(!is_data_file("json"));
    assert!(!is_data_file(".json"));
    assert!(!is_data_file("4151.txt"));
    assert!(!is_data_file("4151.JSON"));
    assert!(!is_data_file(""));
}

#[test]
fn item_file_name_is_id_and_suffix() {
    assert_eq!(item_file_name(4151), "4151.json");
    assert_eq!(item_file_name(0), "0.json");
    assert_eq!(item_file_name(4294967295), "4294967295.json");
}

#[test]
fn modify_is_a_stub_that_succeeds() {
    let r = modify("./data/item_definitions", 4151, &Modification::Stackable(true));
    assert!(r.is_ok());
}

#[test]
fn compiled_pattern_reports_invalid_syntax() {
    assert!(CompiledPattern::new("sw.*").is_ok());
    assert_eq!(
        CompiledPattern::new("[").err().unwrap(),
        EngineError::InvalidPattern
    );
}

#[test]
fn sort_by_id_orders_ascending() {
    let sorted = sort_by_id(vec![record(5, None), record(-1, None), record(3, None)]);
    let ids: Vec<i32> = sorted.iter().map(|r| r.id).collect();
    assert_eq!(ids, vec![-1, 3, 5]);
}

#[test]
fn item_eq_is_full_structural_equality() {
    let a = record(1, Some("sword"));
    let b = record(1, Some("sword"));
    let c = record(1, Some("shield"));
    assert!(item_eq(&a, &b));
    assert!(!item_eq(&a, &c));
    let mut d = record(1, Some("sword"));
    d.ground_actions = Some([
        "take".to_string(),
        String::new(),
        String::new(),
        String::new(),
        String::new(),
    ]);
    assert!(!item_eq(&a, &d));
}

#[test]
fn empty_result_renders_as_empty_json_arrays() {
    let none: Vec<ItemDefinition> = Vec::new();
    let out = print_items(
        none,
        &strings(&[".*"]),
        &strings(&[]),
        &strings(&[]),
        &PrintFormat::JsonId,
    );
    assert_eq!(out.unwrap(), "[]");
    let none2: Vec<ItemDefinition> = Vec::new();
    let out2 = print_items(
        none2,
        &strings(&[".*"]),
        &strings(&[]),
        &strings(&[]),
        &PrintFormat::JsonIdNameTuple,
    );
    assert_eq!(out2.unwrap(), "[]");
}

#[test]
fn matching_twice_yields_the_same_set() {
    let first = fetch_items(
        three_records(),
        &strings(&["^s"]),
        &strings(&["[3]"]),
        &strings(&[]),
    )
    .unwrap();
    let second = fetch_items(
        three_records(),
        &strings(&["^s"]),
        &strings(&["[3]"]),
        &strings(&[]),
    )
    .unwrap();
    assert_eq!(first.len(), second.len());
    for a in &first {
        assert!(second.iter().any(|b| item_eq(a, b)));
    }
}
