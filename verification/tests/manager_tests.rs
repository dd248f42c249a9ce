use clipboard_manager_lib::history::ClipboardHistory;
use clipboard_manager_lib::manager::{
    ClipboardItem, ClipboardItemType, ClipboardManager, HelperState, RestoreAction,
    MIN_IMAGE_BYTES,
};
use clipboard_manager_lib::naming::image_name;
use std::sync::Arc;

fn fresh() -> ClipboardManager {
    ClipboardManager::new(Arc::new("./history.json".to_string()), None)
}

fn abc() -> ClipboardManager {
    let mut manager = fresh();
    assert!(manager.update_clipboard_content(Some("A".to_string())));
    assert!(manager.update_clipboard_content(Some("B".to_string())));
    assert!(manager.update_clipboard_content(Some("C".to_string())));
    manager
}

fn data_of(manager: &ClipboardManager) -> Vec<String> {
    manager.get_history().items.iter().map(|i| i.data.clone()).collect()
}

#[test]
fn new_manager_without_a_file_starts_empty() {
    let manager = fresh();
    assert!(manager.get_history().items.is_empty());
    assert_eq!(manager.get_history().get_counter(ClipboardItemType::TEXT), 0);
    assert_eq!(manager.get_history().get_counter(ClipboardItemType::IMAGE), 0);
    assert_eq!(manager.helper_state(), HelperState::Available);
    assert_eq!(manager.history_file_path(), "./history.json");
}

#[test]
fn new_manager_keeps_the_stored_history() {
    let stored = ClipboardHistory {
        items: vec![
            ClipboardItem { time: 5, item_type: ClipboardItemType::TEXT, data: "old".to_string() },
            ClipboardItem {
                time: 6,
                item_type: ClipboardItemType::IMAGE,
                data: "old.png".to_string(),
            },
        ],
        image_counter: 1,
        text_counter: 1,
    };
    assert!(stored.is_well_formed());
    let manager = ClipboardManager::new(Arc::new("p".to_string()), Some(stored));
    assert_eq!(data_of(&manager), vec!["old", "old.png"]);
    assert_eq!(manager.get_history().items[0].time, 5);
    assert_eq!(manager.get_history().get_counter(ClipboardItemType::TEXT), 1);
    assert_eq!(manager.get_history().get_counter(ClipboardItemType::IMAGE), 1);
    assert_eq!(manager.last_clipboard_text(), "old");
    assert_eq!(manager.last_clipboard_image(), "old.png");
    assert_eq!(manager.helper_state(), HelperState::Available);
}

#[test]
fn default_manager_has_the_helper_switched_off() {
    let manager = ClipboardManager::default();
    assert!(manager.get_history().items.is_empty());
    assert_eq!(manager.history_file_path(), "");
    assert_eq!(manager.helper_state(), HelperState::Unavailable);
}

#[test]
fn save_text_records_a_text() {
    let mut manager = fresh();
    assert!(manager.save_text("hello".to_string()));
    assert_eq!(data_of(&manager), vec!["hello"]);
    assert_eq!(manager.get_history().items[0].item_type, ClipboardItemType::TEXT);
    assert_eq!(manager.get_history().get_counter(ClipboardItemType::TEXT), 1);
}

#[test]
fn save_text_ignores_the_empty_text() {
    let mut manager = fresh();
    assert!(!manager.save_text(String::new()));
    assert!(manager.get_history().items.is_empty());
    assert_eq!(manager.get_history().get_counter(ClipboardItemType::TEXT), 0);
}

#[test]
fn save_text_does_not_compare_with_earlier_texts() {
    let mut manager = fresh();
    assert!(manager.save_text("x".to_string()));
    assert!(manager.save_text("x".to_string()));
    assert_eq!(data_of(&manager), vec!["x", "x"]);
}

#[test]
fn same_text_sampled_twice_is_recorded_once() {
    let mut manager = fresh();
    assert!(manager.update_clipboard_content(Some("t".to_string())));
    assert!(!manager.update_clipboard_content(Some("t".to_string())));
    assert_eq!(data_of(&manager), vec!["t"]);
    assert_eq!(manager.get_history().get_counter(ClipboardItemType::TEXT), 1);
}

#[test]
fn text_is_compared_with_the_latest_text_only() {
    let mut manager = fresh();
    assert!(manager.update_clipboard_content(Some("a".to_string())));
    assert!(manager.update_clipboard_content(Some("b".to_string())));
    assert!(manager.update_clipboard_content(Some("a".to_string())));
    assert_eq!(data_of(&manager), vec!["a", "b", "a"]);
}

#[test]
fn text_comparison_skips_image_items() {
    let mut manager = fresh();
    let bytes = vec![1u8; 60];
    let name = image_name(&bytes);
    assert!(manager.update_clipboard_content(Some("a".to_string())));
    assert!(manager.save_image(bytes, name.clone(), false).is_some());
    assert!(!manager.update_clipboard_content(Some("a".to_string())));
    assert!(manager.update_clipboard_content(Some(name.clone())));
    assert_eq!(data_of(&manager), vec!["a".to_string(), name.clone(), name]);
}

#[test]
fn empty_text_sample_never_appends() {
    let mut manager = fresh();
    assert!(!manager.update_clipboard_content(Some(String::new())));
    assert!(manager.get_history().items.is_empty());
    let mut manager = abc();
    assert!(!manager.update_clipboard_content(Some(String::new())));
    assert_eq!(data_of(&manager), vec!["A", "B", "C"]);
    assert_eq!(manager.get_history().get_counter(ClipboardItemType::TEXT), 3);
}

#[test]
fn failed_text_reading_changes_nothing() {
    let mut manager = abc();
    assert!(!manager.update_clipboard_content(None));
    assert_eq!(data_of(&manager), vec!["A", "B", "C"]);
}

#[test]
fn restore_addresses_items_from_one() {
    let manager = abc();
    match manager.set_clipboard_text(2) {
        RestoreAction::SetText(text) => assert_eq!(text, "B"),
        other => panic!("unexpected action {:?}", other),
    }
    match manager.set_clipboard_text(1) {
        RestoreAction::SetText(text) => assert_eq!(text, "A"),
        other => panic!("unexpected action {:?}", other),
    }
    match manager.set_clipboard_text(3) {
        RestoreAction::SetText(text) => assert_eq!(text, "C"),
        other => panic!("unexpected action {:?}", other),
    }
}

#[test]
fn restore_out_of_range_is_not_found() {
    let manager = abc();
    assert!(matches!(manager.set_clipboard_text(4), RestoreAction::NotFound));
    assert!(matches!(manager.set_clipboard_text(0), RestoreAction::NotFound));
    assert!(matches!(manager.set_clipboard_text(usize::MAX), RestoreAction::NotFound));
    assert_eq!(data_of(&manager), vec!["A", "B", "C"]);
    assert!(matches!(fresh().set_clipboard_text(1), RestoreAction::NotFound));
}

#[test]
fn restore_of_an_image_names_its_file() {
    let mut stored = ClipboardHistory::new();
    stored.add_item_at("t".to_string(), ClipboardItemType::TEXT, 1);
    stored.add_item_at("pic.png".to_string(), ClipboardItemType::IMAGE, 2);
    let manager = ClipboardManager::new(Arc::new("p".to_string()), Some(stored));
    match manager.set_clipboard_text(2) {
        RestoreAction::SetImage(name) => assert_eq!(name, "pic.png"),
        other => panic!("unexpected action {:?}", other),
    }
    let mut manager = fresh();
    let bytes = vec![0u8; 64];
    manager.save_text("t".to_string());
    assert!(manager.save_image(bytes.clone(), image_name(&bytes), false).is_some());
    match manager.set_clipboard_text(2) {
        RestoreAction::SetImage(name) => assert_eq!(name, image_name(&bytes)),
        other => panic!("unexpected action {:?}", other),
    }
}

#[test]
fn image_sample_yields_bytes_and_name() {
    let mut manager = fresh();
    let bytes = vec![9u8; 100];
    let candidate = manager.update_image_content(Some(bytes.clone()));
    let (data, name) = candidate.expect("a new image");
    assert_eq!(data, bytes);
    assert_eq!(name, image_name(&bytes));
    assert!(manager.get_history().items.is_empty());
    assert_eq!(manager.helper_state(), HelperState::Available);
}

#[test]
fn same_image_sampled_twice_is_recorded_once() {
    let mut manager = fresh();
    let bytes = vec![3u8; 51];
    let (data, name) = manager.update_image_content(Some(bytes.clone())).expect("a new image");
    assert_eq!(manager.save_image(data, name.clone(), false), Some(bytes.clone()));
    assert!(manager.update_image_content(Some(bytes.clone())).is_none());
    assert!(manager.update_clipboard_content(Some("between".to_string())));
    assert!(manager.update_image_content(Some(bytes.clone())).is_none());
    let images: Vec<&ClipboardItem> = manager
        .get_history()
        .items
        .iter()
        .filter(|i| i.item_type == ClipboardItemType::IMAGE)
        .collect();
    assert_eq!(images.len(), 1);
    assert_eq!(images[0].data, name);
    assert_eq!(manager.get_history().get_counter(ClipboardItemType::IMAGE), 1);
    assert_eq!(manager.last_clipboard_image(), name);
}

#[test]
fn image_named_by_a_text_item_is_not_recorded() {
    let mut manager = fresh();
    let bytes = vec![4u8; 80];
    assert!(manager.update_clipboard_content(Some(image_name(&bytes))));
    assert!(manager.update_image_content(Some(bytes)).is_none());
    assert_eq!(manager.get_history().get_counter(ClipboardItemType::IMAGE), 0);
}

#[test]
fn small_helper_output_is_no_image() {
    let mut manager = fresh();
    assert_eq!(MIN_IMAGE_BYTES, 51);
    assert!(manager.update_image_content(Some(Vec::new())).is_none());
    assert!(manager.update_image_content(Some(vec![1u8; 1])).is_none());
    assert!(manager.update_image_content(Some(vec![1u8; 50])).is_none());
    assert!(manager.get_history().items.is_empty());
    assert_eq!(manager.helper_state(), HelperState::Available);
    assert!(manager.update_image_content(Some(vec![1u8; 51])).is_some());
}

#[test]
fn failed_helper_is_never_asked_again() {
    let mut manager = fresh();
    assert!(manager.update_image_content(None).is_none());
    assert_eq!(manager.helper_state(), HelperState::Unavailable);
    assert!(manager.update_image_content(Some(vec![5u8; 200])).is_none());
    assert_eq!(manager.helper_state(), HelperState::Unavailable);
    assert!(manager.update_image_content(None).is_none());
    assert!(manager.update_clipboard_content(Some("text".to_string())));
    assert!(manager.update_image_content(Some(vec![6u8; 200])).is_none());
    assert_eq!(manager.helper_state(), HelperState::Unavailable);
    assert_eq!(data_of(&manager), vec!["text"]);
}

#[test]
fn save_image_does_nothing_when_the_file_exists() {
    let mut manager = fresh();
    let bytes = vec![1u8; 60];
    assert_eq!(manager.save_image(bytes.clone(), image_name(&bytes), true), None);
    assert!(manager.get_history().items.is_empty());
    assert_eq!(manager.get_history().get_counter(ClipboardItemType::IMAGE), 0);
    let mut manager = abc();
    assert_eq!(manager.save_image(bytes.clone(), image_name(&bytes), true), None);
    assert_eq!(data_of(&manager), vec!["A", "B", "C"]);
    assert_eq!(manager.get_history().get_counter(ClipboardItemType::IMAGE), 0);
    assert_eq!(manager.get_history().get_counter(ClipboardItemType::TEXT), 3);
}

#[test]
fn repeated_save_under_one_name_records_one_item() {
    let mut manager = fresh();
    let bytes = vec![7u8; 90];
    let name = image_name(&bytes);
    assert_eq!(manager.save_image(bytes.clone(), name.clone(), false), Some(bytes.clone()));
    assert_eq!(manager.save_image(bytes.clone(), name.clone(), true), None);
    assert_eq!(manager.save_image(bytes.clone(), name.clone(), false), None);
    assert_eq!(data_of(&manager), vec![name]);
    assert_eq!(manager.get_history().items[0].item_type, ClipboardItemType::IMAGE);
    assert_eq!(manager.get_history().get_counter(ClipboardItemType::IMAGE), 1);
}

#[test]
fn same_bytes_under_a_second_name_are_recorded_once() {
    let mut manager = fresh();
    let bytes = vec![5u8; 51];
    assert_eq!(
        manager.save_image(bytes.clone(), "first.png".to_string(), false),
        Some(bytes.clone())
    );
    assert_eq!(manager.save_image(bytes.clone(), "second.png".to_string(), false), None);
    assert_eq!(data_of(&manager), vec![image_name(&bytes)]);
    assert_eq!(manager.get_history().get_counter(ClipboardItemType::IMAGE), 1);
    assert_eq!(manager.last_clipboard_image(), image_name(&bytes));
}

#[test]
fn save_image_records_the_name_of_the_bytes() {
    let mut manager = fresh();
    let bytes = b"hello world, hello world, hello world, hello world, hello".to_vec();
    assert_eq!(bytes.len(), 57);
    assert_eq!(manager.save_image(bytes.clone(), "proposal".to_string(), false), Some(bytes));
    assert_eq!(
        data_of(&manager),
        vec!["90e4b3f0007c6ab6870f047d277cc2cb7271ac7eea8f8bb97c2b848646c7f7e7.png"]
    );
}

#[test]
fn save_image_ignores_a_small_payload() {
    let mut manager = fresh();
    assert_eq!(manager.save_image(vec![1, 2, 3], "x".to_string(), false), None);
    assert_eq!(manager.save_image(Vec::new(), image_name(&Vec::new()), false), None);
    let fifty = vec![9u8; 50];
    assert_eq!(manager.save_image(fifty.clone(), image_name(&fifty), false), None);
    assert!(manager.get_history().items.is_empty());
    assert_eq!(manager.get_history().get_counter(ClipboardItemType::IMAGE), 0);
    let fifty_one = vec![9u8; 51];
    assert!(manager.save_image(fifty_one.clone(), image_name(&fifty_one), false).is_some());
    assert_eq!(manager.get_history().get_counter(ClipboardItemType::IMAGE), 1);
}

#[test]
fn save_image_skips_bytes_whose_name_a_text_holds() {
    let mut manager = fresh();
    let bytes = vec![4u8; 80];
    assert!(manager.save_text(image_name(&bytes)));
    assert_eq!(manager.save_image(bytes.clone(), image_name(&bytes), false), None);
    assert_eq!(manager.get_history().items.len(), 1);
    assert_eq!(manager.get_history().get_counter(ClipboardItemType::IMAGE), 0);
}

#[test]
fn image_with_a_file_but_no_item_is_not_recorded() {
    let mut manager = fresh();
    let bytes = vec![2u8; 70];
    let (data, name) = manager.update_image_content(Some(bytes.clone())).expect("a new image");
    assert_eq!(manager.save_image(data, name, true), None);
    assert!(manager.get_history().items.is_empty());
    assert!(manager.update_image_content(Some(bytes)).is_some());
}

#[test]
fn save_image_hands_back_the_bytes_to_write() {
    let mut manager = fresh();
    let bytes = vec![6u8; 64];
    let name = image_name(&bytes);
    assert_eq!(manager.save_image(bytes.clone(), name.clone(), false), Some(bytes));
    assert_eq!(data_of(&manager), vec![name]);
    assert_eq!(manager.get_history().items[0].item_type, ClipboardItemType::IMAGE);
    assert_eq!(manager.get_history().get_counter(ClipboardItemType::IMAGE), 1);
    assert_eq!(manager.get_history().get_counter(ClipboardItemType::TEXT), 0);
}

#[test]
fn last_clipboard_entries_default_to_empty() {
    let manager = fresh();
    assert_eq!(manager.last_clipboard_text(), "");
    assert_eq!(manager.last_clipboard_image(), "");
    let manager = abc();
    assert_eq!(manager.last_clipboard_text(), "C");
    assert_eq!(manager.last_clipboard_image(), "");
}

#[test]
fn history_stays_well_formed_under_sampling() {
    let mut manager = abc();
    let bytes = vec![8u8; 77];
    let (data, name) = manager.update_image_content(Some(bytes)).expect("a new image");
    manager.save_image(data, name, false);
    manager.update_clipboard_content(Some("D".to_string()));
    manager.update_clipboard_content(Some(String::new()));
    assert!(manager.get_history().is_well_formed());
    assert_eq!(manager.get_history().get_counter(ClipboardItemType::TEXT), 4);
    assert_eq!(manager.get_history().get_counter(ClipboardItemType::IMAGE), 1);
    assert_eq!(manager.get_history().items.len(), 5);
}
