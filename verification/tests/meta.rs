use rm_document::meta::split_lines;
use rm_document::{
    ContentData, ContentDataError, Identifier, Layout, MetaData, PageData, PageDataError,
};

fn strings(items: &[&str]) -> Vec<String> {
    items.iter().map(|item| item.to_string()).collect()
}

#[test]
fn empty_text_has_no_line() {
    assert_eq!(split_lines(""), Vec::<String>::new());
}

#[test]
fn each_line_feed_ends_a_line() {
    assert_eq!(split_lines("\n"), strings(&[""]));
    assert_eq!(split_lines("Blank\n"), strings(&["Blank"]));
    assert_eq!(split_lines("Blank\nP Lines medium\n"), strings(&["Blank", "P Lines medium"]));
    assert_eq!(split_lines("a\n\nb\n"), strings(&["a", "", "b"]));
    assert_eq!(split_lines("\n\n"), strings(&["", ""]));
}

#[test]
fn last_line_needs_no_line_feed() {
    assert_eq!(split_lines("Blank"), strings(&["Blank"]));
    assert_eq!(split_lines("Blank\nGrid"), strings(&["Blank", "Grid"]));
}

#[test]
fn carriage_return_before_line_feed_is_dropped() {
    assert_eq!(split_lines("a\r\nb\r\n"), strings(&["a", "b"]));
    assert_eq!(split_lines("\r\n"), strings(&[""]));
    assert_eq!(split_lines("a\r\r\n"), strings(&["a\r"]));
}

#[test]
fn carriage_return_elsewhere_is_kept() {
    assert_eq!(split_lines("a\rb\n"), strings(&["a\rb"]));
    assert_eq!(split_lines("a\r"), strings(&["a\r"]));
    assert_eq!(split_lines("\r"), strings(&["\r"]));
}

#[test]
fn lines_agree_with_the_standard_library() {
    for text in ["", "\n", "a", "a\n", "a\r\n", "a\r", "a\n\r\nb", "\r\n\r\n", "gr\u{fc}n\n\u{1f600}"] {
        let expected: Vec<String> = text.lines().map(|line| line.to_string()).collect();
        assert_eq!(split_lines(text), expected, "lines of {:?}", text);
    }
}

#[test]
fn page_data_is_the_lines_of_its_file() {
    let loaded = PageData::load(Ok("Blank\n\nP Grid small\n".to_string())).unwrap();
    assert_eq!(loaded.names, strings(&["Blank", "", "P Grid small"]));
}

#[test]
fn page_data_hands_on_a_failed_read() {
    let loaded = PageData::load(Err("no such file".to_string()));
    assert!(matches!(loaded, Err(PageDataError::Io(message)) if message == "no such file"));
}

#[test]
fn content_data_reads_orientation_and_pages() {
    let pages = strings(&[
        "713e619e-ed13-4157-81d6-9a6a311cf99b",
        "00000000-0000-0000-0000-000000000002",
    ]);
    let loaded = ContentData::load("landscape", &pages).unwrap();
    assert_eq!(loaded.orientation, Layout::Landscape);
    assert_eq!(
        loaded.pages,
        vec![
            Identifier { value: 0x713e619e_ed13_4157_81d6_9a6a311cf99b },
            Identifier { value: 2 },
        ]
    );
}

#[test]
fn content_data_without_pages() {
    let loaded = ContentData::load("portrait", &Vec::new()).unwrap();
    assert_eq!(loaded.orientation, Layout::Portrait);
    assert!(loaded.pages.is_empty());
}

#[test]
fn content_data_refuses_an_unknown_orientation() {
    let loaded = ContentData::load("upside-down", &Vec::new());
    assert!(
        matches!(loaded, Err(ContentDataError::Parse(message)) if message == "unknown orientation")
    );
}

#[test]
fn content_data_refuses_a_malformed_page() {
    let pages = strings(&["00000000-0000-0000-0000-000000000001", "first"]);
    let loaded = ContentData::load("portrait", &pages);
    assert!(matches!(
        loaded,
        Err(ContentDataError::Parse(message)) if message == "malformed page identifier"
    ));
}

#[test]
fn content_data_names_the_orientation_first() {
    let loaded = ContentData::load("", &strings(&["first"]));
    assert!(
        matches!(loaded, Err(ContentDataError::Parse(message)) if message == "unknown orientation")
    );
}

#[test]
fn read_fields_make_a_content_descriptor() {
    let pages = vec![Some(Identifier { value: 7 }), Some(Identifier { value: 3 })];
    let loaded = ContentData::from_parsed(Some(Layout::Portrait), &pages).unwrap();
    assert_eq!(loaded.orientation, Layout::Portrait);
    assert_eq!(loaded.pages, vec![Identifier { value: 7 }, Identifier { value: 3 }]);
}

#[test]
fn unread_fields_make_none() {
    let pages = vec![Some(Identifier { value: 7 }), None];
    assert!(matches!(
        ContentData::from_parsed(Some(Layout::Portrait), &pages),
        Err(ContentDataError::Parse(message)) if message == "malformed page identifier"
    ));
    assert!(matches!(
        ContentData::from_parsed(None, &pages),
        Err(ContentDataError::Parse(message)) if message == "unknown orientation"
    ));
    assert!(matches!(
        ContentData::from_parsed(None, &Vec::new()),
        Err(ContentDataError::Parse(message)) if message == "unknown orientation"
    ));
}

#[test]
fn parent_is_read_from_its_text() {
    let data = MetaData {
        visible_name: "Notes".to_string(),
        parent: Some("713e619e-ed13-4157-81d6-9a6a311cf99b".to_string()),
    };
    assert_eq!(
        data.parent_id(),
        Some(Identifier { value: 0x713e619e_ed13_4157_81d6_9a6a311cf99b })
    );
}

#[test]
fn missing_or_malformed_parent_is_none() {
    let top = MetaData { visible_name: "Notes".to_string(), parent: None };
    assert_eq!(top.parent_id(), None);
    let empty = MetaData { visible_name: "Notes".to_string(), parent: Some(String::new()) };
    assert_eq!(empty.parent_id(), None);
    let trash = MetaData { visible_name: "Notes".to_string(), parent: Some("trash".to_string()) };
    assert_eq!(trash.parent_id(), None);
}
