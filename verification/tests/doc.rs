use rm_document::doc::stroke_file;
use rm_document::{
    Collection, CollectionError, ContentData, ContentDataError, Document, DocumentError,
    DocumentLoader, Entry, EntryError, Identifier, Layout, MetaData, MetaDataError, Page,
    PageData, PageDataError, PageError, Resolution,
};

/// What loading a stroke file with the given number of empty layers gives.
fn empty_layers(count: u32) -> Result<Page, PageError> {
    let mut bytes = b"reMarkable .lines file, version=5          ".to_vec();
    bytes.extend(count.to_le_bytes());
    for _ in 0..count {
        bytes.extend(0u32.to_le_bytes());
    }
    Page::load(Ok(bytes))
}

fn metadata(name: &str, parent: Option<&str>) -> MetaData {
    MetaData { visible_name: name.to_string(), parent: parent.map(|text| text.to_string()) }
}

fn loader(pages: u128, templates: &[&str]) -> DocumentLoader {
    DocumentLoader::new(
        metadata("Notes", None),
        ContentData {
            orientation: Layout::Portrait,
            pages: (1..=pages).map(|value| Identifier { value }).collect(),
        },
        PageData { names: templates.iter().map(|name| name.to_string()).collect() },
    )
}

fn document(pages: u128, templates: &[&str]) -> Document {
    let mut loader = loader(pages, templates);
    while loader.next_page().is_some() {
        loader.add_page(empty_layers(1)).unwrap();
    }
    loader.finish().unwrap()
}

#[test]
fn folder_has_the_name_and_parent_of_its_metadata() {
    let folder =
        Collection::load(Ok(metadata("Work", Some("713e619e-ed13-4157-81d6-9a6a311cf99b"))))
            .unwrap();
    assert_eq!(folder.name(), "Work");
    assert_eq!(
        folder.parent(),
        Some(Identifier { value: 0x713e619e_ed13_4157_81d6_9a6a311cf99b })
    );
}

#[test]
fn folder_name_is_kept_exactly() {
    let folder = Collection::load(Ok(metadata("  Gr\u{fc}n / \u{1f600}\n", None))).unwrap();
    assert_eq!(folder.name(), "  Gr\u{fc}n / \u{1f600}\n");
    let unnamed = Collection::load(Ok(metadata("", None))).unwrap();
    assert_eq!(unnamed.name(), "");
}

#[test]
fn folder_without_valid_parent_lies_at_the_top() {
    assert_eq!(Collection::load(Ok(metadata("Work", None))).unwrap().parent(), None);
    assert_eq!(Collection::load(Ok(metadata("Work", Some("")))).unwrap().parent(), None);
    assert_eq!(Collection::load(Ok(metadata("Work", Some("trash")))).unwrap().parent(), None);
}

#[test]
fn folder_hands_on_a_metadata_failure() {
    let unread = Collection::load(Err(MetaDataError::Io("no such file".to_string())));
    assert!(matches!(
        unread,
        Err(CollectionError::MetaData(MetaDataError::Io(message))) if message == "no such file"
    ));
    let malformed = Collection::load(Err(MetaDataError::Parse("expected value".to_string())));
    assert!(matches!(
        malformed,
        Err(CollectionError::MetaData(MetaDataError::Parse(message)))
            if message == "expected value"
    ));
}

#[test]
fn stroke_file_has_the_extension() {
    assert_eq!(stroke_file("713e619e".to_string()), "713e619e.rm");
    assert_eq!(stroke_file(String::new()), ".rm");
}

#[test]
fn loader_names_page_files_in_order() {
    let mut loader = loader(2, &["Blank", "Grid"]);
    assert_eq!(
        loader.next_page(),
        Some("00000000-0000-0000-0000-000000000001.rm".to_string())
    );
    assert!(loader.add_page(empty_layers(0)).is_ok());
    assert_eq!(
        loader.next_page(),
        Some("00000000-0000-0000-0000-000000000002.rm".to_string())
    );
    assert!(loader.add_page(empty_layers(0)).is_ok());
    assert_eq!(loader.next_page(), None);
}

#[test]
fn document_takes_what_its_descriptors_say() {
    let mut loader = DocumentLoader::new(
        metadata("Notes", Some("713e619e-ed13-4157-81d6-9a6a311cf99b")),
        ContentData { orientation: Layout::Landscape, pages: vec![Identifier { value: 9 }] },
        PageData { names: vec!["Blank".to_string()] },
    );
    loader.add_page(empty_layers(2)).unwrap();
    let document = loader.finish().unwrap();
    assert_eq!(document.name(), "Notes");
    assert_eq!(
        document.parent(),
        Some(Identifier { value: 0x713e619e_ed13_4157_81d6_9a6a311cf99b })
    );
    assert_eq!(document.orientation(), Layout::Landscape);
    assert_eq!(document.page_count(), 1);
    assert!(document.template_paths().is_empty());
}

#[test]
fn document_with_malformed_parent_lies_at_the_top() {
    let loader = DocumentLoader::new(
        metadata("Notes", Some("trash")),
        ContentData { orientation: Layout::Portrait, pages: Vec::new() },
        PageData { names: Vec::new() },
    );
    assert_eq!(loader.finish().unwrap().parent(), None);
}

#[test]
fn fewer_templates_than_pages_cut_the_pages() {
    let document = document(3, &["A", "B"]).with_template_dir("t");
    assert_eq!(document.page_count(), 2);
    assert_eq!(document.template_paths(), vec!["t/A.svg".to_string(), "t/B.svg".to_string()]);
}

#[test]
fn fewer_pages_than_templates_cut_the_templates() {
    let document = document(2, &["A", "B", "C", "D"]).with_template_dir("t");
    assert_eq!(document.page_count(), 2);
    assert_eq!(document.template_paths(), vec!["t/A.svg".to_string(), "t/B.svg".to_string()]);
}

#[test]
fn as_many_templates_as_pages_keep_all() {
    let document = document(3, &["A", "", "C"]).with_template_dir("t");
    assert_eq!(document.page_count(), 3);
    assert_eq!(
        document.template_paths(),
        vec!["t/A.svg".to_string(), "t/.svg".to_string(), "t/C.svg".to_string()]
    );
}

#[test]
fn no_pages_or_no_templates_give_an_empty_document() {
    assert_eq!(document(0, &["A", "B"]).page_count(), 0);
    assert_eq!(document(2, &[]).page_count(), 0);
    assert_eq!(document(0, &[]).page_count(), 0);
}

#[test]
fn pages_keep_the_order_they_were_loaded_in() {
    let mut loader = loader(3, &["A", "B", "C"]);
    for layers in [3, 1, 2] {
        loader.add_page(empty_layers(layers)).unwrap();
    }
    let mut document = loader.finish().unwrap();
    let plan = document.render_pdf(&Vec::new()).unwrap();
    let counts: Vec<usize> = plan.pages.iter().map(|page| page.layers.len()).collect();
    assert_eq!(counts, vec![3, 1, 2]);
}

#[test]
fn unfinished_document_is_not_handed_out() {
    let mut loader = loader(2, &["A", "B"]);
    loader.add_page(empty_layers(1)).unwrap();
    assert!(loader.finish().is_none());
    assert!(self::loader(1, &["A"]).finish().is_none());
}

#[test]
fn unreadable_page_fails_the_document() {
    let mut loader = loader(2, &["A", "B"]);
    loader.add_page(empty_layers(1)).unwrap();
    let failed = loader.add_page(Page::load(Err("no such file".to_string())));
    assert!(matches!(
        failed,
        Err(DocumentError::Parse(PageError::Io(message))) if message == "no such file"
    ));
    assert_eq!(
        loader.next_page(),
        Some("00000000-0000-0000-0000-000000000002.rm".to_string())
    );
    assert!(loader.finish().is_none());
}

#[test]
fn corrupt_page_fails_the_document() {
    let mut loader = loader(1, &["A"]);
    let failed = loader.add_page(Page::load(Ok(b"not a stroke file".to_vec())));
    assert!(matches!(
        failed,
        Err(DocumentError::Parse(PageError::Parse(message))) if !message.is_empty()
    ));
    assert_eq!(
        loader.next_page(),
        Some("00000000-0000-0000-0000-000000000001.rm".to_string())
    );
}

#[test]
fn pages_beyond_the_last_are_not_taken() {
    let mut loader = loader(1, &["A", "B"]);
    loader.add_page(empty_layers(1)).unwrap();
    assert!(loader.add_page(empty_layers(5)).is_ok());
    assert!(loader.add_page(Err(PageError::Parse("bad header".to_string()))).is_ok());
    assert!(loader.add_page(Err(PageError::Io("no such file".to_string()))).is_ok());
    assert_eq!(loader.finish().unwrap().page_count(), 1);
}

#[test]
fn template_directory_is_set_and_replaced() {
    let mut document = document(1, &["Blank"]);
    assert!(document.template_paths().is_empty());
    document.set_template_dir("/usr/share/templates");
    assert_eq!(document.template_paths(), vec!["/usr/share/templates/Blank.svg".to_string()]);
    document.set_template_dir("other");
    assert_eq!(document.template_paths(), vec!["other/Blank.svg".to_string()]);
    assert_eq!(document.name(), "Notes");
    assert_eq!(document.page_count(), 1);
}

#[test]
fn setting_the_same_directory_twice_changes_nothing() {
    let once = document(2, &["A", "B"]).with_template_dir("t");
    let twice = document(2, &["A", "B"]).with_template_dir("t").with_template_dir("t");
    assert_eq!(once.template_paths(), twice.template_paths());
    assert_eq!(once.name(), twice.name());
    assert_eq!(once.page_count(), twice.page_count());
}

#[test]
fn loaded_document_is_the_entry() {
    match Entry::tried_as_document(Ok(document(2, &["A", "B"]))) {
        Resolution::Resolved(Entry::Document(document)) => {
            assert_eq!(document.name(), "Notes");
            assert_eq!(document.page_count(), 2);
        }
        other => panic!("not a document: {:?}", other),
    }
}

#[test]
fn missing_metadata_is_fatal() {
    let failed = DocumentError::MetaData(MetaDataError::Io("no such file".to_string()));
    assert!(matches!(
        Entry::tried_as_document(Err(failed)),
        Resolution::Failed(EntryError::Document(DocumentError::MetaData(MetaDataError::Io(
            message
        )))) if message == "no such file"
    ));
}

#[test]
fn malformed_metadata_is_fatal() {
    let failed = DocumentError::MetaData(MetaDataError::Parse("expected value".to_string()));
    assert!(matches!(
        Entry::tried_as_document(Err(failed)),
        Resolution::Failed(EntryError::Document(DocumentError::MetaData(MetaDataError::Parse(
            message
        )))) if message == "expected value"
    ));
}

#[test]
fn other_failures_leave_the_entry_undecided() {
    let failures = vec![
        DocumentError::ContentData(ContentDataError::Io("no such file".to_string())),
        DocumentError::ContentData(ContentDataError::Parse("unknown orientation".to_string())),
        DocumentError::PageData(PageDataError::Io("no such file".to_string())),
        DocumentError::Parse(PageError::Io("no such file".to_string())),
        DocumentError::Parse(PageError::Parse("bad header".to_string())),
        DocumentError::Uuid("bad identifier".to_string()),
    ];
    for failure in failures {
        assert!(matches!(Entry::tried_as_document(Err(failure)), Resolution::Undecided));
    }
}

#[test]
fn folder_without_content_resolves_to_a_collection() {
    let failed = DocumentError::ContentData(ContentDataError::Io("no such file".to_string()));
    assert!(matches!(Entry::tried_as_document(Err(failed)), Resolution::Undecided));
    let folder =
        Collection::load(Ok(metadata("Work", Some("713e619e-ed13-4157-81d6-9a6a311cf99b"))));
    match Entry::tried_as_collection(folder) {
        Ok(Entry::Collection(folder)) => {
            assert_eq!(folder.name(), "Work");
            assert_eq!(
                folder.parent(),
                Some(Identifier { value: 0x713e619e_ed13_4157_81d6_9a6a311cf99b })
            );
        }
        other => panic!("not a folder: {:?}", other),
    }
}

#[test]
fn failed_folder_fails_the_entry() {
    let folder = Collection::load(Err(MetaDataError::Io("gone".to_string())));
    assert!(matches!(
        Entry::tried_as_collection(folder),
        Err(EntryError::Collection(CollectionError::MetaData(MetaDataError::Io(message))))
            if message == "gone"
    ));
    let other = Entry::tried_as_collection(Err(CollectionError::Uuid("bad".to_string())));
    assert!(matches!(
        other,
        Err(EntryError::Collection(CollectionError::Uuid(message))) if message == "bad"
    ));
}
